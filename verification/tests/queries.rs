use wizrd::constants::{multilevel_source, AIR_QUALITY_SOURCE, TRAFFIC_SOURCE};
use wizrd::lumi::{
    choose_answer, pedestrian_request, ride_between_stations_request, use_rental, walk_from_station_request,
    walk_to_station_request,
};
use wizrd::query::{calculate_cost_query, from_route_request, routing_query, topology_query};
use wizrd::request::RouteRequest;
use wizrd::route::RouteContainer;
use wizrd::topology::{requested_source, topology_selection, RequestError};
use wizrd::vehicle_kind::VehicleKind;

fn request(kind: VehicleKind, algorithm: &str) -> RouteRequest<f64> {
    RouteRequest {
        start_id: 101,
        goal_id: -7,
        real_start_coords: vec![45.0, 7.0],
        real_goal_coords: vec![45.5, 7.5],
        vehicle_kind: kind,
        routing_algorithm_kind: algorithm.to_string(),
        consider_air_quality: Some(true),
        consider_distance: None,
        consider_green_areas: Some(false),
        consider_mobility_impairment: None,
        consider_safety: Some(true),
        consider_traffic: None,
        air_quality_level: 2,
        traffic_level: 5,
    }
}

fn expected_cost_query(rr: &RouteRequest<f64>) -> String {
    let air_quality_profile = multilevel_source(AIR_QUALITY_SOURCE, rr.air_quality_level);
    let traffic_profile = multilevel_source(TRAFFIC_SOURCE, rr.traffic_level);
    format!(
        r#"
        CALCULATE_COST (
            W.ID,
            ''{}''::TEXT,
            ''{}''::TEXT,
            ''{}''::TEXT,
            {},
            {},
            {},
            {},
            {},
            {},
            W.LENGTH_M,
            W.HIGHWAY,
            W.MAXSPEED_FORWARD,
            W.GREEN,
            W.SURFACE,
            W.ONE_WAY,
            D.{},
            D.{}
        )
        "#,
        rr.vehicle_kind.as_str(),
        air_quality_profile,
        traffic_profile,
        rr.consider_air_quality.unwrap_or(false),
        rr.consider_distance.unwrap_or(true),
        rr.consider_green_areas.unwrap_or(false),
        rr.consider_safety.unwrap_or(false),
        rr.consider_traffic.unwrap_or(false),
        rr.consider_mobility_impairment.unwrap_or(false),
        multilevel_source(AIR_QUALITY_SOURCE, rr.air_quality_level),
        multilevel_source(TRAFFIC_SOURCE, rr.traffic_level),
    )
}

fn expected_routing_query(rr: &RouteRequest<f64>, cost_call: &str, directed: bool) -> String {
    format!(
        r#"
                PGR_DIJKSTRA (
                    'SELECT
                        W.ID,
                        W.SOURCE,
                        W.TARGET,
                        C.COST,
                        C.REVERSE_COST
                    FROM
                        WAYS W
                        JOIN DATA D ON D.ID = W.ID
                        CROSS JOIN {} C',
                        {},
                        {},
                        {}
                )
                "#,
        cost_call, rr.start_id, rr.goal_id, directed
    )
}

#[test]
fn cost_query_text() {
    let rr = request(VehicleKind::Ebike, "dijkstra");
    let q = calculate_cost_query(&rr).unwrap();
    assert_eq!(q, expected_cost_query(&rr));
    assert!(q.contains("''ebike''::TEXT"));
    assert!(q.contains("''pm2_medium''::TEXT"));
    assert!(q.contains("''traffic''::TEXT"));
    assert!(q.contains("true,\n            true,\n            false,\n            true,\n            false,\n            false,"));
}

#[test]
fn cost_query_names_walking_pedestrian() {
    let rr = request(VehicleKind::Pedestrian, "dijkstra");
    let q = calculate_cost_query(&rr).unwrap();
    assert!(q.contains("''pedestrian''::TEXT"));
}

#[test]
fn routing_query_dijkstra_directed_unless_walking() {
    let rr = request(VehicleKind::Bike, "dijkstra");
    assert_eq!(routing_query(&rr, "COST()").unwrap(), expected_routing_query(&rr, "COST()", true));
    let walk = request(VehicleKind::Pedestrian, "dijkstra");
    assert_eq!(routing_query(&walk, "COST()").unwrap(), expected_routing_query(&walk, "COST()", false));
}

#[test]
fn routing_query_refuses_other_algorithms() {
    let rr = request(VehicleKind::Bike, "astar");
    assert_eq!(
        routing_query(&rr, "COST()"),
        Err("Requested routing algorithm \"astar\" is not implemented".to_string())
    );
    let rr = request(VehicleKind::Bike, "Dijkstra");
    assert!(routing_query(&rr, "COST()").is_err());
}

#[test]
fn route_query_text() {
    let rr = request(VehicleKind::Scooter, "dijkstra");
    let cost = expected_cost_query(&rr);
    let routing = expected_routing_query(&rr, &cost, true);
    let expected = format!(
        r#"
        SELECT
            W.ID,
            W.SOURCE,
            W.X1,
            W.Y1,
            W.TARGET,
            W.X2,
            W.Y2,
            R.SEQ,
            W.NAME,
            SUM(W.LENGTH_M) AS __DISTANCE,
            W.HIGHWAY,
            W.GREEN,
            ST_ASTEXT (ST_LINEMERGE (ST_COLLECT (W.THE_GEOM))) AS __GEOM
        FROM
            {} AS R
            JOIN WAYS W ON W.ID = R.EDGE
        GROUP BY
            W.ID,
            W.SOURCE,
            W.X1,
            W.Y1,
            W.TARGET,
            W.X2,
            W.Y2,
            R.SEQ,
            W.NAME,
            W.HIGHWAY,
            W.GREEN;
        "#,
        routing
    );
    assert_eq!(from_route_request(&rr).unwrap(), expected);
}

#[test]
fn route_query_needs_dijkstra() {
    let rr = request(VehicleKind::Scooter, "ksp");
    assert_eq!(
        from_route_request(&rr),
        Err("Requested routing algorithm \"ksp\" is not implemented".to_string())
    );
}

#[test]
fn topology_query_text() {
    let expected = format!(
        "
        SELECT
            W.ID,
            ST_ASTEXT (ST_LINEMERGE (ST_COLLECT (W.THE_GEOM))) AS __GEOM,
            {}::DOUBLE PRECISION AS __DATA
        FROM
            WAYS W
            JOIN DATA D ON W.ID = D.ID {}
        GROUP BY
            W.ID,
            __DATA
        ",
        "pm2_high", "WHERE green IS true AND pm2_high IS NOT NULL"
    );
    assert_eq!(topology_query("WHERE green IS true AND pm2_high IS NOT NULL", "pm2_high"), expected);
}

#[test]
fn topology_selection_without_data() {
    assert_eq!(topology_selection("all", "none"), Ok(("".to_string(), "NULL".to_string())));
    assert_eq!(topology_selection("none", "none"), Ok(("WHERE false".to_string(), "NULL".to_string())));
}

#[test]
fn topology_selection_with_data() {
    assert_eq!(
        topology_selection("cycleways", "pm2"),
        Ok((
            "WHERE w.highway IN ('cycleway', 'cycle_crossing') AND pm2_high IS NOT NULL".to_string(),
            "pm2_high".to_string()
        ))
    );
    assert_eq!(
        topology_selection("greenways", "traffic_medium"),
        Ok(("WHERE green IS true AND traffic_medium IS NOT NULL".to_string(), "traffic_medium".to_string()))
    );
    assert_eq!(
        topology_selection("footways", "walk_n"),
        Ok((
            "WHERE w.highway IN ('footway', 'footpath', 'pedestrian', 'steps', 'foot_crossing') AND walk_n IS NOT NULL"
                .to_string(),
            "walk_n".to_string()
        ))
    );
    assert_eq!(topology_selection("all", "comf_n"), Ok((" AND comf_n IS NOT NULL".to_string(), "comf_n".to_string())));
}

#[test]
fn topology_selection_refuses_unknown_names() {
    assert_eq!(topology_selection("lakes", "none"), Err(RequestError::BadRequest));
    assert_eq!(topology_selection("roads", "noise"), Err(RequestError::BadRequest));
    assert_eq!(topology_selection("Roads", "none"), Err(RequestError::BadRequest));
}

#[test]
fn requested_source_levels() {
    assert_eq!(requested_source("traffic", None), Err(RequestError::BadRequest));
    assert_eq!(requested_source("pm2", None), Err(RequestError::BadRequest));
    assert_eq!(requested_source("traffic", Some(2)), Ok("traffic_medium".to_string()));
    assert_eq!(requested_source("pm2", Some(9)), Ok("pm2".to_string()));
    assert_eq!(requested_source("comf_n", None), Ok("comf_n".to_string()));
    assert_eq!(requested_source("comf_n", Some(1)), Ok("comf_n".to_string()));
}

#[test]
fn leveled_sources_are_served() {
    for filter in ["none", "all", "roads", "footways", "cycleways", "greenways"] {
        for source in ["traffic", "pm2"] {
            for level in -1..5 {
                let column = requested_source(source, Some(level)).unwrap();
                assert!(topology_selection(filter, &column).is_ok());
            }
        }
    }
}

#[test]
fn rental_needs_two_distinct_stations() {
    assert!(use_rental(Some(1), Some(2)));
    assert!(!use_rental(Some(3), Some(3)));
    assert!(!use_rental(None, Some(2)));
    assert!(!use_rental(Some(1), None));
    assert!(!use_rental(None, None));
}

#[test]
fn rental_legs_connect() {
    let rr = request(VehicleKind::Scooter, "dijkstra");
    let walk = pedestrian_request(request(VehicleKind::Scooter, "dijkstra"));
    assert_eq!(walk.vehicle_kind, VehicleKind::Pedestrian);
    assert_eq!((walk.start_id, walk.goal_id), (rr.start_id, rr.goal_id));

    let first = walk_to_station_request(request(VehicleKind::Scooter, "dijkstra"), 500, 45.1, 7.1);
    let ride = ride_between_stations_request(request(VehicleKind::Scooter, "dijkstra"), 500, 45.1, 7.1, 600, 45.4, 7.4);
    let last = walk_from_station_request(request(VehicleKind::Scooter, "dijkstra"), 600, 45.4, 7.4);

    assert_eq!((first.start_id, first.goal_id), (101, 500));
    assert_eq!(first.vehicle_kind, VehicleKind::Pedestrian);
    assert_eq!(first.real_start_coords, rr.real_start_coords);
    assert_eq!(first.real_goal_coords, vec![45.1, 7.1]);

    assert_eq!((ride.start_id, ride.goal_id), (500, 600));
    assert_eq!(ride.vehicle_kind, VehicleKind::Scooter);
    assert_eq!(ride.real_start_coords, vec![45.1, 7.1]);
    assert_eq!(ride.real_goal_coords, vec![45.4, 7.4]);

    assert_eq!((last.start_id, last.goal_id), (600, -7));
    assert_eq!(last.vehicle_kind, VehicleKind::Pedestrian);
    assert_eq!(last.real_start_coords, vec![45.4, 7.4]);
    assert_eq!(last.real_goal_coords, rr.real_goal_coords);
}

#[test]
fn rental_answer_choice() {
    let walking = || RouteContainer::<f64, ()>::new(Vec::new(), VehicleKind::Bike, true);
    let rental = || RouteContainer::<f64, ()>::new(Vec::new(), VehicleKind::Bike, false);
    assert!(choose_answer(walking(), None, false).is_fallback);
    assert!(choose_answer(walking(), None, true).is_fallback);
    assert!(choose_answer(walking(), Some(rental()), true).is_fallback);
    assert!(!choose_answer(walking(), Some(rental()), false).is_fallback);
}
