use wizrd::constants::ROUTING_ALGO_DIJKSTRA;
use wizrd::infrastructure_class::InfrastructureClass;
use wizrd::request::RouteRequest;
use wizrd::route::{Point, Route, RouteContainer};
use wizrd::vehicle_kind::VehicleKind;
use wizrd::way::Way;

fn way(id: i64, source: i64, target: i64) -> Way<f64, ()> {
    Way::new(
        id,
        source,
        source as f64,
        source as f64 + 0.5,
        target,
        target as f64,
        target as f64 + 0.5,
        10.0,
        None,
        "residential",
        (),
        false,
        VehicleKind::Bike,
    )
}

fn point(id: i64) -> Point<f64> {
    Point { id, name: None, highway: None, green: None, lat: 45.0, lon: 7.0 }
}

fn ends(ways: &[Way<f64, ()>]) -> Vec<(i64, i64, i64)> {
    ways.iter().map(|w| (w.id, w.source, w.target)).collect()
}

#[test]
fn way_new_keeps_requested_vehicle_off_pedestrian_ways() {
    let w = Way::new(1, 2, 0.0, 0.0, 3, 1.0, 1.0, 5.0, Some("Via Roma".to_string()), "primary", (), false, VehicleKind::Scooter);
    assert_eq!(w.class, InfrastructureClass::Road);
    assert_eq!(w.vehicle_kind, VehicleKind::Scooter);
    assert_eq!(w.kind, "primary");
    assert_eq!(w.name.as_deref(), Some("Via Roma"));
}

#[test]
fn way_new_walks_pedestrian_ways_unless_green() {
    let w = Way::new(1, 2, 0.0, 0.0, 3, 1.0, 1.0, 5.0, None, "footway", (), false, VehicleKind::Bike);
    assert_eq!(w.class, InfrastructureClass::Pedestrian);
    assert_eq!(w.vehicle_kind, VehicleKind::Pedestrian);
    let g = Way::new(1, 2, 0.0, 0.0, 3, 1.0, 1.0, 5.0, None, "footway", (), true, VehicleKind::Bike);
    assert_eq!(g.vehicle_kind, VehicleKind::Bike);
    let p = Way::new(1, 2, 0.0, 0.0, 3, 1.0, 1.0, 5.0, None, "pedestrian", (), false, VehicleKind::Pedestrian);
    assert_eq!(p.vehicle_kind, VehicleKind::Pedestrian);
}

#[test]
fn way_new_walks_steps_even_when_green() {
    let w = Way::new(1, 2, 0.0, 0.0, 3, 1.0, 1.0, 5.0, None, "steps", (), true, VehicleKind::Ebike);
    assert_eq!(w.class, InfrastructureClass::Steps);
    assert_eq!(w.vehicle_kind, VehicleKind::Pedestrian);
}

#[test]
fn swap_turns_a_way_round_and_back() {
    let mut w = way(9, 1, 2);
    w.swap_source_and_target();
    assert_eq!((w.source, w.target), (2, 1));
    assert_eq!((w.x1, w.y1, w.x2, w.y2), (2.0, 2.5, 1.0, 1.5));
    w.swap_source_and_target();
    assert_eq!((w.source, w.target), (1, 2));
    assert_eq!((w.x1, w.y1, w.x2, w.y2), (1.0, 1.5, 2.0, 2.5));
}

#[test]
fn add_hop_takes_first_touching_way() {
    let mut from = vec![way(1, 5, 6), way(2, 3, 1), way(3, 1, 4)];
    let mut to = Vec::new();
    let next = Route::add_hop(1, &mut from, &mut to);
    assert_eq!(next, Ok(3));
    assert_eq!(ends(&to), vec![(2, 1, 3)]);
    assert_eq!(ends(&from), vec![(1, 5, 6), (3, 1, 4)]);
}

#[test]
fn add_hop_reports_missing_vertex() {
    let mut from = vec![way(1, 5, 6)];
    let mut to: Vec<Way<f64, ()>> = Vec::new();
    assert_eq!(Route::add_hop(7, &mut from, &mut to), Err("Unable to find Way 7 in Route".to_string()));
    assert_eq!(Route::add_hop(-12, &mut from, &mut to), Err("Unable to find Way -12 in Route".to_string()));
    assert_eq!(ends(&from), vec![(1, 5, 6)]);
    assert!(to.is_empty());
}

#[test]
fn route_new_orders_ways_from_start_to_goal() {
    // 10 -> 11 -> 12 -> 13, given shuffled and partly reversed.
    let ways = vec![way(3, 13, 12), way(1, 10, 11), way(2, 12, 11)];
    let route = Route::new(point(10), point(13), (), (), ways);
    assert_eq!(ends(&route.ways), vec![(1, 10, 11), (2, 11, 12), (3, 12, 13)]);
    assert_eq!(route.start.id, 10);
    assert_eq!(route.goal.id, 13);
    // The reversed way carries its coordinates along.
    assert_eq!((route.ways[1].x1, route.ways[1].x2), (11.0, 12.0));
}

#[test]
fn route_new_stops_at_a_dead_end() {
    let ways = vec![way(1, 1, 2), way(2, 7, 8)];
    let route = Route::new(point(1), point(8), (), (), ways);
    assert_eq!(ends(&route.ways), vec![(1, 1, 2)]);
}

#[test]
fn route_new_without_ways_or_at_goal_is_empty() {
    let route = Route::new(point(1), point(8), (), (), Vec::new());
    assert!(route.ways.is_empty());
    let same = Route::new(point(4), point(4), (), (), vec![way(1, 4, 5)]);
    assert!(same.ways.is_empty());
}

#[test]
fn sort_ways_leaves_unreached_ways() {
    let mut ways = vec![way(1, 1, 2), way(5, 30, 31), way(2, 2, 3)];
    let sorted = Route::sort_ways(1, 3, &mut ways);
    assert_eq!(ends(&sorted), vec![(1, 1, 2), (2, 2, 3)]);
    assert_eq!(ends(&ways), vec![(5, 30, 31)]);
    assert_eq!(sorted.len() + ways.len(), 3);
}

#[test]
fn sort_ways_result_is_a_path() {
    let mut ways = vec![way(4, 5, 4), way(1, 1, 2), way(3, 3, 4), way(2, 3, 2), way(6, 9, 9)];
    let sorted = Route::sort_ways(1, 5, &mut ways);
    assert_eq!(sorted[0].source, 1);
    for pair in sorted.windows(2) {
        assert_eq!(pair[0].target, pair[1].source);
    }
    assert_eq!(sorted.last().unwrap().target, 5);
    assert_eq!(ends(&ways), vec![(6, 9, 9)]);
}

#[test]
fn route_container_new_keeps_its_parts() {
    let route = Route::new(point(1), point(2), (), (), vec![way(1, 1, 2)]);
    let container = RouteContainer::new(vec![route], VehicleKind::Ebike, true);
    assert_eq!(container.routes.len(), 1);
    assert_eq!(container.requested_vehicle_kind, VehicleKind::Ebike);
    assert!(container.is_fallback);
}

#[test]
fn set_real_coords() {
    let mut rr: RouteRequest<f64> = RouteRequest {
        start_id: 1,
        goal_id: 2,
        real_start_coords: vec![],
        real_goal_coords: vec![],
        vehicle_kind: VehicleKind::Bike,
        routing_algorithm_kind: ROUTING_ALGO_DIJKSTRA.to_string(),
        consider_air_quality: None,
        consider_distance: None,
        consider_green_areas: None,
        consider_mobility_impairment: None,
        consider_safety: None,
        consider_traffic: None,
        air_quality_level: 1,
        traffic_level: 1,
    };
    rr.set_real_start_coords(45.1, 7.6);
    rr.set_real_goal_coords(45.2, 7.7);
    assert_eq!(rr.real_start_coords, vec![45.1, 7.6]);
    assert_eq!(rr.real_goal_coords, vec![45.2, 7.7]);
    assert_eq!(rr.start_id, 1);
}

#[test]
fn ordering_twice_changes_nothing() {
    let mut ways = vec![way(3, 4, 3), way(1, 1, 2), way(2, 3, 2), way(7, 2, 9)];
    let sorted = Route::sort_ways(1, 4, &mut ways);
    let mut again = sorted.clone();
    let sorted_again = Route::sort_ways(1, 4, &mut again);
    assert_eq!(ends(&sorted_again), ends(&sorted));
    assert!(again.is_empty());
}

#[test]
fn ordering_twice_turns_a_loop_back() {
    let mut ways = vec![way(1, 1, 1)];
    let sorted = Route::sort_ways(1, 2, &mut ways);
    assert_eq!((sorted[0].x1, sorted[0].x2), (1.0, 1.0));
    assert_eq!((sorted[0].y1, sorted[0].y2), (1.5, 1.5));
    let mut lopsided = vec![Way::new(1, 1, 0.0, 0.5, 1, 3.0, 3.5, 1.0, None, "path", (), false, VehicleKind::Bike)];
    let once = Route::sort_ways(1, 2, &mut lopsided);
    assert_eq!((once[0].x1, once[0].x2), (3.0, 0.0));
    let mut again = once.clone();
    let twice = Route::sort_ways(1, 2, &mut again);
    assert_eq!((twice[0].x1, twice[0].x2), (0.0, 3.0));
}
