use vstd::prelude::*;
use crate::request::RouteRequest;
use crate::route::RouteContainer;
use crate::vehicle_kind::VehicleKind;

verus! {

/// Whether a trip can use rented vehicles: a rental station was found near both the
/// start and the goal, and they are not the same station.
pub open spec fn rental_possible(first_station: Option<i64>, second_station: Option<i64>) -> bool {
    match (first_station, second_station) {
        (Some(first), Some(second)) => first != second,
        _ => false,
    }
}

/// Decides between the walking-only answer and a trip with a rented vehicle, given the
/// ids of the rental stations nearest to the start and to the goal.
pub fn use_rental(first_station: Option<i64>, second_station: Option<i64>) -> (res: bool)
    ensures
        res == rental_possible(first_station, second_station),
{
    match (first_station, second_station) {
        (Some(first), Some(second)) => first != second,
        _ => false,
    }
}

/// The answer to a request for a trip with a rented vehicle: the walking routes where
/// no rental trip was planned or where walking is faster, the rental trip otherwise.
pub open spec fn chosen_answer<C, G>(
    walking: RouteContainer<C, G>,
    rental: Option<RouteContainer<C, G>>,
    walking_faster: bool,
) -> RouteContainer<C, G> {
    match rental {
        Some(trip) => if walking_faster {
            walking
        } else {
            trip
        },
        None => walking,
    }
}

/// Picks the answer to a request for a trip with a rented vehicle, given the walking
/// routes, the rental trip if one was planned, and whether walking takes less time.
pub fn choose_answer<C, G>(
    walking: RouteContainer<C, G>,
    rental: Option<RouteContainer<C, G>>,
    walking_faster: bool,
) -> (res: RouteContainer<C, G>)
    ensures
        res == chosen_answer(walking, rental, walking_faster),
{
    match rental {
        Some(trip) => if walking_faster {
            walking
        } else {
            trip
        },
        None => walking,
    }
}

/// The same request, walked.
pub fn pedestrian_request<C>(rr: RouteRequest<C>) -> (res: RouteRequest<C>)
    ensures
        res == (RouteRequest { vehicle_kind: VehicleKind::Pedestrian, ..rr }),
{
    let mut rr = rr;
    rr.vehicle_kind = VehicleKind::Pedestrian;
    rr
}

/// Whether `leg` is `rr` walked from the requested start to the vertex `station_point`,
/// with the requested goal place set to (`lat`, `lon`).
pub open spec fn is_walk_to_station<C>(leg: RouteRequest<C>, rr: RouteRequest<C>, station_point: i64, lat: C, lon: C) -> bool {
    &&& leg.real_goal_coords@ == seq![lat, lon]
    &&& leg == (RouteRequest {
        vehicle_kind: VehicleKind::Pedestrian,
        goal_id: station_point,
        real_goal_coords: leg.real_goal_coords,
        ..rr
    })
}

/// Whether `leg` is `rr` ridden from the vertex `first_point` to the vertex
/// `second_point`, with the requested places set to the two stations.
pub open spec fn is_ride_between_stations<C>(
    leg: RouteRequest<C>,
    rr: RouteRequest<C>,
    first_point: i64,
    first_lat: C,
    first_lon: C,
    second_point: i64,
    second_lat: C,
    second_lon: C,
) -> bool {
    &&& leg.real_start_coords@ == seq![first_lat, first_lon]
    &&& leg.real_goal_coords@ == seq![second_lat, second_lon]
    &&& leg == (RouteRequest {
        start_id: first_point,
        goal_id: second_point,
        real_start_coords: leg.real_start_coords,
        real_goal_coords: leg.real_goal_coords,
        ..rr
    })
}

/// Whether `leg` is `rr` walked from the vertex `station_point` to the requested goal,
/// with the requested start place set to (`lat`, `lon`).
pub open spec fn is_walk_from_station<C>(leg: RouteRequest<C>, rr: RouteRequest<C>, station_point: i64, lat: C, lon: C) -> bool {
    &&& leg.real_start_coords@ == seq![lat, lon]
    &&& leg == (RouteRequest {
        vehicle_kind: VehicleKind::Pedestrian,
        start_id: station_point,
        real_start_coords: leg.real_start_coords,
        ..rr
    })
}

/// The first leg of a rental trip: walking from the requested start to the graph vertex
/// `station_point` nearest to the first station, which stands at (`lat`, `lon`).
pub fn walk_to_station_request<C>(rr: RouteRequest<C>, station_point: i64, lat: C, lon: C) -> (res: RouteRequest<C>)
    ensures
        is_walk_to_station(res, rr, station_point, lat, lon),
{
    let mut rr = rr;
    rr.vehicle_kind = VehicleKind::Pedestrian;
    rr.goal_id = station_point;
    rr.set_real_goal_coords(lat, lon);
    rr
}

/// The middle leg of a rental trip: riding the requested vehicle from the vertex
/// `first_point` by the first station, at (`first_lat`, `first_lon`), to the vertex
/// `second_point` by the second station, at (`second_lat`, `second_lon`).
pub fn ride_between_stations_request<C>(
    rr: RouteRequest<C>,
    first_point: i64,
    first_lat: C,
    first_lon: C,
    second_point: i64,
    second_lat: C,
    second_lon: C,
) -> (res: RouteRequest<C>)
    ensures
        is_ride_between_stations(
            res,
            rr,
            first_point,
            first_lat,
            first_lon,
            second_point,
            second_lat,
            second_lon,
        ),
{
    let mut rr = rr;
    rr.start_id = first_point;
    rr.set_real_start_coords(first_lat, first_lon);
    rr.goal_id = second_point;
    rr.set_real_goal_coords(second_lat, second_lon);
    rr
}

/// The last leg of a rental trip: walking from the vertex `station_point` by the second
/// station, which stands at (`lat`, `lon`), to the requested goal.
pub fn walk_from_station_request<C>(rr: RouteRequest<C>, station_point: i64, lat: C, lon: C) -> (res: RouteRequest<C>)
    ensures
        is_walk_from_station(res, rr, station_point, lat, lon),
{
    let mut rr = rr;
    rr.vehicle_kind = VehicleKind::Pedestrian;
    rr.start_id = station_point;
    rr.set_real_start_coords(lat, lon);
    rr
}

/// Law: the legs of a rental trip connect: the trip walks from the requested start to the
/// first station, rides the requested vehicle to the second, and walks on to the
/// requested goal, each leg beginning where the one before it ends.
pub proof fn rental_legs_connect<C>(
    rr: RouteRequest<C>,
    first_point: i64,
    first_lat: C,
    first_lon: C,
    second_point: i64,
    second_lat: C,
    second_lon: C,
    walk_to: RouteRequest<C>,
    ride: RouteRequest<C>,
    walk_from: RouteRequest<C>,
)
    requires
        is_walk_to_station(walk_to, rr, first_point, first_lat, first_lon),
        is_ride_between_stations(
            ride,
            rr,
            first_point,
            first_lat,
            first_lon,
            second_point,
            second_lat,
            second_lon,
        ),
        is_walk_from_station(walk_from, rr, second_point, second_lat, second_lon),
    ensures
        walk_to.start_id == rr.start_id,
        walk_to.real_start_coords == rr.real_start_coords,
        walk_to.goal_id == ride.start_id,
        walk_to.real_goal_coords@ == ride.real_start_coords@,
        ride.goal_id == walk_from.start_id,
        ride.real_goal_coords@ == walk_from.real_start_coords@,
        walk_from.goal_id == rr.goal_id,
        walk_from.real_goal_coords == rr.real_goal_coords,
        walk_to.vehicle_kind == VehicleKind::Pedestrian,
        ride.vehicle_kind == rr.vehicle_kind,
        walk_from.vehicle_kind == VehicleKind::Pedestrian,
{
}

/// Law: a rental trip is planned exactly when stations were found near both the start and
/// the goal and they are two different stations.
pub proof fn rental_needs_two_different_stations(first: i64, second: i64)
    ensures
        rental_possible(Some(first), Some(second)) <==> first != second,
        !rental_possible(Some(first), None),
        !rental_possible(None, Some(second)),
        !rental_possible(None, None),
{
}

/// Law: which station is found near the start and which near the goal does not change
/// whether a rental trip is planned.
pub proof fn rental_is_symmetric(first_station: Option<i64>, second_station: Option<i64>)
    ensures
        rental_possible(first_station, second_station) == rental_possible(second_station, first_station),
{
}

/// Law: the walking routes are the answer unless a rental trip was planned and walking is
/// not faster; then the rental trip is.
pub proof fn walking_answered_unless_rental_is_faster<C, G>(
    walking: RouteContainer<C, G>,
    trip: RouteContainer<C, G>,
    walking_faster: bool,
)
    ensures
        chosen_answer(walking, None, walking_faster) == walking,
        chosen_answer(walking, Some(trip), true) == walking,
        chosen_answer(walking, Some(trip), false) == trip,
{
}

} // verus!
