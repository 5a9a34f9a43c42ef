use vstd::prelude::*;
use vstd::string::*;
use crate::constants::{
    multilevel_source, spec_multilevel_source, AIR_QUALITY_SOURCE, ROUTING_ALGO_DIJKSTRA,
    TRAFFIC_SOURCE,
};
use crate::request::RouteRequest;
use crate::text::{bool_str, bool_text, decimal_string, integer_decimal, str_eq};
use crate::vehicle_kind::VehicleKind;

verus! {

/// Opening of the cost call, up to the means of transport.
pub const COST_CALL_HEAD: &'static str = "\n        CALCULATE_COST (\n            W.ID,\n            ''";

/// Between two quoted text arguments of the cost call.
pub const COST_TEXT_ARG_SEP: &'static str = "''::TEXT,\n            ''";

/// After the last quoted text argument of the cost call.
pub const COST_TEXT_ARG_END: &'static str = "''::TEXT,\n            ";

/// Between two arguments of the cost call.
pub const COST_ARG_SEP: &'static str = ",\n            ";

/// The way columns the cost call always reads, up to the air-quality data column.
pub const COST_FIXED_COLUMNS: &'static str = ",\n            W.LENGTH_M,\n            W.HIGHWAY,\n            W.MAXSPEED_FORWARD,\n            W.GREEN,\n            W.SURFACE,\n            W.ONE_WAY,\n            D.";

/// Between the two data columns of the cost call.
pub const COST_DATA_SEP: &'static str = ",\n            D.";

/// Closing of the cost call.
pub const COST_CALL_TAIL: &'static str = "\n        )\n        ";

/// Opening of the Dijkstra call, up to the cost call.
pub const ROUTING_HEAD: &'static str = "\n                PGR_DIJKSTRA (\n                    'SELECT\n                        W.ID,\n                        W.SOURCE,\n                        W.TARGET,\n                        C.COST,\n                        C.REVERSE_COST\n                    FROM\n                        WAYS W\n                        JOIN DATA D ON D.ID = W.ID\n                        CROSS JOIN ";

/// After the cost call, up to the start vertex.
pub const ROUTING_AFTER_COST: &'static str = " C',\n                        ";

/// Between two arguments of the Dijkstra call.
pub const ROUTING_ARG_SEP: &'static str = ",\n                        ";

/// Closing of the Dijkstra call.
pub const ROUTING_TAIL: &'static str = "\n                )\n                ";

/// Opening of the query for a route's ways, up to the routing call.
pub const ROUTE_QUERY_HEAD: &'static str = "\n        SELECT\n            W.ID,\n            W.SOURCE,\n            W.X1,\n            W.Y1,\n            W.TARGET,\n            W.X2,\n            W.Y2,\n            R.SEQ,\n            W.NAME,\n            SUM(W.LENGTH_M) AS __DISTANCE,\n            W.HIGHWAY,\n            W.GREEN,\n            ST_ASTEXT (ST_LINEMERGE (ST_COLLECT (W.THE_GEOM))) AS __GEOM\n        FROM\n            ";

/// Closing of the query for a route's ways.
pub const ROUTE_QUERY_TAIL: &'static str = " AS R\n            JOIN WAYS W ON W.ID = R.EDGE\n        GROUP BY\n            W.ID,\n            W.SOURCE,\n            W.X1,\n            W.Y1,\n            W.TARGET,\n            W.X2,\n            W.Y2,\n            R.SEQ,\n            W.NAME,\n            W.HIGHWAY,\n            W.GREEN;\n        ";

/// Opening of the map query, up to the data column.
pub const TOPOLOGY_QUERY_HEAD: &'static str = "\n        SELECT\n            W.ID,\n            ST_ASTEXT (ST_LINEMERGE (ST_COLLECT (W.THE_GEOM))) AS __GEOM,\n            ";

/// Between the data column and the condition of the map query.
pub const TOPOLOGY_QUERY_MIDDLE: &'static str = "::DOUBLE PRECISION AS __DATA\n        FROM\n            WAYS W\n            JOIN DATA D ON W.ID = D.ID ";

/// Closing of the map query.
pub const TOPOLOGY_QUERY_TAIL: &'static str = "\n        GROUP BY\n            W.ID,\n            __DATA\n        ";

/// Opening of the message that refuses a routing algorithm.
pub const UNKNOWN_ALGORITHM_HEAD: &'static str = "Requested routing algorithm \"";

/// Closing of the message that refuses a routing algorithm.
pub const UNKNOWN_ALGORITHM_TAIL: &'static str = "\" is not implemented";

/// The texts held by a `Result` of strings.
pub open spec fn result_text(res: Result<String, String>) -> Result<Seq<char>, Seq<char>> {
    match res {
        Ok(s) => Ok(s@),
        Err(e) => Err(e@),
    }
}

/// The flag `flag`, or `default` where it is not given.
pub open spec fn flag_or(flag: Option<bool>, default: bool) -> bool {
    match flag {
        Some(b) => b,
        None => default,
    }
}

fn flag_or_exec(flag: Option<bool>, default: bool) -> (res: bool)
    ensures
        res == flag_or(flag, default),
{
    match flag {
        Some(b) => b,
        None => default,
    }
}

/// The SQL call of the cost function for a request: means of transport, the air-quality
/// and traffic columns at the requested levels, and which criteria to weigh (distance by
/// default, the others not).
pub open spec fn cost_query_text<C>(rr: RouteRequest<C>) -> Seq<char> {
    let air = spec_multilevel_source(AIR_QUALITY_SOURCE@, rr.air_quality_level);
    let traffic = spec_multilevel_source(TRAFFIC_SOURCE@, rr.traffic_level);
    COST_CALL_HEAD@ + rr.vehicle_kind.display_name() + COST_TEXT_ARG_SEP@ + air
        + COST_TEXT_ARG_SEP@ + traffic + COST_TEXT_ARG_END@
        + bool_text(flag_or(rr.consider_air_quality, false)) + COST_ARG_SEP@
        + bool_text(flag_or(rr.consider_distance, true)) + COST_ARG_SEP@
        + bool_text(flag_or(rr.consider_green_areas, false)) + COST_ARG_SEP@
        + bool_text(flag_or(rr.consider_safety, false)) + COST_ARG_SEP@
        + bool_text(flag_or(rr.consider_traffic, false)) + COST_ARG_SEP@
        + bool_text(flag_or(rr.consider_mobility_impairment, false)) + COST_FIXED_COLUMNS@ + air
        + COST_DATA_SEP@ + traffic + COST_CALL_TAIL@
}

/// Builds the SQL call of the cost function for `rr`; it always succeeds.
pub fn calculate_cost_query<C>(rr: &RouteRequest<C>) -> (res: Result<String, String>)
    ensures
        result_text(res) == Ok::<Seq<char>, Seq<char>>(cost_query_text(*rr)),
{
    let air_quality_profile = multilevel_source(AIR_QUALITY_SOURCE, rr.air_quality_level);
    let traffic_profile = multilevel_source(TRAFFIC_SOURCE, rr.traffic_level);
    let mut q = String::from_str(COST_CALL_HEAD);
    q.append(rr.vehicle_kind.as_str());
    q.append(COST_TEXT_ARG_SEP);
    q.append(air_quality_profile.as_str());
    q.append(COST_TEXT_ARG_SEP);
    q.append(traffic_profile.as_str());
    q.append(COST_TEXT_ARG_END);
    q.append(bool_str(flag_or_exec(rr.consider_air_quality, false)));
    q.append(COST_ARG_SEP);
    q.append(bool_str(flag_or_exec(rr.consider_distance, true)));
    q.append(COST_ARG_SEP);
    q.append(bool_str(flag_or_exec(rr.consider_green_areas, false)));
    q.append(COST_ARG_SEP);
    q.append(bool_str(flag_or_exec(rr.consider_safety, false)));
    q.append(COST_ARG_SEP);
    q.append(bool_str(flag_or_exec(rr.consider_traffic, false)));
    q.append(COST_ARG_SEP);
    q.append(bool_str(flag_or_exec(rr.consider_mobility_impairment, false)));
    q.append(COST_FIXED_COLUMNS);
    q.append(air_quality_profile.as_str());
    q.append(COST_DATA_SEP);
    q.append(traffic_profile.as_str());
    q.append(COST_CALL_TAIL);
    Ok(q)
}

/// The SQL routing call for `rr` around the cost call `cost_call`: Dijkstra's algorithm
/// between the request's vertices, directed unless the request is for walking. Any other
/// algorithm is refused with a message naming it.
pub open spec fn routing_query_text<C>(rr: RouteRequest<C>, cost_call: Seq<char>) -> Result<
    Seq<char>,
    Seq<char>,
> {
    if rr.routing_algorithm_kind@ == ROUTING_ALGO_DIJKSTRA@ {
        Ok(
            ROUTING_HEAD@ + cost_call + ROUTING_AFTER_COST@ + integer_decimal(rr.start_id as int)
                + ROUTING_ARG_SEP@ + integer_decimal(rr.goal_id as int) + ROUTING_ARG_SEP@
                + bool_text(rr.vehicle_kind != VehicleKind::Pedestrian) + ROUTING_TAIL@,
        )
    } else {
        Err(UNKNOWN_ALGORITHM_HEAD@ + rr.routing_algorithm_kind@ + UNKNOWN_ALGORITHM_TAIL@)
    }
}

/// Builds the SQL routing call for `rr` around `cost_call`.
pub fn routing_query<C>(rr: &RouteRequest<C>, cost_call: &str) -> (res: Result<String, String>)
    ensures
        result_text(res) == routing_query_text(*rr, cost_call@),
{
    if str_eq(rr.routing_algorithm_kind.as_str(), ROUTING_ALGO_DIJKSTRA) {
        // A walking request is routed without regard to one-way streets.
        let directed = rr.vehicle_kind != VehicleKind::Pedestrian;
        let start = decimal_string(rr.start_id);
        let goal = decimal_string(rr.goal_id);
        let mut q = String::from_str(ROUTING_HEAD);
        q.append(cost_call);
        q.append(ROUTING_AFTER_COST);
        q.append(start.as_str());
        q.append(ROUTING_ARG_SEP);
        q.append(goal.as_str());
        q.append(ROUTING_ARG_SEP);
        q.append(bool_str(directed));
        q.append(ROUTING_TAIL);
        Ok(q)
    } else {
        let mut e = String::from_str(UNKNOWN_ALGORITHM_HEAD);
        e.append(rr.routing_algorithm_kind.as_str());
        e.append(UNKNOWN_ALGORITHM_TAIL);
        Err(e)
    }
}

/// Law: a criterion the request leaves out counts as given: distance as weighed, every
/// other criterion as not weighed.
pub proof fn absent_criteria_take_their_defaults<C>(rr: RouteRequest<C>)
    ensures
        cost_query_text(RouteRequest { consider_distance: None, ..rr }) == cost_query_text(
            RouteRequest { consider_distance: Some(true), ..rr },
        ),
        cost_query_text(RouteRequest { consider_air_quality: None, ..rr }) == cost_query_text(
            RouteRequest { consider_air_quality: Some(false), ..rr },
        ),
        cost_query_text(RouteRequest { consider_green_areas: None, ..rr }) == cost_query_text(
            RouteRequest { consider_green_areas: Some(false), ..rr },
        ),
        cost_query_text(RouteRequest { consider_safety: None, ..rr }) == cost_query_text(
            RouteRequest { consider_safety: Some(false), ..rr },
        ),
        cost_query_text(RouteRequest { consider_traffic: None, ..rr }) == cost_query_text(
            RouteRequest { consider_traffic: Some(false), ..rr },
        ),
        cost_query_text(RouteRequest { consider_mobility_impairment: None, ..rr }) == cost_query_text(
            RouteRequest { consider_mobility_impairment: Some(false), ..rr },
        ),
{
}

/// Law: Dijkstra's algorithm runs on the directed graph, respecting one-way streets, for
/// every means of transport but walking, and on the undirected graph for walking; the call
/// names the request's start and goal vertices in decimal.
pub proof fn routing_call_directed_unless_walking<C>(rr: RouteRequest<C>, cost_call: Seq<char>)
    requires
        rr.routing_algorithm_kind@ == "dijkstra"@,
    ensures
        routing_query_text(rr, cost_call) == Ok::<Seq<char>, Seq<char>>(
            ROUTING_HEAD@ + cost_call + ROUTING_AFTER_COST@ + integer_decimal(rr.start_id as int)
                + ROUTING_ARG_SEP@ + integer_decimal(rr.goal_id as int) + ROUTING_ARG_SEP@ + (
            if rr.vehicle_kind == VehicleKind::Pedestrian {
                "false"@
            } else {
                "true"@
            }) + ROUTING_TAIL@,
        ),
{
    reveal_strlit("dijkstra");
    assert(ROUTING_ALGO_DIJKSTRA@ == "dijkstra"@);
}

/// The SQL query for the ways of the route that `rr` asks for, or why there is none.
pub open spec fn route_query_text<C>(rr: RouteRequest<C>) -> Result<Seq<char>, Seq<char>> {
    match routing_query_text(rr, cost_query_text(rr)) {
        Ok(routing) => Ok(ROUTE_QUERY_HEAD@ + routing + ROUTE_QUERY_TAIL@),
        Err(e) => Err(e),
    }
}

/// Builds the SQL query for the ways of the route that `rr` asks for.
pub fn from_route_request<C>(rr: &RouteRequest<C>) -> (res: Result<String, String>)
    ensures
        result_text(res) == route_query_text(*rr),
{
    let calculate_cost_query = match calculate_cost_query(rr) {
        Ok(q) => q,
        Err(e) => {
            return Err(e);
        },
    };
    let routing_query = match routing_query(rr, calculate_cost_query.as_str()) {
        Ok(q) => q,
        Err(e) => {
            return Err(e);
        },
    };
    let mut q = String::from_str(ROUTE_QUERY_HEAD);
    q.append(routing_query.as_str());
    q.append(ROUTE_QUERY_TAIL);
    Ok(q)
}

/// Law: the query for a route can be built exactly when the request asks for Dijkstra's
/// algorithm.
pub proof fn route_query_needs_dijkstra<C>(rr: RouteRequest<C>)
    ensures
        route_query_text(rr) is Ok <==> rr.routing_algorithm_kind@ == ROUTING_ALGO_DIJKSTRA@,
{
}

/// The SQL query for the ways of the map with one data column, `data_col`, restricted by
/// `where_clause`.
pub open spec fn topology_query_text(where_clause: Seq<char>, data_col: Seq<char>) -> Seq<char> {
    TOPOLOGY_QUERY_HEAD@ + data_col + TOPOLOGY_QUERY_MIDDLE@ + where_clause + TOPOLOGY_QUERY_TAIL@
}

/// Builds the SQL query for the ways of the map with one data column.
pub fn topology_query(where_clause: &str, data_col: &str) -> (res: String)
    ensures
        res@ == topology_query_text(where_clause@, data_col@),
{
    let mut q = String::from_str(TOPOLOGY_QUERY_HEAD);
    q.append(data_col);
    q.append(TOPOLOGY_QUERY_MIDDLE);
    q.append(where_clause);
    q.append(TOPOLOGY_QUERY_TAIL);
    q
}

} // verus!
