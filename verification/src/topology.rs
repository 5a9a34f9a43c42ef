use vstd::prelude::*;
use vstd::string::*;
use crate::constants::{is_multilevel, multilevel_source, spec_multilevel_source, AIR_QUALITY_SOURCE, TRAFFIC_SOURCE};
use crate::text::str_eq;

verus! {

/// Selects no way.
pub const NO_WAYS_CLAUSE: &'static str = "WHERE false";

/// Selects the ways open to motor traffic.
pub const ROADS_CLAUSE: &'static str = "WHERE w.highway IN ('primary', 'secondary', 'tertiary', 'primary_link', 'secondary_link', 'tertiary_link', 'road', 'living_street', 'unclassified', 'residential', 'service')";

/// Selects the ways for walking.
pub const FOOTWAYS_CLAUSE: &'static str = "WHERE w.highway IN ('footway', 'footpath', 'pedestrian', 'steps', 'foot_crossing')";

/// Selects the ways for cycling.
pub const CYCLEWAYS_CLAUSE: &'static str = "WHERE w.highway IN ('cycleway', 'cycle_crossing')";

/// Selects the ways through green areas.
pub const GREENWAYS_CLAUSE: &'static str = "WHERE green IS true";

/// Why a request is refused.
#[derive(Debug, Clone, Copy, PartialEq, Eq, Structural)]
pub enum RequestError {
    /// The request names a filter, a data source or a level that is not served.
    BadRequest,
}

/// The SQL condition that selects the ways of filter `filter`, if the filter is known.
pub open spec fn filter_clause(filter: Seq<char>) -> Option<Seq<char>> {

    if filter == "none"@ {
        Some(NO_WAYS_CLAUSE@)
    } else if filter == "all"@ {
        Some(""@)
    } else if filter == "roads"@ {
        Some(ROADS_CLAUSE@)
    } else if filter == "footways"@ {
        Some(FOOTWAYS_CLAUSE@)
    } else if filter == "cycleways"@ {
        Some(CYCLEWAYS_CLAUSE@)
    } else if filter == "greenways"@ {
        Some(GREENWAYS_CLAUSE@)
    } else {
        None
    }
}

/// The data column that serves data source `source`, if the source is known; `"NULL"`
/// stands for no data.
pub open spec fn source_column(source: Seq<char>) -> Option<Seq<char>> {

    if source == "none"@ {
        Some("NULL"@)
    } else if source == "pm2_low"@ {
        Some("pm2_low"@)
    } else if source == "pm2_medium"@ {
        Some("pm2_medium"@)
    } else if source == "pm2"@ || source == "pm2_high"@ {
        Some("pm2_high"@)
    } else if source == "traffic_low"@ {
        Some("traffic_low"@)
    } else if source == "traffic_medium"@ {
        Some("traffic_medium"@)
    } else if source == "traffic"@ || source == "traffic_high"@ {
        Some("traffic_high"@)
    } else if source == "comf_n"@ {
        Some("comf_n"@)
    } else if source == "qualinf_n"@ {
        Some("qualinf_n"@)
    } else if source == "sic_n"@ {
        Some("sic_n"@)
    } else if source == "acc_n"@ {
        Some("acc_n"@)
    } else if source == "walk_n"@ {
        Some("walk_n"@)
    } else {
        None
    }
}

/// The condition and the data column for a map query with filter `filter` and data
/// source `source`. Where there is a data column, only ways that have data in it are kept.
pub open spec fn topology_selection_spec(filter: Seq<char>, source: Seq<char>) -> Result<(Seq<char>, Seq<char>), RequestError> {
    match (filter_clause(filter), source_column(source)) {
        (Some(clause), Some(column)) => {
            if column != "NULL"@ {
                Ok((clause + " AND "@ + column + " IS NOT NULL"@, column))
            } else {
                Ok((clause, column))
            }
        },
        _ => Err(RequestError::BadRequest),
    }
}

/// The texts held by a selection result.
pub open spec fn selection_text(res: Result<(String, String), RequestError>) -> Result<(Seq<char>, Seq<char>), RequestError> {
    match res {
        Ok((clause, column)) => Ok((clause@, column@)),
        Err(e) => Err(e),
    }
}

fn filter_clause_exec(filter: &str) -> (res: Option<&'static str>)
    ensures
        match res {
            Some(c) => filter_clause(filter@) == Some(c@),
            None => filter_clause(filter@) is None,
        },
{

    if str_eq(filter, "none") {
        Some(NO_WAYS_CLAUSE)
    } else if str_eq(filter, "all") {
        Some("")
    } else if str_eq(filter, "roads") {
        Some(ROADS_CLAUSE)
    } else if str_eq(filter, "footways") {
        Some(FOOTWAYS_CLAUSE)
    } else if str_eq(filter, "cycleways") {
        Some(CYCLEWAYS_CLAUSE)
    } else if str_eq(filter, "greenways") {
        Some(GREENWAYS_CLAUSE)
    } else {
        None
    }
}

fn source_column_exec(source: &str) -> (res: Option<&'static str>)
    ensures
        match res {
            Some(c) => source_column(source@) == Some(c@),
            None => source_column(source@) is None,
        },
{

    if str_eq(source, "none") {
        Some("NULL")
    } else if str_eq(source, "pm2_low") {
        Some("pm2_low")
    } else if str_eq(source, "pm2_medium") {
        Some("pm2_medium")
    } else if str_eq(source, "pm2") || str_eq(source, "pm2_high") {
        Some("pm2_high")
    } else if str_eq(source, "traffic_low") {
        Some("traffic_low")
    } else if str_eq(source, "traffic_medium") {
        Some("traffic_medium")
    } else if str_eq(source, "traffic") || str_eq(source, "traffic_high") {
        Some("traffic_high")
    } else if str_eq(source, "comf_n") {
        Some("comf_n")
    } else if str_eq(source, "qualinf_n") {
        Some("qualinf_n")
    } else if str_eq(source, "sic_n") {
        Some("sic_n")
    } else if str_eq(source, "acc_n") {
        Some("acc_n")
    } else if str_eq(source, "walk_n") {
        Some("walk_n")
    } else {
        None
    }
}

/// The condition and data column of a map query with filter `filter` and data source
/// `source`; an unknown filter or source is a bad request.
pub fn topology_selection(filter: &str, source: &str) -> (res: Result<(String, String), RequestError>)
    ensures
        selection_text(res) == topology_selection_spec(filter@, source@),
{
    let clause = match filter_clause_exec(filter) {
        Some(c) => c,
        None => {
            return Err(RequestError::BadRequest);
        },
    };
    let column = match source_column_exec(source) {
        Some(c) => c,
        None => {
            return Err(RequestError::BadRequest);
        },
    };
    if !str_eq(column, "NULL") {
        let mut where_clause = String::from_str(clause);
        where_clause.append(" AND ");
        where_clause.append(column);
        where_clause.append(" IS NOT NULL");
        Ok((where_clause, String::from_str(column)))
    } else {
        Ok((String::from_str(clause), String::from_str(column)))
    }
}

/// The data source a map request asks for: a traffic or air-quality source needs a level
/// and is narrowed to that level's column; other sources stand as they are.
pub open spec fn requested_source_spec(source: Seq<char>, level: Option<i32>) -> Result<Seq<char>, RequestError> {
    if is_multilevel(source) {
        match level {
            Some(l) => Ok(spec_multilevel_source(source, l)),
            None => Err(RequestError::BadRequest),
        }
    } else {
        Ok(source)
    }
}

/// The data source a map request for `source` at `level` asks for; a traffic or
/// air-quality source without a level is a bad request.
pub fn requested_source(source: &str, level: Option<i32>) -> (res: Result<String, RequestError>)
    ensures
        match res {
            Ok(s) => requested_source_spec(source@, level) == Ok::<Seq<char>, RequestError>(s@),
            Err(e) => requested_source_spec(source@, level) == Err::<Seq<char>, RequestError>(e),
        },
{
    if str_eq(source, TRAFFIC_SOURCE) || str_eq(source, AIR_QUALITY_SOURCE) {
        match level {
            Some(l) => Ok(multilevel_source(source, l)),
            None => Err(RequestError::BadRequest),
        }
    } else {
        Ok(String::from_str(source))
    }
}

/// Law: every data column is served as itself: a map query for it keeps only the ways
/// that have data in that column, and reads that column.
pub proof fn columns_are_served_as_themselves(filter: Seq<char>)
    requires
        filter_clause(filter) is Some,
    ensures
        topology_selection_spec(filter, "pm2_low"@) == Ok::<(Seq<char>, Seq<char>), RequestError>((filter_clause(filter)->Some_0 + " AND "@ + "pm2_low"@ + " IS NOT NULL"@, "pm2_low"@)),
        topology_selection_spec(filter, "pm2_medium"@) == Ok::<(Seq<char>, Seq<char>), RequestError>((filter_clause(filter)->Some_0 + " AND "@ + "pm2_medium"@ + " IS NOT NULL"@, "pm2_medium"@)),
        topology_selection_spec(filter, "pm2_high"@) == Ok::<(Seq<char>, Seq<char>), RequestError>((filter_clause(filter)->Some_0 + " AND "@ + "pm2_high"@ + " IS NOT NULL"@, "pm2_high"@)),
        topology_selection_spec(filter, "traffic_low"@) == Ok::<(Seq<char>, Seq<char>), RequestError>((filter_clause(filter)->Some_0 + " AND "@ + "traffic_low"@ + " IS NOT NULL"@, "traffic_low"@)),
        topology_selection_spec(filter, "traffic_medium"@) == Ok::<(Seq<char>, Seq<char>), RequestError>((filter_clause(filter)->Some_0 + " AND "@ + "traffic_medium"@ + " IS NOT NULL"@, "traffic_medium"@)),
        topology_selection_spec(filter, "traffic_high"@) == Ok::<(Seq<char>, Seq<char>), RequestError>((filter_clause(filter)->Some_0 + " AND "@ + "traffic_high"@ + " IS NOT NULL"@, "traffic_high"@)),
        topology_selection_spec(filter, "comf_n"@) == Ok::<(Seq<char>, Seq<char>), RequestError>((filter_clause(filter)->Some_0 + " AND "@ + "comf_n"@ + " IS NOT NULL"@, "comf_n"@)),
        topology_selection_spec(filter, "qualinf_n"@) == Ok::<(Seq<char>, Seq<char>), RequestError>((filter_clause(filter)->Some_0 + " AND "@ + "qualinf_n"@ + " IS NOT NULL"@, "qualinf_n"@)),
        topology_selection_spec(filter, "sic_n"@) == Ok::<(Seq<char>, Seq<char>), RequestError>((filter_clause(filter)->Some_0 + " AND "@ + "sic_n"@ + " IS NOT NULL"@, "sic_n"@)),
        topology_selection_spec(filter, "acc_n"@) == Ok::<(Seq<char>, Seq<char>), RequestError>((filter_clause(filter)->Some_0 + " AND "@ + "acc_n"@ + " IS NOT NULL"@, "acc_n"@)),
        topology_selection_spec(filter, "walk_n"@) == Ok::<(Seq<char>, Seq<char>), RequestError>((filter_clause(filter)->Some_0 + " AND "@ + "walk_n"@ + " IS NOT NULL"@, "walk_n"@)),
{
    reveal_strlit("none");
    reveal_strlit("pm2_low");
    reveal_strlit("pm2_medium");
    reveal_strlit("pm2");
    reveal_strlit("pm2_high");
    reveal_strlit("traffic_low");
    reveal_strlit("traffic_medium");
    reveal_strlit("traffic");
    reveal_strlit("traffic_high");
    reveal_strlit("comf_n");
    reveal_strlit("qualinf_n");
    reveal_strlit("sic_n");
    reveal_strlit("acc_n");
    reveal_strlit("walk_n");
    reveal_strlit("NULL");
    assert("none"@.len() == 4);
    assert("pm2_low"@.len() == 7);
    assert("pm2_medium"@.len() == 10);
    assert("pm2"@.len() == 3);
    assert("pm2_high"@.len() == 8);
    assert("traffic_low"@.len() == 11);
    assert("traffic_medium"@.len() == 14);
    assert("traffic"@.len() == 7);
    assert("traffic_high"@.len() == 12);
    assert("comf_n"@.len() == 6);
    assert("qualinf_n"@.len() == 9);
    assert("sic_n"@.len() == 5);
    assert("acc_n"@.len() == 5);
    assert("walk_n"@.len() == 6);
    assert("NULL"@.len() == 4);
    assert("none"@[0] != "NULL"@[0]);
    assert("pm2_low"@[0] != "traffic"@[0]);
    assert("comf_n"@[0] != "walk_n"@[0]);
    assert("sic_n"@[0] != "acc_n"@[0]);
}

/// Law: without a level, air quality and traffic are read from their high columns, and
/// no data source keeps the filter's condition as it is.
pub proof fn unleveled_sources(filter: Seq<char>)
    requires
        filter_clause(filter) is Some,
    ensures
        topology_selection_spec(filter, "pm2"@) == Ok::<(Seq<char>, Seq<char>), RequestError>((filter_clause(filter)->Some_0 + " AND "@ + "pm2_high"@ + " IS NOT NULL"@, "pm2_high"@)),
        topology_selection_spec(filter, "traffic"@) == Ok::<(Seq<char>, Seq<char>), RequestError>((filter_clause(filter)->Some_0 + " AND "@ + "traffic_high"@ + " IS NOT NULL"@, "traffic_high"@)),
        topology_selection_spec(filter, "none"@) == Ok::<(Seq<char>, Seq<char>), RequestError>((filter_clause(filter)->Some_0, "NULL"@)),
{
    reveal_strlit("none");
    reveal_strlit("pm2_low");
    reveal_strlit("pm2_medium");
    reveal_strlit("pm2");
    reveal_strlit("pm2_high");
    reveal_strlit("traffic_low");
    reveal_strlit("traffic_medium");
    reveal_strlit("traffic");
    reveal_strlit("traffic_high");
    reveal_strlit("comf_n");
    reveal_strlit("qualinf_n");
    reveal_strlit("sic_n");
    reveal_strlit("acc_n");
    reveal_strlit("walk_n");
    reveal_strlit("NULL");
    assert("none"@.len() == 4);
    assert("pm2_low"@.len() == 7);
    assert("pm2_medium"@.len() == 10);
    assert("pm2"@.len() == 3);
    assert("pm2_high"@.len() == 8);
    assert("traffic_low"@.len() == 11);
    assert("traffic_medium"@.len() == 14);
    assert("traffic"@.len() == 7);
    assert("traffic_high"@.len() == 12);
    assert("comf_n"@.len() == 6);
    assert("qualinf_n"@.len() == 9);
    assert("sic_n"@.len() == 5);
    assert("acc_n"@.len() == 5);
    assert("walk_n"@.len() == 6);
    assert("NULL"@.len() == 4);
    assert("none"@[0] != "NULL"@[0]);
    assert("pm2_low"@[0] != "traffic"@[0]);
    assert("comf_n"@[0] != "walk_n"@[0]);
    assert("sic_n"@[0] != "acc_n"@[0]);
}

/// Law: a traffic or air-quality request at level 1, 2 or 3 reads the column of that level:
/// the source's name followed by `_low`, `_medium` or `_high`.
pub proof fn level_selects_its_column(filter: Seq<char>, source: Seq<char>, level: i32)
    requires
        filter_clause(filter) is Some,
        source == "pm2"@ || source == "traffic"@,
        1 <= level <= 3,
    ensures
        requested_source_spec(source, Some(level)) == Ok::<Seq<char>, RequestError>(source + (if level == 1 {
            "_low"@
        } else if level == 2 {
            "_medium"@
        } else {
            "_high"@
        })),
        topology_selection_spec(filter, requested_source_spec(source, Some(level))->Ok_0) is Ok,
        topology_selection_spec(filter, requested_source_spec(source, Some(level))->Ok_0)->Ok_0.1
            == source + (if level == 1 {
            "_low"@
        } else if level == 2 {
            "_medium"@
        } else {
            "_high"@
        }),
{
    reveal_strlit("traffic");
    reveal_strlit("pm2");
    assert(TRAFFIC_SOURCE@ == "traffic"@);
    assert(AIR_QUALITY_SOURCE@ == "pm2"@);
    reveal_strlit("none");
    reveal_strlit("pm2_low");
    reveal_strlit("pm2_medium");
    reveal_strlit("pm2");
    reveal_strlit("pm2_high");
    reveal_strlit("traffic_low");
    reveal_strlit("traffic_medium");
    reveal_strlit("traffic");
    reveal_strlit("traffic_high");
    reveal_strlit("comf_n");
    reveal_strlit("qualinf_n");
    reveal_strlit("sic_n");
    reveal_strlit("acc_n");
    reveal_strlit("walk_n");
    reveal_strlit("NULL");
    reveal_strlit("_low");
    reveal_strlit("_medium");
    reveal_strlit("_high");
    assert("none"@.len() == 4);
    assert("pm2_low"@.len() == 7);
    assert("pm2_medium"@.len() == 10);
    assert("pm2"@.len() == 3);
    assert("pm2_high"@.len() == 8);
    assert("traffic_low"@.len() == 11);
    assert("traffic_medium"@.len() == 14);
    assert("traffic"@.len() == 7);
    assert("traffic_high"@.len() == 12);
    assert("comf_n"@.len() == 6);
    assert("qualinf_n"@.len() == 9);
    assert("sic_n"@.len() == 5);
    assert("acc_n"@.len() == 5);
    assert("walk_n"@.len() == 6);
    assert("NULL"@.len() == 4);
    assert("_low"@.len() == 4);
    assert("_medium"@.len() == 7);
    assert("_high"@.len() == 5);
    assert("none"@[0] != "NULL"@[0]);
    assert("none"@[0] != "_low"@[0]);
    assert("pm2_low"@[0] != "traffic"@[0]);
    assert("pm2_low"@[0] != "_medium"@[0]);
    assert("traffic"@[0] != "_medium"@[0]);
    assert("comf_n"@[0] != "walk_n"@[0]);
    assert("sic_n"@[0] != "acc_n"@[0]);
    assert("sic_n"@[0] != "_high"@[0]);
    assert("acc_n"@[0] != "_high"@[0]);
    assert("NULL"@[0] != "_low"@[0]);
    if source == "pm2"@ {
        assert("pm2"@ + "_low"@ =~= "pm2_low"@);
        assert("pm2"@ + "_medium"@ =~= "pm2_medium"@);
        assert("pm2"@ + "_high"@ =~= "pm2_high"@);
    } else {
        assert("traffic"@ + "_low"@ =~= "traffic_low"@);
        assert("traffic"@ + "_medium"@ =~= "traffic_medium"@);
        assert("traffic"@ + "_high"@ =~= "traffic_high"@);
    }
    columns_are_served_as_themselves(filter);
}

/// Law: a map request for traffic or air quality that gives a level is served at every
/// level, for every known filter: the column its level selects is one the map query knows.
pub proof fn leveled_sources_are_served(filter: Seq<char>, source: Seq<char>, level: i32)
    requires
        is_multilevel(source),
        filter_clause(filter) is Some,
    ensures
        requested_source_spec(source, Some(level)) is Ok,
        topology_selection_spec(filter, requested_source_spec(source, Some(level))->Ok_0) is Ok,
{
    reveal_strlit("none");
    reveal_strlit("pm2_low");
    reveal_strlit("pm2_medium");
    reveal_strlit("pm2");
    reveal_strlit("pm2_high");
    reveal_strlit("traffic_low");
    reveal_strlit("traffic_medium");
    reveal_strlit("traffic");
    reveal_strlit("traffic_high");
    reveal_strlit("comf_n");
    reveal_strlit("qualinf_n");
    reveal_strlit("sic_n");
    reveal_strlit("acc_n");
    reveal_strlit("walk_n");
    reveal_strlit("_low");
    reveal_strlit("_medium");
    reveal_strlit("_high");
    assert("none"@.len() == 4);
    assert("pm2_low"@.len() == 7);
    assert("pm2_medium"@.len() == 10);
    assert("pm2"@.len() == 3);
    assert("pm2_high"@.len() == 8);
    assert("traffic_low"@.len() == 11);
    assert("traffic_medium"@.len() == 14);
    assert("traffic"@.len() == 7);
    assert("traffic_high"@.len() == 12);
    assert("comf_n"@.len() == 6);
    assert("qualinf_n"@.len() == 9);
    assert("sic_n"@.len() == 5);
    assert("acc_n"@.len() == 5);
    assert("walk_n"@.len() == 6);
    assert("_low"@.len() == 4);
    assert("_medium"@.len() == 7);
    assert("_high"@.len() == 5);
    if source == "pm2"@ {
        assert("pm2"@ + "_low"@ =~= "pm2_low"@);
        assert("pm2"@ + "_medium"@ =~= "pm2_medium"@);
        assert("pm2"@ + "_high"@ =~= "pm2_high"@);
    } else {
        assert("traffic"@ + "_low"@ =~= "traffic_low"@);
        assert("traffic"@ + "_medium"@ =~= "traffic_medium"@);
        assert("traffic"@ + "_high"@ =~= "traffic_high"@);
    }
}

} // verus!
