use vstd::prelude::*;
use crate::text::{concat2, str_eq};

verus! {

/// Name of the shortest-path routing algorithm the database offers.
pub const ROUTING_ALGO_DIJKSTRA: &'static str = "dijkstra";
/// Name of the k-shortest-paths routing algorithm (not served).
pub const _ROUTING_ALGO_KSP: &'static str = "ksp";
/// Name of the A* routing algorithm (not served).
pub const _ROUTING_ALGO_ASTAR: &'static str = "astar";

/// Data source for traffic levels.
pub const TRAFFIC_SOURCE: &'static str = "traffic";
/// Data source for air-quality levels.
pub const AIR_QUALITY_SOURCE: &'static str = "pm2";

/// The suffix that selects level `level` of a multi-level source, if the level is one.
pub open spec fn level_suffix(level: i32) -> Option<Seq<char>> {
    if level == 1 {
        Some("_low"@)
    } else if level == 2 {
        Some("_medium"@)
    } else if level == 3 {
        Some("_high"@)
    } else {
        None
    }
}

/// Whether `source` names a data source that comes in levels.
pub open spec fn is_multilevel(source: Seq<char>) -> bool {
    source == TRAFFIC_SOURCE@ || source == AIR_QUALITY_SOURCE@
}

/// The column name that holds level `level` of `source`.
pub open spec fn spec_multilevel_source(source: Seq<char>, level: i32) -> Seq<char> {
    if is_multilevel(source) && level_suffix(level) is Some {
        source + level_suffix(level).unwrap()
    } else {
        source
    }
}

/// Law: a leveled column name begins with the name of its source.
pub proof fn leveled_name_extends_source(source: Seq<char>, level: i32)
    ensures
        spec_multilevel_source(source, level).len() >= source.len(),
        spec_multilevel_source(source, level).subrange(0, source.len() as int) == source,
{
    assert(spec_multilevel_source(source, level).subrange(0, source.len() as int) =~= source);
}

/// Law: air quality and traffic at level 1, 2 and 3 are read from their `_low`, `_medium`
/// and `_high` columns; at any other level, and for any other source, the name stays.
pub proof fn levels_name_their_columns(source: Seq<char>, level: i32)
    ensures
        (source == "pm2"@ || source == "traffic"@) && level == 1 ==> spec_multilevel_source(source, level) == source + "_low"@,
        (source == "pm2"@ || source == "traffic"@) && level == 2 ==> spec_multilevel_source(source, level) == source + "_medium"@,
        (source == "pm2"@ || source == "traffic"@) && level == 3 ==> spec_multilevel_source(source, level) == source + "_high"@,
        !(1 <= level <= 3) ==> spec_multilevel_source(source, level) == source,
        source != "pm2"@ && source != "traffic"@ ==> spec_multilevel_source(source, level) == source,
{
    reveal_strlit("pm2");
    reveal_strlit("traffic");
    assert(TRAFFIC_SOURCE@ == "traffic"@);
    assert(AIR_QUALITY_SOURCE@ == "pm2"@);
}

/// The column name that holds level `level` (1 low, 2 medium, 3 high) of a
/// traffic or air-quality `source`; any other source or level leaves it as it is.
pub fn multilevel_source(source: &str, level: i32) -> (res: String)
    ensures
        res@ == spec_multilevel_source(source@, level),
{
    if str_eq(source, TRAFFIC_SOURCE) || str_eq(source, AIR_QUALITY_SOURCE) {
        if level == 1 {
            concat2(source, "_low")
        } else if level == 2 {
            concat2(source, "_medium")
        } else if level == 3 {
            concat2(source, "_high")
        } else {
            String::from_str(source)
        }
    } else {
        String::from_str(source)
    }
}

} // verus!
