use vstd::prelude::*;
use vstd::multiset::Multiset;
use vstd::string::*;
use crate::text::{decimal_string, integer_decimal};
use crate::vehicle_kind::VehicleKind;
use crate::way::Way;

verus! {

/// A vertex of the routing graph. `C` is the type of its coordinates.
#[derive(Debug, Clone)]
pub struct Point<C> {
    pub id: i64,
    pub name: Option<String>,
    pub highway: Option<String>,
    pub green: Option<bool>,
    pub lat: C,
    pub lon: C,
}

/// Opening of the message for a vertex that no remaining way touches.
pub const MISSING_HOP_HEAD: &'static str = "Unable to find Way ";

/// Closing of the message for a vertex that no remaining way touches.
pub const MISSING_HOP_TAIL: &'static str = " in Route";

/// The message for vertex `hop`, which no remaining way of a route touches.
pub open spec fn missing_hop_message(hop: i64) -> Seq<char> {
    MISSING_HOP_HEAD@ + integer_decimal(hop as int) + MISSING_HOP_TAIL@
}

/// A route from `start` to `goal`: the ways in travel order, and the two short
/// connections (`real_start`, `real_goal`) from the requested places to the graph.
#[derive(Debug, Clone)]
pub struct Route<C, G> {
    pub start: Point<C>,
    pub goal: Point<C>,
    pub real_start: G,
    pub real_goal: G,
    pub ways: Vec<Way<C, G>>,
}

/// Whether `way` starts or ends at vertex `hop`.
pub open spec fn touches<C, G>(way: Way<C, G>, hop: i64) -> bool {
    way.source == hop || way.target == hop
}

/// Whether some way of `ways` starts or ends at vertex `hop`.
pub open spec fn reaches<C, G>(ways: Seq<Way<C, G>>, hop: i64) -> bool {
    exists|i: int| 0 <= i < ways.len() && touches(#[trigger] ways[i], hop)
}

/// Whether `i` is the position of the first way of `ways` that starts or ends at `hop`.
pub open spec fn is_first_touch<C, G>(ways: Seq<Way<C, G>>, hop: i64, i: int) -> bool {
    &&& 0 <= i < ways.len()
    &&& touches(ways[i], hop)
    &&& forall|j: int| 0 <= j < i ==> !touches(#[trigger] ways[j], hop)
}

/// The position of the first way of `ways` that starts or ends at `hop`.
pub open spec fn first_touch<C, G>(ways: Seq<Way<C, G>>, hop: i64) -> int {
    choose|i: int| is_first_touch(ways, hop, i)
}

/// `way`, turned round if needed so that it is left from `hop`.
pub open spec fn leaving<C, G>(way: Way<C, G>, hop: i64) -> Way<C, G> {
    if way.target == hop {
        way.reversed()
    } else {
        way
    }
}

/// Where some way touches `hop`, `first_touch` is the first of them.
pub proof fn lemma_first_touch<C, G>(ways: Seq<Way<C, G>>, hop: i64)
    requires
        reaches(ways, hop),
    ensures
        is_first_touch(ways, hop, first_touch(ways, hop)),
{
    let i = choose|i: int| 0 <= i < ways.len() && touches(#[trigger] ways[i], hop);
    lemma_first_touch_at_or_before(ways, hop, i);
}

proof fn lemma_first_touch_at_or_before<C, G>(ways: Seq<Way<C, G>>, hop: i64, i: int)
    requires
        0 <= i < ways.len(),
        touches(ways[i], hop),
    ensures
        exists|k: int| is_first_touch(ways, hop, k),
    decreases i,
{
    if forall|j: int| 0 <= j < i ==> !touches(#[trigger] ways[j], hop) {
        assert(is_first_touch(ways, hop, i));
    } else {
        let j = choose|j: int| 0 <= j < i && touches(#[trigger] ways[j], hop);
        lemma_first_touch_at_or_before(ways, hop, j);
    }
}

/// Following the ways from vertex `hop` towards `destination`: while the destination is
/// not reached and some remaining way touches the current vertex, the first such way is
/// taken out of `ways`, turned to leave the current vertex, and appended to `walked`.
/// The result is the walked ways and the ways left over.
pub open spec fn walk<C, G>(
    hop: i64,
    destination: i64,
    ways: Seq<Way<C, G>>,
    walked: Seq<Way<C, G>>,
) -> (Seq<Way<C, G>>, Seq<Way<C, G>>)
    decreases ways.len(),
{
    if hop == destination || !reaches(ways, hop) {
        (walked, ways)
    } else {
        let i = first_touch(ways, hop);
        proof {
            lemma_first_touch(ways, hop);
        }
        let way = leaving(ways[i], hop);
        walk(way.target, destination, ways.remove(i), walked.push(way))
    }
}

/// The ways of a route from `start`, in route order: `sort_ways`'s result on `ways`.
pub open spec fn ordered_ways<C, G>(start: i64, destination: i64, ways: Seq<Way<C, G>>) -> Seq<
    Way<C, G>,
> {
    walk(start, destination, ways, Seq::empty()).0
}

/// Whether `ways`, taken in order, form a path that starts at vertex `start`: each way
/// begins where the one before it ends.
pub open spec fn is_path_from<C, G>(ways: Seq<Way<C, G>>, start: i64) -> bool {
    &&& ways.len() > 0 ==> ways[0].source == start
    &&& forall|i: int, j: int|
        #![trigger ways[i], ways[j]]
        0 <= i && j == i + 1 && j < ways.len() ==> ways[i].target == ways[j].source
}

/// The vertex where a path from `start` made of `ways` ends.
pub open spec fn path_end<C, G>(ways: Seq<Way<C, G>>, start: i64) -> i64 {
    if ways.len() == 0 {
        start
    } else {
        ways.last().target
    }
}

/// A way without its direction: the way and its reversal.
pub open spec fn undirected<C, G>(way: Way<C, G>) -> Set<Way<C, G>> {
    set![way, way.reversed()]
}

/// The ways of `ways` without their directions, counted with multiplicity.
pub open spec fn undirected_ways<C, G>(ways: Seq<Way<C, G>>) -> Multiset<Set<Way<C, G>>> {
    ways.map_values(|way: Way<C, G>| undirected(way)).to_multiset()
}

proof fn lemma_undirected_leaving<C, G>(way: Way<C, G>, hop: i64)
    ensures
        undirected(leaving(way, hop)) == undirected(way),
{
    assert(way.reversed().reversed() == way);
    assert(undirected(way.reversed()) =~= undirected(way));
}

proof fn lemma_undirected_step<C, G>(ways: Seq<Way<C, G>>, walked: Seq<Way<C, G>>, i: int, hop: i64)
    requires
        0 <= i < ways.len(),
    ensures
        undirected_ways(walked.push(leaving(ways[i], hop))).add(undirected_ways(ways.remove(i)))
            == undirected_ways(walked).add(undirected_ways(ways)),
{
    broadcast use vstd::multiset::group_multiset_axioms;

    let f = |way: Way<C, G>| undirected(way);
    let way = leaving(ways[i], hop);
    lemma_undirected_leaving(ways[i], hop);
    assert(walked.push(way).map_values(f) =~= walked.map_values(f).push(f(way)));
    assert(ways.remove(i).map_values(f) =~= ways.map_values(f).remove(i));
    vstd::seq_lib::to_multiset_build(walked.map_values(f), f(way));
    vstd::seq_lib::to_multiset_remove(ways.map_values(f), i);
    vstd::seq_lib::to_multiset_contains(ways.map_values(f), f(ways[i]));
    assert(ways.map_values(f).contains(f(ways[i])));
    assert(undirected_ways(walked.push(way)).add(undirected_ways(ways.remove(i))) =~= undirected_ways(
        walked,
    ).add(undirected_ways(ways)));
}

proof fn lemma_path_push<C, G>(walked: Seq<Way<C, G>>, start: i64, way: Way<C, G>)
    requires
        is_path_from(walked, start),
        path_end(walked, start) == way.source,
    ensures
        is_path_from(walked.push(way), start),
        path_end(walked.push(way), start) == way.target,
{
    let walked2 = walked.push(way);
    assert forall|k: int, l: int|
        #![trigger walked2[k], walked2[l]]
        0 <= k && l == k + 1 && l < walked2.len() implies walked2[k].target == walked2[l].source by {
        if l < walked.len() {
            assert(walked2[k] == walked[k]);
            assert(walked2[l] == walked[l]);
        }
    }
}

proof fn lemma_walk_path<C, G>(
    start: i64,
    hop: i64,
    destination: i64,
    ways: Seq<Way<C, G>>,
    walked: Seq<Way<C, G>>,
)
    requires
        is_path_from(walked, start),
        path_end(walked, start) == hop,
    ensures
        is_path_from(walk(hop, destination, ways, walked).0, start),
        path_end(walk(hop, destination, ways, walked).0, start) == destination || !reaches(
            walk(hop, destination, ways, walked).1,
            path_end(walk(hop, destination, ways, walked).0, start),
        ),
    decreases ways.len(),
{
    if hop == destination || !reaches(ways, hop) {
    } else {
        lemma_first_touch(ways, hop);
        let i = first_touch(ways, hop);
        let way = leaving(ways[i], hop);
        lemma_path_push(walked, start, way);
        lemma_walk_path(start, way.target, destination, ways.remove(i), walked.push(way));
    }
}

proof fn lemma_walk_keeps<C, G>(
    hop: i64,
    destination: i64,
    ways: Seq<Way<C, G>>,
    walked: Seq<Way<C, G>>,
)
    ensures
        undirected_ways(walk(hop, destination, ways, walked).0).add(
            undirected_ways(walk(hop, destination, ways, walked).1),
        ) == undirected_ways(walked).add(undirected_ways(ways)),
    decreases ways.len(),
{
    if hop == destination || !reaches(ways, hop) {
    } else {
        lemma_first_touch(ways, hop);
        let i = first_touch(ways, hop);
        let way = leaving(ways[i], hop);
        lemma_undirected_step(ways, walked, i, hop);
        lemma_walk_keeps(way.target, destination, ways.remove(i), walked.push(way));
    }
}

/// Law: the ways of a route, in the order they are given, form a path that starts at
/// the route's start vertex; every way begins where the previous one ends.
pub proof fn ordered_ways_form_a_path<C, G>(start: i64, destination: i64, ways: Seq<Way<C, G>>)
    ensures
        is_path_from(ordered_ways(start, destination, ways), start),
{
    lemma_walk_path(start, start, destination, ways, Seq::empty());
}

/// Law: ordering stops only at the destination or where no remaining way continues the
/// path.
pub proof fn ordering_stops_at_destination_or_dead_end<C, G>(
    start: i64,
    destination: i64,
    ways: Seq<Way<C, G>>,
)
    ensures
        ({
            let (taken, left) = walk(start, destination, ways, Seq::empty());
            path_end(taken, start) == destination || !reaches(left, path_end(taken, start))
        }),
{
    lemma_walk_path(start, start, destination, ways, Seq::empty());
}

/// Law: ordering loses and invents no way: the ways taken and the ways left over are,
/// up to direction, the given ways.
pub proof fn ordering_keeps_every_way<C, G>(start: i64, destination: i64, ways: Seq<Way<C, G>>)
    ensures
        ({
            let (taken, left) = walk(start, destination, ways, Seq::empty());
            undirected_ways(taken).add(undirected_ways(left)) == undirected_ways(ways)
        }),
{
    broadcast use vstd::multiset::group_multiset_axioms;

    lemma_walk_keeps(start, destination, ways, Seq::empty());
    let f = |way: Way<C, G>| undirected(way);
    let none = Seq::<Way<C, G>>::empty();
    assert(none.map_values(f) =~= Seq::empty());
    vstd::seq_lib::to_multiset_len(none.map_values(f));
    vstd::multiset::lemma_multiset_empty_len(undirected_ways(none));
    assert(undirected_ways(Seq::<Way<C, G>>::empty()).add(undirected_ways(ways)) =~= undirected_ways(
        ways,
    ));
}

/// Whether no way of `ways` leads from a vertex back to itself.
pub open spec fn has_no_loops<C, G>(ways: Seq<Way<C, G>>) -> bool {
    forall|i: int| 0 <= i < ways.len() ==> (#[trigger] ways[i]).source != ways[i].target
}

/// Whether a path from `start` made of `ways` meets `destination` only at its end, if at all.
pub open spec fn meets_destination_only_at_end<C, G>(
    ways: Seq<Way<C, G>>,
    start: i64,
    destination: i64,
) -> bool {
    &&& ways.len() > 0 ==> start != destination
    &&& forall|i: int| 0 <= i < ways.len() - 1 ==> (#[trigger] ways[i]).target != destination
}

proof fn lemma_walk_shape<C, G>(
    start: i64,
    hop: i64,
    destination: i64,
    ways: Seq<Way<C, G>>,
    walked: Seq<Way<C, G>>,
)
    requires
        path_end(walked, start) == hop,
        meets_destination_only_at_end(walked, start, destination),
        has_no_loops(walked),
        has_no_loops(ways),
    ensures
        meets_destination_only_at_end(walk(hop, destination, ways, walked).0, start, destination),
        has_no_loops(walk(hop, destination, ways, walked).0),
    decreases ways.len(),
{
    if hop == destination || !reaches(ways, hop) {
    } else {
        lemma_first_touch(ways, hop);
        let i = first_touch(ways, hop);
        let way = leaving(ways[i], hop);
        let walked2 = walked.push(way);
        assert(ways[i].source != ways[i].target);
        assert(way.source != way.target);
        assert(has_no_loops(walked2)) by {
            assert forall|k: int| 0 <= k < walked2.len() implies (#[trigger] walked2[k]).source
                != walked2[k].target by {
                if k < walked.len() {
                    assert(walked2[k] == walked[k]);
                }
            }
        }
        assert(meets_destination_only_at_end(walked2, start, destination)) by {
            assert forall|k: int| 0 <= k < walked2.len() - 1 implies (#[trigger] walked2[k]).target
                != destination by {
                assert(walked2[k] == walked[k]);
                if k < walked.len() - 1 {
                } else {
                    assert(walked[k] == walked.last());
                }
            }
        }
        assert(has_no_loops(ways.remove(i))) by {
            assert forall|k: int| 0 <= k < ways.remove(i).len() implies (#[trigger] ways.remove(
                i,
            )[k]).source != ways.remove(i)[k].target by {
                if k < i {
                    assert(ways.remove(i)[k] == ways[k]);
                } else {
                    assert(ways.remove(i)[k] == ways[k + 1]);
                }
            }
        }
        lemma_walk_shape(start, way.target, destination, ways.remove(i), walked2);
    }
}

proof fn lemma_walk_of_path<C, G>(
    hop: i64,
    destination: i64,
    path: Seq<Way<C, G>>,
    walked: Seq<Way<C, G>>,
)
    requires
        is_path_from(path, hop),
        meets_destination_only_at_end(path, hop, destination),
        has_no_loops(path),
    ensures
        walk(hop, destination, path, walked) == (walked + path, Seq::<Way<C, G>>::empty()),
    decreases path.len(),
{
    if path.len() == 0 {
        assert(!reaches(path, hop));
        assert(walked + path =~= walked);
        assert(path =~= Seq::<Way<C, G>>::empty());
    } else {
        assert(hop != destination);
        assert(touches(path[0], hop));
        assert(is_first_touch(path, hop, 0));
        lemma_first_touch(path, hop);
        assert(first_touch(path, hop) == 0);
        let way = path[0];
        assert(leaving(way, hop) == way);
        let rest = path.remove(0);
        assert(rest =~= path.drop_first());
        assert(is_path_from(rest, way.target)) by {
            assert forall|k: int, l: int|
                #![trigger rest[k], rest[l]]
                0 <= k && l == k + 1 && l < rest.len() implies rest[k].target == rest[l].source by {
                assert(rest[k] == path[k + 1]);
                assert(rest[l] == path[l + 1]);
            }
            if rest.len() > 0 {
                assert(rest[0] == path[1]);
                assert(path[0].target == path[1].source);
            }
        }
        assert(meets_destination_only_at_end(rest, way.target, destination)) by {
            if rest.len() > 0 {
                assert(path[0].target != destination);
            }
            assert forall|k: int| 0 <= k < rest.len() - 1 implies (#[trigger] rest[k]).target
                != destination by {
                assert(rest[k] == path[k + 1]);
            }
        }
        assert(has_no_loops(rest)) by {
            assert forall|k: int| 0 <= k < rest.len() implies (#[trigger] rest[k]).source
                != rest[k].target by {
                assert(rest[k] == path[k + 1]);
            }
        }
        lemma_walk_of_path(way.target, destination, rest, walked.push(way));
        assert(walked.push(way) + rest =~= walked + path);
    }
}

/// Law: ordering is idempotent on ways without loops: ordering the ordered ways again
/// gives them back unchanged, with nothing left over.
pub proof fn ordering_is_idempotent<C, G>(start: i64, destination: i64, ways: Seq<Way<C, G>>)
    requires
        has_no_loops(ways),
    ensures
        walk(start, destination, ordered_ways(start, destination, ways), Seq::empty()) == (
            ordered_ways(start, destination, ways),
            Seq::<Way<C, G>>::empty(),
        ),
{
    let none = Seq::<Way<C, G>>::empty();
    lemma_walk_path(start, start, destination, ways, none);
    lemma_walk_shape(start, start, destination, ways, none);
    let ordered = ordered_ways(start, destination, ways);
    lemma_walk_of_path(start, destination, ordered, none);
    assert(none + ordered =~= ordered);
}

impl<C, G> Route<C, G> {
    /// A route from `start` to `goal` whose ways are `ways` put in travel order
    /// (see `sort_ways`); ways that the walk does not reach are dropped.
    pub fn new(start: Point<C>, goal: Point<C>, real_start: G, real_goal: G, ways: Vec<Way<C, G>>) -> (res: Self)
        ensures
            res.start == start,
            res.goal == goal,
            res.real_start == real_start,
            res.real_goal == real_goal,
            res.ways@ == ordered_ways(start.id, goal.id, ways@),
    {
        let mut ways = ways;
        let sorted_ways = Self::sort_ways(start.id, goal.id, &mut ways);
        Route { start, goal, real_start, real_goal, ways: sorted_ways }
    }

    fn position_of_hop(ways: &Vec<Way<C, G>>, hop_id: i64) -> (res: Option<usize>)
        ensures
            match res {
                Some(i) => is_first_touch(ways@, hop_id, i as int),
                None => !reaches(ways@, hop_id),
            },
    {
        let mut i: usize = 0;
        while i < ways.len()
            invariant
                i <= ways.len(),
                forall|j: int| 0 <= j < i ==> !touches(#[trigger] ways@[j], hop_id),
            decreases ways.len() - i,
        {
            if ways[i].source == hop_id || ways[i].target == hop_id {
                return Some(i);
            }
            i = i + 1;
        }
        None
    }

    /// Moves the first way of `from` that starts or ends at `hop_id` to the end of `to`,
    /// turned so that it leaves `hop_id`, and returns the vertex it leads to. Where no way
    /// of `from` touches `hop_id`, nothing changes and the error message names `hop_id`.
    pub fn add_hop(hop_id: i64, from: &mut Vec<Way<C, G>>, to: &mut Vec<Way<C, G>>) -> (res: Result<i64, String>)
        ensures
            reaches(old(from)@, hop_id) ==> ({
                let i = first_touch(old(from)@, hop_id);
                let way = leaving(old(from)@[i], hop_id);
                &&& res == Ok::<i64, String>(way.target)
                &&& final(from)@ == old(from)@.remove(i)
                &&& final(to)@ == old(to)@.push(way)
            }),
            !reaches(old(from)@, hop_id) ==> ({
                &&& res is Err
                &&& res->Err_0@ == missing_hop_message(hop_id)
                &&& final(from)@ == old(from)@
                &&& final(to)@ == old(to)@
            }),
    {
        match Self::position_of_hop(from, hop_id) {
            Some(index) => {
                proof {
                    lemma_first_touch(from@, hop_id);
                }
                let mut way = from.remove(index);
                if way.target == hop_id {
                    way.swap_source_and_target();
                }
                let next_hop = way.target;
                to.push(way);
                Ok(next_hop)
            },
            None => {
                let mut message = String::from_str(MISSING_HOP_HEAD);
                let id = decimal_string(hop_id);
                message.append(id.as_str());
                message.append(MISSING_HOP_TAIL);
                Err(message)
            },
        }
    }

    /// Puts the ways of a route in travel order, starting at `source_id` and following
    /// `add_hop` until `destination_id` is reached or no way continues; the ways taken are
    /// removed from `ways`, and those never reached stay there.
    pub fn sort_ways(source_id: i64, destination_id: i64, ways: &mut Vec<Way<C, G>>) -> (res: Vec<Way<C, G>>)
        ensures
            (res@, final(ways)@) == walk(source_id, destination_id, old(ways)@, Seq::empty()),
    {
        if ways.len() == 0 {
            return Vec::new();
        }
        let mut sorted_ways: Vec<Way<C, G>> = Vec::new();
        let mut next_hop_id = source_id;
        while next_hop_id != destination_id
            invariant
                walk(next_hop_id, destination_id, ways@, sorted_ways@) == walk(
                    source_id,
                    destination_id,
                    old(ways)@,
                    Seq::empty(),
                ),
            ensures
                walk(next_hop_id, destination_id, ways@, sorted_ways@) == (sorted_ways@, ways@),
            decreases ways@.len(),
        {
            let ghost before = ways@;
            match Self::add_hop(next_hop_id, ways, &mut sorted_ways) {
                Ok(next) => {
                    proof {
                        lemma_first_touch(before, next_hop_id);
                    }
                    next_hop_id = next;
                },
                Err(_e) => {
                    break ;
                },
            }
        }
        sorted_ways
    }
}

/// The routes answered for one request, with the means of transport that was asked
/// for and whether the answer fell back to walking.
#[derive(Debug, Clone)]
pub struct RouteContainer<C, G> {
    pub routes: Vec<Route<C, G>>,
    pub requested_vehicle_kind: VehicleKind,
    pub is_fallback: bool,
}

impl<C, G> RouteContainer<C, G> {
    /// Bundles `routes` with the requested means of transport and the fallback flag.
    pub fn new(routes: Vec<Route<C, G>>, requested_vehicle_kind: VehicleKind, is_fallback: bool) -> (res: Self)
        ensures
            res.routes@ == routes@,
            res.requested_vehicle_kind == requested_vehicle_kind,
            res.is_fallback == is_fallback,
    {
        RouteContainer { routes, requested_vehicle_kind, is_fallback }
    }
}

} // verus!
