use vstd::prelude::*;
use crate::text::str_eq;

verus! {

/// The kind of infrastructure a way belongs to, as the router sees it.
#[derive(Debug, Clone, Copy, PartialEq, Eq, Structural)]
pub enum InfrastructureClass {
    Cycling,
    Mixed,
    Pedestrian,
    Road,
    Steps,
}

/// The class of a way whose OSM `highway` tag is `highway`; unknown tags are `Mixed`.
pub open spec fn class_of_highway(highway: Seq<char>) -> InfrastructureClass {
    if highway == "cycling"@ || highway == "cycleway"@ || highway == "cycle_crossing"@ {
        InfrastructureClass::Cycling
    } else if highway == "footway"@ || highway == "footpath"@ || highway == "pedestrian"@
        || highway == "foot_crossing"@ {
        InfrastructureClass::Pedestrian
    } else if highway == "road"@ || highway == "primary"@ || highway == "primary_link"@
        || highway == "secondary"@ || highway == "secondary_link"@ || highway == "tertiary"@
        || highway == "tertiary_link"@ {
        InfrastructureClass::Road
    } else if highway == "steps"@ {
        InfrastructureClass::Steps
    } else {
        InfrastructureClass::Mixed
    }
}

impl InfrastructureClass {
    /// The lower-case name of a class.
    pub open spec fn name(self) -> Seq<char> {
        match self {
            InfrastructureClass::Cycling => "cycling"@,
            InfrastructureClass::Mixed => "mixed"@,
            InfrastructureClass::Pedestrian => "pedestrian"@,
            InfrastructureClass::Road => "road"@,
            InfrastructureClass::Steps => "steps"@,
        }
    }

    /// Classifies a way by its OSM `highway` tag.
    pub fn from(highway: &str) -> (res: Self)
        ensures
            res == class_of_highway(highway@),
    {
        if str_eq(highway, "cycling") || str_eq(highway, "cycleway") || str_eq(
            highway,
            "cycle_crossing",
        ) {
            InfrastructureClass::Cycling
        } else if str_eq(highway, "footway") || str_eq(highway, "footpath") || str_eq(
            highway,
            "pedestrian",
        ) || str_eq(highway, "foot_crossing") {
            InfrastructureClass::Pedestrian
        } else if str_eq(highway, "road") || str_eq(highway, "primary") || str_eq(
            highway,
            "primary_link",
        ) || str_eq(highway, "secondary") || str_eq(highway, "secondary_link") || str_eq(
            highway,
            "tertiary",
        ) || str_eq(highway, "tertiary_link") {
            InfrastructureClass::Road
        } else if str_eq(highway, "steps") {
            InfrastructureClass::Steps
        } else {
            InfrastructureClass::Mixed
        }
    }

    /// The lower-case name of this class.
    pub fn as_str(&self) -> (res: &'static str)
        ensures
            res@ == self.name(),
    {
        match self {
            InfrastructureClass::Cycling => "cycling",
            InfrastructureClass::Mixed => "mixed",
            InfrastructureClass::Pedestrian => "pedestrian",
            InfrastructureClass::Road => "road",
            InfrastructureClass::Steps => "steps",
        }
    }
}

/// Classifying a class's own name gives the class back.
pub proof fn class_name_round_trip(class: InfrastructureClass)
    ensures
        class_of_highway(class.name()) == class,
{
    reveal_strlit("cycling");
    reveal_strlit("cycleway");
    reveal_strlit("cycle_crossing");
    reveal_strlit("footway");
    reveal_strlit("footpath");
    reveal_strlit("pedestrian");
    reveal_strlit("foot_crossing");
    reveal_strlit("road");
    reveal_strlit("primary");
    reveal_strlit("primary_link");
    reveal_strlit("secondary");
    reveal_strlit("secondary_link");
    reveal_strlit("tertiary");
    reveal_strlit("tertiary_link");
    reveal_strlit("steps");
    reveal_strlit("mixed");
    assert("cycling"@.len() == 7);
    assert("cycleway"@.len() == 8);
    assert("cycle_crossing"@.len() == 14);
    assert("footway"@.len() == 7);
    assert("footpath"@.len() == 8);
    assert("pedestrian"@.len() == 10);
    assert("foot_crossing"@.len() == 13);
    assert("road"@.len() == 4);
    assert("primary"@.len() == 7);
    assert("primary_link"@.len() == 12);
    assert("secondary"@.len() == 9);
    assert("secondary_link"@.len() == 14);
    assert("tertiary"@.len() == 8);
    assert("tertiary_link"@.len() == 13);
    assert("steps"@.len() == 5);
    assert("mixed"@.len() == 5);
    assert("cycling"@[0] != "footway"@[0]);
    assert("cycling"@[0] != "primary"@[0]);
    assert("mixed"@[0] != "steps"@[0]);
}

/// Law: the OSM tags for cycle ways (cycling, cycleway, cycle_crossing) are classed as cycling.
pub proof fn cycling_tags_are_cycling()
    ensures
        class_of_highway("cycling"@) == InfrastructureClass::Cycling,
        class_of_highway("cycleway"@) == InfrastructureClass::Cycling,
        class_of_highway("cycle_crossing"@) == InfrastructureClass::Cycling,
{
    reveal_strlit("cycling");
    reveal_strlit("cycleway");
    reveal_strlit("cycle_crossing");
    reveal_strlit("footway");
    reveal_strlit("footpath");
    reveal_strlit("pedestrian");
    reveal_strlit("foot_crossing");
    reveal_strlit("road");
    reveal_strlit("primary");
    reveal_strlit("primary_link");
    reveal_strlit("secondary");
    reveal_strlit("secondary_link");
    reveal_strlit("tertiary");
    reveal_strlit("tertiary_link");
    reveal_strlit("steps");
    assert("cycling"@.len() == 7);
    assert("cycleway"@.len() == 8);
    assert("cycle_crossing"@.len() == 14);
    assert("footway"@.len() == 7);
    assert("footpath"@.len() == 8);
    assert("pedestrian"@.len() == 10);
    assert("foot_crossing"@.len() == 13);
    assert("road"@.len() == 4);
    assert("primary"@.len() == 7);
    assert("primary_link"@.len() == 12);
    assert("secondary"@.len() == 9);
    assert("secondary_link"@.len() == 14);
    assert("tertiary"@.len() == 8);
    assert("tertiary_link"@.len() == 13);
    assert("steps"@.len() == 5);
    assert("cycling"@[0] != "footway"@[0]);
    assert("cycling"@[0] != "primary"@[0]);
    assert("cycleway"@[0] != "footpath"@[0]);
    assert("cycleway"@[0] != "tertiary"@[0]);
    assert("cycle_crossing"@[0] != "secondary_link"@[0]);
    assert("footway"@[0] != "primary"@[0]);
    assert("footpath"@[0] != "tertiary"@[0]);
    assert("foot_crossing"@[0] != "tertiary_link"@[0]);
}

/// Law: the OSM tags for foot ways (footway, footpath, pedestrian, foot_crossing) are classed as pedestrian.
pub proof fn foot_tags_are_pedestrian()
    ensures
        class_of_highway("footway"@) == InfrastructureClass::Pedestrian,
        class_of_highway("footpath"@) == InfrastructureClass::Pedestrian,
        class_of_highway("pedestrian"@) == InfrastructureClass::Pedestrian,
        class_of_highway("foot_crossing"@) == InfrastructureClass::Pedestrian,
{
    reveal_strlit("cycling");
    reveal_strlit("cycleway");
    reveal_strlit("cycle_crossing");
    reveal_strlit("footway");
    reveal_strlit("footpath");
    reveal_strlit("pedestrian");
    reveal_strlit("foot_crossing");
    reveal_strlit("road");
    reveal_strlit("primary");
    reveal_strlit("primary_link");
    reveal_strlit("secondary");
    reveal_strlit("secondary_link");
    reveal_strlit("tertiary");
    reveal_strlit("tertiary_link");
    reveal_strlit("steps");
    assert("cycling"@.len() == 7);
    assert("cycleway"@.len() == 8);
    assert("cycle_crossing"@.len() == 14);
    assert("footway"@.len() == 7);
    assert("footpath"@.len() == 8);
    assert("pedestrian"@.len() == 10);
    assert("foot_crossing"@.len() == 13);
    assert("road"@.len() == 4);
    assert("primary"@.len() == 7);
    assert("primary_link"@.len() == 12);
    assert("secondary"@.len() == 9);
    assert("secondary_link"@.len() == 14);
    assert("tertiary"@.len() == 8);
    assert("tertiary_link"@.len() == 13);
    assert("steps"@.len() == 5);
    assert("cycling"@[0] != "footway"@[0]);
    assert("cycling"@[0] != "primary"@[0]);
    assert("cycleway"@[0] != "footpath"@[0]);
    assert("cycleway"@[0] != "tertiary"@[0]);
    assert("cycle_crossing"@[0] != "secondary_link"@[0]);
    assert("footway"@[0] != "primary"@[0]);
    assert("footpath"@[0] != "tertiary"@[0]);
    assert("foot_crossing"@[0] != "tertiary_link"@[0]);
}

/// Law: the OSM road tags (road, primary, primary_link, secondary, secondary_link, tertiary, tertiary_link) are classed as roads.
pub proof fn road_tags_are_roads()
    ensures
        class_of_highway("road"@) == InfrastructureClass::Road,
        class_of_highway("primary"@) == InfrastructureClass::Road,
        class_of_highway("primary_link"@) == InfrastructureClass::Road,
        class_of_highway("secondary"@) == InfrastructureClass::Road,
        class_of_highway("secondary_link"@) == InfrastructureClass::Road,
        class_of_highway("tertiary"@) == InfrastructureClass::Road,
        class_of_highway("tertiary_link"@) == InfrastructureClass::Road,
{
    reveal_strlit("cycling");
    reveal_strlit("cycleway");
    reveal_strlit("cycle_crossing");
    reveal_strlit("footway");
    reveal_strlit("footpath");
    reveal_strlit("pedestrian");
    reveal_strlit("foot_crossing");
    reveal_strlit("road");
    reveal_strlit("primary");
    reveal_strlit("primary_link");
    reveal_strlit("secondary");
    reveal_strlit("secondary_link");
    reveal_strlit("tertiary");
    reveal_strlit("tertiary_link");
    reveal_strlit("steps");
    assert("cycling"@.len() == 7);
    assert("cycleway"@.len() == 8);
    assert("cycle_crossing"@.len() == 14);
    assert("footway"@.len() == 7);
    assert("footpath"@.len() == 8);
    assert("pedestrian"@.len() == 10);
    assert("foot_crossing"@.len() == 13);
    assert("road"@.len() == 4);
    assert("primary"@.len() == 7);
    assert("primary_link"@.len() == 12);
    assert("secondary"@.len() == 9);
    assert("secondary_link"@.len() == 14);
    assert("tertiary"@.len() == 8);
    assert("tertiary_link"@.len() == 13);
    assert("steps"@.len() == 5);
    assert("cycling"@[0] != "footway"@[0]);
    assert("cycling"@[0] != "primary"@[0]);
    assert("cycleway"@[0] != "footpath"@[0]);
    assert("cycleway"@[0] != "tertiary"@[0]);
    assert("cycle_crossing"@[0] != "secondary_link"@[0]);
    assert("footway"@[0] != "primary"@[0]);
    assert("footpath"@[0] != "tertiary"@[0]);
    assert("foot_crossing"@[0] != "tertiary_link"@[0]);
}

/// Law: the OSM tag steps is classed as steps.
pub proof fn steps_tag_is_steps()
    ensures
        class_of_highway("steps"@) == InfrastructureClass::Steps,
{
    reveal_strlit("cycling");
    reveal_strlit("cycleway");
    reveal_strlit("cycle_crossing");
    reveal_strlit("footway");
    reveal_strlit("footpath");
    reveal_strlit("pedestrian");
    reveal_strlit("foot_crossing");
    reveal_strlit("road");
    reveal_strlit("primary");
    reveal_strlit("primary_link");
    reveal_strlit("secondary");
    reveal_strlit("secondary_link");
    reveal_strlit("tertiary");
    reveal_strlit("tertiary_link");
    reveal_strlit("steps");
    assert("cycling"@.len() == 7);
    assert("cycleway"@.len() == 8);
    assert("cycle_crossing"@.len() == 14);
    assert("footway"@.len() == 7);
    assert("footpath"@.len() == 8);
    assert("pedestrian"@.len() == 10);
    assert("foot_crossing"@.len() == 13);
    assert("road"@.len() == 4);
    assert("primary"@.len() == 7);
    assert("primary_link"@.len() == 12);
    assert("secondary"@.len() == 9);
    assert("secondary_link"@.len() == 14);
    assert("tertiary"@.len() == 8);
    assert("tertiary_link"@.len() == 13);
    assert("steps"@.len() == 5);
    assert("cycling"@[0] != "footway"@[0]);
    assert("cycling"@[0] != "primary"@[0]);
    assert("cycleway"@[0] != "footpath"@[0]);
    assert("cycleway"@[0] != "tertiary"@[0]);
    assert("cycle_crossing"@[0] != "secondary_link"@[0]);
    assert("footway"@[0] != "primary"@[0]);
    assert("footpath"@[0] != "tertiary"@[0]);
    assert("foot_crossing"@[0] != "tertiary_link"@[0]);
}

/// Law: the OSM tags for shared ways (living_street, path, residential, service, track, unclassified) are classed as mixed.
pub proof fn shared_tags_are_mixed()
    ensures
        class_of_highway("living_street"@) == InfrastructureClass::Mixed,
        class_of_highway("path"@) == InfrastructureClass::Mixed,
        class_of_highway("residential"@) == InfrastructureClass::Mixed,
        class_of_highway("service"@) == InfrastructureClass::Mixed,
        class_of_highway("track"@) == InfrastructureClass::Mixed,
        class_of_highway("unclassified"@) == InfrastructureClass::Mixed,
{
    reveal_strlit("cycling");
    reveal_strlit("cycleway");
    reveal_strlit("cycle_crossing");
    reveal_strlit("footway");
    reveal_strlit("footpath");
    reveal_strlit("pedestrian");
    reveal_strlit("foot_crossing");
    reveal_strlit("road");
    reveal_strlit("primary");
    reveal_strlit("primary_link");
    reveal_strlit("secondary");
    reveal_strlit("secondary_link");
    reveal_strlit("tertiary");
    reveal_strlit("tertiary_link");
    reveal_strlit("steps");
    reveal_strlit("living_street");
    reveal_strlit("path");
    reveal_strlit("residential");
    reveal_strlit("service");
    reveal_strlit("track");
    reveal_strlit("unclassified");
    assert("cycling"@.len() == 7);
    assert("cycleway"@.len() == 8);
    assert("cycle_crossing"@.len() == 14);
    assert("footway"@.len() == 7);
    assert("footpath"@.len() == 8);
    assert("pedestrian"@.len() == 10);
    assert("foot_crossing"@.len() == 13);
    assert("road"@.len() == 4);
    assert("primary"@.len() == 7);
    assert("primary_link"@.len() == 12);
    assert("secondary"@.len() == 9);
    assert("secondary_link"@.len() == 14);
    assert("tertiary"@.len() == 8);
    assert("tertiary_link"@.len() == 13);
    assert("steps"@.len() == 5);
    assert("living_street"@.len() == 13);
    assert("path"@.len() == 4);
    assert("residential"@.len() == 11);
    assert("service"@.len() == 7);
    assert("track"@.len() == 5);
    assert("unclassified"@.len() == 12);
    assert("cycling"@[0] != "footway"@[0]);
    assert("cycling"@[0] != "primary"@[0]);
    assert("cycling"@[0] != "service"@[0]);
    assert("cycleway"@[0] != "footpath"@[0]);
    assert("cycleway"@[0] != "tertiary"@[0]);
    assert("cycle_crossing"@[0] != "secondary_link"@[0]);
    assert("footway"@[0] != "primary"@[0]);
    assert("footway"@[0] != "service"@[0]);
    assert("footpath"@[0] != "tertiary"@[0]);
    assert("foot_crossing"@[0] != "tertiary_link"@[0]);
    assert("foot_crossing"@[0] != "living_street"@[0]);
    assert("road"@[0] != "path"@[0]);
    assert("primary"@[0] != "service"@[0]);
    assert("primary_link"@[0] != "unclassified"@[0]);
    assert("tertiary_link"@[0] != "living_street"@[0]);
    assert("steps"@[0] != "track"@[0]);
}

} // verus!
