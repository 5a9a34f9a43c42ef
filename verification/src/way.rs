use vstd::prelude::*;
use vstd::string::*;
use crate::infrastructure_class::{class_of_highway, InfrastructureClass};
use crate::vehicle_kind::VehicleKind;

verus! {

/// One edge of a computed route. `C` is the type of coordinates and distances,
/// `G` the type of the way's geometry; the routing logic reads neither.
#[derive(Debug, Clone)]
pub struct Way<C, G> {
    pub id: i64,
    pub source: i64,
    pub x1: C,
    pub y1: C,
    pub target: i64,
    pub x2: C,
    pub y2: C,
    pub distance: C,
    pub name: Option<String>,
    pub kind: String,
    pub vehicle_kind: VehicleKind,
    pub class: InfrastructureClass,
    pub geom: G,
    pub green: bool,
}

/// The means of transport allowed on a way of class `class`, given the requested one:
/// steps are walked; pedestrian ways are walked unless they are green; elsewhere the
/// requested means stands.
pub open spec fn allowed_vehicle_kind(
    class: InfrastructureClass,
    green: bool,
    requested: VehicleKind,
) -> VehicleKind {
    match class {
        InfrastructureClass::Pedestrian => {
            if requested != VehicleKind::Pedestrian && !green {
                VehicleKind::Pedestrian
            } else {
                requested
            }
        },
        InfrastructureClass::Steps => VehicleKind::Pedestrian,
        _ => requested,
    }
}

impl<C, G> Way<C, G> {
    /// The same way, travelled from its target to its source.
    pub open spec fn reversed(self) -> Self {
        Way {
            source: self.target,
            target: self.source,
            x1: self.x2,
            y1: self.y2,
            x2: self.x1,
            y2: self.y1,
            ..self
        }
    }

    /// A way read from the map. Its class comes from its `highway` tag, and its means of
    /// transport is the requested one as far as the class allows it.
    pub fn new(
        id: i64,
        source: i64,
        x1: C,
        y1: C,
        target: i64,
        x2: C,
        y2: C,
        distance: C,
        name: Option<String>,
        highway: &str,
        geom: G,
        green: bool,
        requested_vehicle_kind: VehicleKind,
    ) -> (res: Self)
        ensures
            res.id == id,
            res.source == source,
            res.x1 == x1,
            res.y1 == y1,
            res.target == target,
            res.x2 == x2,
            res.y2 == y2,
            res.distance == distance,
            res.name == name,
            res.kind@ == highway@,
            res.class == class_of_highway(highway@),
            res.vehicle_kind == allowed_vehicle_kind(
                class_of_highway(highway@),
                green,
                requested_vehicle_kind,
            ),
            res.geom == geom,
            res.green == green,
    {
        let class = InfrastructureClass::from(highway);
        let vehicle_kind = match class {
            InfrastructureClass::Pedestrian => {
                if requested_vehicle_kind != VehicleKind::Pedestrian && !green {
                    VehicleKind::Pedestrian
                } else {
                    requested_vehicle_kind
                }
            },
            InfrastructureClass::Steps => VehicleKind::Pedestrian,
            _ => requested_vehicle_kind,
        };
        Way {
            id,
            source,
            x1,
            y1,
            target,
            x2,
            y2,
            distance,
            name,
            kind: String::from_str(highway),
            vehicle_kind,
            class,
            geom,
            green,
        }
    }

    /// Turns the way round: source and target trade places, and so do their coordinates.
    pub fn swap_source_and_target(&mut self)
        ensures
            *final(self) == old(self).reversed(),
    {
        std::mem::swap(&mut self.source, &mut self.target);
        std::mem::swap(&mut self.x1, &mut self.x2);
        std::mem::swap(&mut self.y1, &mut self.y2);
    }
}

/// Law: a way is travelled by the requested means of transport or walked, and steps are
/// always walked.
pub proof fn ways_keep_or_walk(class: InfrastructureClass, green: bool, requested: VehicleKind)
    ensures
        allowed_vehicle_kind(class, green, requested) == requested || allowed_vehicle_kind(
            class,
            green,
            requested,
        ) == VehicleKind::Pedestrian,
        class == InfrastructureClass::Steps ==> allowed_vehicle_kind(class, green, requested)
            == VehicleKind::Pedestrian,
{
}

/// Law: on a way that is neither a pedestrian way nor steps, the requested means of
/// transport stands, whatever it is and whether or not the way is green.
pub proof fn other_ways_keep_requested_vehicle(
    class: InfrastructureClass,
    green: bool,
    requested: VehicleKind,
)
    requires
        class != InfrastructureClass::Pedestrian,
        class != InfrastructureClass::Steps,
    ensures
        allowed_vehicle_kind(class, green, requested) == requested,
{
}

/// Law: on a pedestrian way, the requested means of transport stands where the way is
/// green, and the way is walked where it is not.
pub proof fn pedestrian_ways_walked_unless_green(green: bool, requested: VehicleKind)
    ensures
        green ==> allowed_vehicle_kind(InfrastructureClass::Pedestrian, green, requested)
            == requested,
        !green ==> allowed_vehicle_kind(InfrastructureClass::Pedestrian, green, requested)
            == VehicleKind::Pedestrian,
{
}

/// Turning a way round twice gives the way back.
pub proof fn reversed_twice<C, G>(way: Way<C, G>)
    ensures
        way.reversed().reversed() == way,
{
}

} // verus!
