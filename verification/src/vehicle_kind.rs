use vstd::prelude::*;
use crate::text::str_eq;

verus! {

/// The means of transport a route is planned for; `Pedestrian` is walking.
#[derive(Debug, Clone, Copy, PartialEq, Eq, Structural)]
pub enum VehicleKind {
    Pedestrian,
    Bike,
    Ebike,
    Scooter,
}

/// Whether `s` is one of the four names that `VehicleKind::from` accepts.
pub open spec fn is_vehicle_kind_name(s: Seq<char>) -> bool {
    s == "bike"@ || s == "ebike"@ || s == "scooter"@ || s == "none"@
}

/// The kind that an accepted name stands for.
pub open spec fn vehicle_kind_of_name(s: Seq<char>) -> VehicleKind {
    if s == "bike"@ {
        VehicleKind::Bike
    } else if s == "ebike"@ {
        VehicleKind::Ebike
    } else if s == "scooter"@ {
        VehicleKind::Scooter
    } else {
        VehicleKind::Pedestrian
    }
}

impl VehicleKind {
    /// The name under which this kind is shown and looked up.
    pub open spec fn display_name(self) -> Seq<char> {
        match self {
            VehicleKind::Pedestrian => "pedestrian"@,
            VehicleKind::Bike => "bike"@,
            VehicleKind::Ebike => "ebike"@,
            VehicleKind::Scooter => "scooter"@,
        }
    }

    /// The name under which this kind is shown ("pedestrian" for walking).
    pub fn as_str(&self) -> (res: &'static str)
        ensures
            res@ == self.display_name(),
    {
        match self {
            VehicleKind::Pedestrian => "pedestrian",
            VehicleKind::Bike => "bike",
            VehicleKind::Ebike => "ebike",
            VehicleKind::Scooter => "scooter",
        }
    }

    /// The kind named `s`, one of "bike", "ebike", "scooter" and "none".
    pub fn from(s: &str) -> (res: Self)
        requires
            is_vehicle_kind_name(s@),
        ensures
            res == vehicle_kind_of_name(s@),
    {
        if str_eq(s, "bike") {
            VehicleKind::Bike
        } else if str_eq(s, "ebike") {
            VehicleKind::Ebike
        } else if str_eq(s, "scooter") {
            VehicleKind::Scooter
        } else {
            VehicleKind::Pedestrian
        }
    }
}

/// The shown name of every kind but walking is accepted by `from` and names the kind again.
pub proof fn vehicle_name_round_trip(kind: VehicleKind)
    requires
        kind != VehicleKind::Pedestrian,
    ensures
        is_vehicle_kind_name(kind.display_name()),
        vehicle_kind_of_name(kind.display_name()) == kind,
{
    reveal_strlit("bike");
    reveal_strlit("ebike");
    reveal_strlit("scooter");
    reveal_strlit("none");
    assert("bike"@.len() == 4);
    assert("ebike"@.len() == 5);
    assert("scooter"@.len() == 7);
    assert("none"@.len() == 4);
    assert("bike"@[0] != "none"@[0]);
}

/// The shown name of walking, "pedestrian", is not a name that `from` accepts.
pub proof fn walking_name_not_accepted()
    ensures
        !is_vehicle_kind_name(VehicleKind::Pedestrian.display_name()),
{
    reveal_strlit("pedestrian");
    reveal_strlit("bike");
    reveal_strlit("ebike");
    reveal_strlit("scooter");
    reveal_strlit("none");
    assert("pedestrian"@.len() == 10);
}

/// Law: the accepted names read as the kinds they name: "bike", "ebike" and "scooter" as
/// those vehicles, "none" as walking.
pub proof fn accepted_names_read_as_their_kinds()
    ensures
        is_vehicle_kind_name("bike"@) && vehicle_kind_of_name("bike"@) == VehicleKind::Bike,
        is_vehicle_kind_name("ebike"@) && vehicle_kind_of_name("ebike"@) == VehicleKind::Ebike,
        is_vehicle_kind_name("scooter"@) && vehicle_kind_of_name("scooter"@) == VehicleKind::Scooter,
        is_vehicle_kind_name("none"@) && vehicle_kind_of_name("none"@) == VehicleKind::Pedestrian,
{
    reveal_strlit("bike");
    reveal_strlit("ebike");
    reveal_strlit("scooter");
    reveal_strlit("none");
    assert("bike"@.len() == 4);
    assert("ebike"@.len() == 5);
    assert("scooter"@.len() == 7);
    assert("none"@.len() == 4);
    assert("bike"@[0] != "none"@[0]);
}

/// Law: the four kinds are shown under four different names.
pub proof fn shown_names_differ(a: VehicleKind, b: VehicleKind)
    requires
        a != b,
    ensures
        a.display_name() != b.display_name(),
{
    reveal_strlit("pedestrian");
    reveal_strlit("bike");
    reveal_strlit("ebike");
    reveal_strlit("scooter");
    assert("pedestrian"@.len() == 10);
    assert("bike"@.len() == 4);
    assert("ebike"@.len() == 5);
    assert("scooter"@.len() == 7);
}

} // verus!
