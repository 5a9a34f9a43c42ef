use vstd::prelude::*;
use crate::vehicle_kind::VehicleKind;

verus! {

/// What a client asks the router for. `C` is the type of coordinates; the two
/// `real_*_coords` hold the requested places as `[lat, lon]`.
#[derive(Debug, Clone)]
pub struct RouteRequest<C> {
    pub start_id: i64,
    pub goal_id: i64,
    pub real_start_coords: Vec<C>,
    pub real_goal_coords: Vec<C>,
    pub vehicle_kind: VehicleKind,
    pub routing_algorithm_kind: String,
    pub consider_air_quality: Option<bool>,
    pub consider_distance: Option<bool>,
    pub consider_green_areas: Option<bool>,
    pub consider_mobility_impairment: Option<bool>,
    pub consider_safety: Option<bool>,
    pub consider_traffic: Option<bool>,
    pub air_quality_level: i32,
    pub traffic_level: i32,
}

impl<C> RouteRequest<C> {
    /// Sets the requested start place to `[lat, lon]`.
    pub fn set_real_start_coords(&mut self, lat: C, lon: C)
        ensures
            final(self).real_start_coords@ == seq![lat, lon],
            *final(self) == (RouteRequest { real_start_coords: final(self).real_start_coords, ..*old(self) }),
    {
        self.real_start_coords = vec![lat, lon];
    }

    /// Sets the requested goal place to `[lat, lon]`.
    pub fn set_real_goal_coords(&mut self, lat: C, lon: C)
        ensures
            final(self).real_goal_coords@ == seq![lat, lon],
            *final(self) == (RouteRequest { real_goal_coords: final(self).real_goal_coords, ..*old(self) }),
    {
        self.real_goal_coords = vec![lat, lon];
    }
}

} // verus!
