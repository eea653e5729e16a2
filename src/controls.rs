use vstd::prelude::*;

verus! {

/// Where the aircraft comes from: the built-in simulation, or a live
/// X-Plane 11 feed.
#[derive(Clone, Copy, Debug, PartialEq, Eq)]
pub enum Tab {
    Simulate,
    XPlane11,
}

/// How a hold's radial is shown: as degrees, or as a compass point.
#[derive(Clone, Copy, Debug, PartialEq, Eq)]
pub enum DisplayMode {
    Radial,
    Cardinal,
}

/// One map tile of the slippy-map scheme: zoom level and tile column and row.
#[derive(Clone, Copy, Debug, PartialEq, Eq, Hash)]
pub struct TileCoord {
    pub zoom: u8,
    pub x: u32,
    pub y: u32,
}

/// What the user asked for in the simulation panel during one frame.
#[derive(Clone, Copy, Debug, PartialEq, Eq)]
pub struct SimulatedTelemetryActions {
    pub generate_position: bool,
    pub calculate_result: bool,
    pub change_vor: Option<usize>,
}

/// What the user asked for in the live panel during one frame.
#[derive(Clone, Copy, Debug, PartialEq, Eq)]
pub struct TelemetryActions {
    pub generate_holding: bool,
    pub calculate_result: bool,
}

} // verus!
