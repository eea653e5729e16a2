//! Holding-pattern entry trainer: the geometry of angles on the compass, the
//! classification of a holding entry, and the session that watches an
//! approaching aircraft until it enters the hold.
//!
//! Units used throughout: angles in thousandths of a degree, distances in
//! thousandths of a nautical mile, latitudes and longitudes in units of
//! 1e-7 degree, times in milliseconds.

pub mod angles;
pub mod controls;
pub mod entry;
pub mod radial;
mod randomness;
pub mod session;

pub use angles::{heading_difference, normalize_angle, FULL_TURN, HALF_TURN};
pub use controls::{DisplayMode, SimulatedTelemetryActions, Tab, TelemetryActions, TileCoord};
pub use entry::{
    calculate_entry_type, entry_sectors, EntryType, SectorArc, DIRECT_EDGE, ENTRY_MARGIN,
    LEFT_PARALLEL_EDGE, RIGHT_PARALLEL_EDGE,
};
pub use radial::{bearing_from_radial, bearing_to_from_radial, radial_to_cardinal};
pub use session::{
    BeaconRange, HoldingPattern, PositionSample, TrackPoint, CAPTURE_RADIUS, NO_DISTANCE,
};
