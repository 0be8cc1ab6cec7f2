//! Simulation and rendering core for a small set of named spatial nodes.
//!
//! Positions, battery levels and colors are carried in fixed-point integers:
//! one data unit is `SCALE` milli-units, one color unit is `COLOR_SCALE`
//! milli-units, and pixel positions are produced in milli-pixels.

use vstd::prelude::*;

pub mod colors;
pub mod grid;
pub mod label;
pub mod node;
pub mod scale;
pub mod sim;

verus! {

/// Milli-units per data unit: coordinates and battery levels are stored
/// as multiples of 1/1000.
pub const SCALE: i64 = 1000;

/// Milli-units per color unit: an RGB component of 1.0 is stored as 1000.
pub const COLOR_SCALE: i64 = 1000;

/// Pixels reserved on every side of the canvas for axis labels.
pub const GRID_MARGIN: i64 = 45;

/// Number of grid squares per axis; the grid has one more line than squares.
pub const NUM_SQUARES: i64 = 10;

/// Radius of a node marker, in milli-pixels.
pub const NODE_RADIUS: i64 = 5000;

/// Offset between a grid line and its label, in milli-pixels.
pub const TEXT_PADDING: i64 = 5000;

/// Largest magnitude a coordinate may take, in milli-units; positions
/// saturate here so that pixel arithmetic stays within machine bounds.
pub const COORD_LIMIT: i64 = 1_000_000_000;

/// Largest battery value carried, in milli-units; batteries saturate here.
pub const BATTERY_LIMIT: i64 = 1_000_000_000;

/// Largest canvas width or height, in pixels.
pub const MAX_CANVAS: i64 = 100_000;

/// The period of the simulation timer, in milliseconds; the host drives one
/// tick per period.
pub const TICK_PERIOD_MS: u64 = 100;

} // verus!
