//! State and decisions of the pivot handle: the anchor point about which a
//! selection of layers is rotated and scaled.
//!
//! The geometry (points, affine transforms, bounding boxes) is supplied by the
//! caller as opaque values of its own point and transform types; this crate
//! decides what the handle holds, when it is active, when the toolbar must be
//! refreshed and which pivot writes are issued.

mod anchor;
mod controller;
pub mod laws;

pub use anchor::Anchor;
pub use controller::{Pivot, PivotModel, Placement, RecalcMode, recalc_mode};
