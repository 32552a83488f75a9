//! The closed headless indexed-frame rendering slice: stable graph
//! identifiers, closed raster recipes, draw-start admission checks,
//! packet-private identities and lowering checks, frame-binding resolution,
//! the fixed-frame submission lifecycle, and visible-frame permissions.

pub mod ids;
pub mod recipe;
pub mod validation;
pub mod packet;
pub mod visible;
pub mod submission;
pub mod provider;
pub mod import_plan;
pub mod start;
