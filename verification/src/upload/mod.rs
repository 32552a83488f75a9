//! Upload generation synchronization, publication policy, payload
//! serialization, CPU-side validation of upload inputs, immutable snapshot
//! generations, and the non-blocking upload coordinators.

pub mod gate;
pub mod publication;
pub mod image;
pub mod payload;
pub mod textured;
pub mod vertex_color;
pub mod snapshot;
pub mod coordinator;
