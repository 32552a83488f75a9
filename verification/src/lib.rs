//! Headless renderer domain types with verified validation, upload
//! publication and lifecycle, uniform serialization, and closed
//! raster-recipe contracts.

pub mod bits;
pub mod debug_text;
pub mod scene;
pub mod shader;
pub mod frame_uniform;
pub mod upload;
pub mod fixed_frame;
pub mod prepared_scene;
