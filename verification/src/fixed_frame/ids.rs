//! Stable private graph identifiers for the closed raster recipes.
//!
//! Each identifier is an opaque 64-bit value; the fixed values below select
//! caller-owned resources and closed native artifacts in a frame graph.

use vstd::prelude::*;

verus! {

/// Identity of a buffer import slot in a frame graph.
#[derive(Clone, Copy, Debug, PartialEq, Eq, Structural)]
pub struct BufferBindingId(u64);

/// Identity of a texture import slot in a frame graph.
#[derive(Clone, Copy, Debug, PartialEq, Eq, Structural)]
pub struct TextureBindingId(u64);

/// Identity of an acquired presentable image slot in a frame graph.
#[derive(Clone, Copy, Debug, PartialEq, Eq, Structural)]
pub struct SurfaceBindingId(u64);

/// Identity of a closed raster pipeline.
#[derive(Clone, Copy, Debug, PartialEq, Eq, Structural)]
pub struct RasterPipelineId(u64);

/// Identity of a closed binding set.
#[derive(Clone, Copy, Debug, PartialEq, Eq, Structural)]
pub struct BindingSetId(u64);

impl View for BufferBindingId {
    type V = u64;

    closed spec fn view(&self) -> u64 {
        self.0
    }
}

impl BufferBindingId {
    /// Wraps a raw identity value.
    pub fn new(value: u64) -> (id: Self)
        ensures
            id@ == value,
    {
        Self(value)
    }

    /// Returns the raw identity value.
    pub fn value(self) -> (value: u64)
        ensures
            value == self@,
    {
        self.0
    }
}

impl View for TextureBindingId {
    type V = u64;

    closed spec fn view(&self) -> u64 {
        self.0
    }
}

impl TextureBindingId {
    /// Wraps a raw identity value.
    pub fn new(value: u64) -> (id: Self)
        ensures
            id@ == value,
    {
        Self(value)
    }

    /// Returns the raw identity value.
    pub fn value(self) -> (value: u64)
        ensures
            value == self@,
    {
        self.0
    }
}

impl View for SurfaceBindingId {
    type V = u64;

    closed spec fn view(&self) -> u64 {
        self.0
    }
}

impl SurfaceBindingId {
    /// Wraps a raw identity value.
    pub fn new(value: u64) -> (id: Self)
        ensures
            id@ == value,
    {
        Self(value)
    }
}

impl View for RasterPipelineId {
    type V = u64;

    closed spec fn view(&self) -> u64 {
        self.0
    }
}

impl RasterPipelineId {
    /// Wraps a raw identity value.
    pub fn new(value: u64) -> (id: Self)
        ensures
            id@ == value,
    {
        Self(value)
    }
}

impl View for BindingSetId {
    type V = u64;

    closed spec fn view(&self) -> u64 {
        self.0
    }
}

impl BindingSetId {
    /// Wraps a raw identity value.
    pub fn new(value: u64) -> (id: Self)
        ensures
            id@ == value,
    {
        Self(value)
    }
}

/// The position vertex-buffer import of every fixed draw.
pub fn position_binding() -> (id: BufferBindingId)
    ensures
        id@ == 0x0210_0001,
{
    BufferBindingId::new(0x0210_0001)
}

/// The index-buffer import of every fixed draw.
pub fn index_binding() -> (id: BufferBindingId)
    ensures
        id@ == 0x0210_0002,
{
    BufferBindingId::new(0x0210_0002)
}

/// The legacy fixed-color pipeline.
pub fn fixed_pipeline() -> (id: RasterPipelineId)
    ensures
        id@ == 0x0210_0001,
{
    RasterPipelineId::new(0x0210_0001)
}

/// The camera/material uniform-buffer import.
pub fn uniform_binding() -> (id: BufferBindingId)
    ensures
        id@ == 0x0220_0003,
{
    BufferBindingId::new(0x0220_0003)
}

/// The renderer-owned binding identity for one acquired presentable image.
pub fn surface_binding() -> (id: SurfaceBindingId)
    ensures
        id@ == 0x0220_0004,
{
    SurfaceBindingId::new(0x0220_0004)
}

/// The camera/material pipeline.
pub fn camera_pipeline() -> (id: RasterPipelineId)
    ensures
        id@ == 0x0220_0001,
{
    RasterPipelineId::new(0x0220_0001)
}

/// The camera/material binding set.
pub fn camera_bindings() -> (id: BindingSetId)
    ensures
        id@ == 0x0220_0001,
{
    BindingSetId::new(0x0220_0001)
}

/// The base-color texture import.
pub fn texture_binding() -> (id: TextureBindingId)
    ensures
        id@ == 0x0230_0004,
{
    TextureBindingId::new(0x0230_0004)
}

/// The position-textured pipeline.
pub fn textured_pipeline() -> (id: RasterPipelineId)
    ensures
        id@ == 0x0230_0001,
{
    RasterPipelineId::new(0x0230_0001)
}

/// The position-textured binding set.
pub fn textured_bindings() -> (id: BindingSetId)
    ensures
        id@ == 0x0230_0001,
{
    BindingSetId::new(0x0230_0001)
}

/// The texture-coordinate vertex-buffer import.
pub fn texture_coordinate_binding() -> (id: BufferBindingId)
    ensures
        id@ == 0x0240_0003,
{
    BufferBindingId::new(0x0240_0003)
}

/// The normal vertex-buffer import.
pub fn normal_binding() -> (id: BufferBindingId)
    ensures
        id@ == 0x0270_0004,
{
    BufferBindingId::new(0x0270_0004)
}

/// The normal-Lambert pipeline.
pub fn normal_lambert_pipeline() -> (id: RasterPipelineId)
    ensures
        id@ == 0x0270_0001,
{
    RasterPipelineId::new(0x0270_0001)
}

/// The normal-Lambert binding set.
pub fn normal_lambert_bindings() -> (id: BindingSetId)
    ensures
        id@ == 0x0270_0001,
{
    BindingSetId::new(0x0270_0001)
}

/// The vertex-color vertex-buffer import.
pub fn vertex_color_binding() -> (id: BufferBindingId)
    ensures
        id@ == 0x0280_0004,
{
    BufferBindingId::new(0x0280_0004)
}

/// The vertex-color pipeline.
pub fn vertex_color_pipeline() -> (id: RasterPipelineId)
    ensures
        id@ == 0x0280_0001,
{
    RasterPipelineId::new(0x0280_0001)
}

/// The vertex-color binding set.
pub fn vertex_color_bindings() -> (id: BindingSetId)
    ensures
        id@ == 0x0280_0001,
{
    BindingSetId::new(0x0280_0001)
}

} // verus!
