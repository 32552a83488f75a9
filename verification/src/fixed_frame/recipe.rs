//! Closed mappings between the audited fixed-frame draw contracts and raster
//! recipes.
//!
//! A recipe's fields are private, so callers obtain only the seven audited
//! combinations whose graph, bindings, resource domains, and reservation
//! topology were proved together.

use vstd::prelude::*;

use crate::fixed_frame::ids::{BindingSetId, RasterPipelineId};

verus! {

/// The closed native raster kernel a recipe selects.
#[derive(Clone, Copy, Debug, PartialEq, Eq, Structural)]
pub enum RasterKernel {
    /// Indexed `f32x3` positions with the camera/material uniform.
    IndexedPositionFloat32x3CameraMaterial,
    /// Adds a mip-zero `textureLoad` base-color texture.
    IndexedPositionFloat32x3CameraMaterialTexture,
    /// Adds explicit per-vertex UVs with `textureLoad`.
    IndexedPositionFloat32x3CameraMaterialTextureUv,
    /// Explicit UVs with a linear-filtering clamp-to-edge sampler.
    IndexedPositionFloat32x3CameraMaterialTextureUvLinearClamp,
    /// Explicit UVs with sRGB decode and a linear clamp sampler.
    IndexedPositionFloat32x3CameraMaterialTextureUvLinearClampSrgb,
    /// Object-space `+Z` Lambert over explicit unit normals.
    IndexedPositionFloat32x3CameraMaterialNormalLambert,
    /// Encoded per-vertex colors with a tint.
    IndexedPositionFloat32x3CameraMaterialVertexColor,
}

/// Vertex streams required by one closed fixed-frame raster contract.
#[derive(Clone, Copy, Debug, PartialEq, Eq, Structural)]
pub enum VertexRecipe {
    /// Positions only.
    Position,
    /// Positions and texture coordinates.
    PositionUv,
    /// Positions and normals.
    PositionNormal,
    /// Positions and encoded colors.
    PositionColor,
}

/// Texture interpretation required by one closed fixed-frame raster contract.
#[derive(Clone, Copy, Debug, PartialEq, Eq, Structural)]
pub enum TextureRecipe {
    /// No texture.
    Untextured,
    /// Linear mip-zero integer loads.
    LinearLoadMip0,
    /// Linear mip-zero clamp sampling.
    LinearClampMip0,
    /// sRGB-decoded mip-zero clamp sampling.
    SrgbLinearClampMip0,
}

/// Graph shape token; it intentionally has no public combinator API.
#[derive(Clone, Copy, Debug, PartialEq, Eq, Structural)]
pub enum GraphRecipe {
    /// Camera/material graph.
    Camera,
    /// Position-textured graph.
    Textured,
    /// UV-textured graph.
    UvTextured,
    /// Normal-Lambert graph.
    NormalLambert,
    /// Vertex-color graph.
    VertexColor,
}

/// Binding topology token for a closed raster artifact.
#[derive(Clone, Copy, Debug, PartialEq, Eq, Structural)]
pub enum BindingRecipe {
    /// Uniform only.
    Uniform,
    /// Uniform and texture loads.
    TextureLoad,
    /// Uniform, UVs, and texture loads.
    UvTextureLoad,
    /// Uniform, UVs, and linear clamp sampling.
    UvLinearClamp,
    /// Uniform, UVs, and sRGB linear clamp sampling.
    UvLinearClampSrgb,
    /// Uniform and normals.
    NormalLambert,
    /// Uniform and colors.
    VertexColor,
}

/// Mesh snapshot domain accepted by a closed raster artifact.
#[derive(Clone, Copy, Debug, PartialEq, Eq, Structural)]
pub enum MeshDomain {
    /// Position/index snapshots.
    Indexed,
    /// Position/index/UV snapshots.
    TexturedIndexed,
    /// Position/index/normal snapshots.
    NormalIndexed,
    /// Position/index/color snapshots.
    VertexColorIndexed,
}

/// Texture snapshot domain accepted by a closed raster artifact.
#[derive(Clone, Copy, Debug, PartialEq, Eq, Structural)]
pub enum TextureDomain {
    /// No texture.
    Untextured,
    /// Linear RGBA8 texture snapshots.
    Linear,
    /// sRGB RGBA8 texture snapshots.
    Srgb,
}

/// Reservation topology held from draw acceptance to completion.
#[derive(Clone, Copy, Debug, PartialEq, Eq, Structural)]
pub enum ReservationRecipe {
    /// The mesh generation only.
    Mesh,
    /// The mesh and texture generations.
    MeshAndTexture,
}

/// Export topology produced by a closed graph declaration.
#[derive(Clone, Copy, Debug, PartialEq, Eq, Structural)]
pub enum ExportRecipe {
    /// Camera/material exports.
    Camera,
    /// Position-textured exports.
    Texture,
    /// UV-textured exports.
    UvTexture,
    /// Normal-Lambert exports.
    NormalLambert,
    /// Vertex-color exports.
    VertexColor,
}

/// The kind of ready mesh snapshot supplied to a draw.
#[derive(Clone, Copy, Debug, PartialEq, Eq, Structural)]
pub enum FrameMeshKind {
    /// A position/index snapshot.
    Indexed,
    /// A position/index/UV snapshot.
    TexturedUv,
    /// A position/index/normal snapshot.
    Normal,
    /// A position/index/color snapshot.
    VertexColor,
}

/// The kind of ready texture snapshot supplied to a draw.
#[derive(Clone, Copy, Debug, PartialEq, Eq, Structural)]
pub enum FrameTextureKind {
    /// A linear RGBA8 snapshot.
    Linear,
    /// An sRGB RGBA8 snapshot.
    Srgb,
}

/// One of the audited fixed-frame contracts.
#[derive(Clone, Copy, Debug, PartialEq, Eq, Structural)]
pub struct RasterRecipe {
    kernel: RasterKernel,
    pipeline: u64,
    bindings: u64,
    vertex: VertexRecipe,
    texture: TextureRecipe,
    graph: GraphRecipe,
    binding: BindingRecipe,
    mesh_domain: MeshDomain,
    texture_domain: TextureDomain,
    reservation: ReservationRecipe,
    export: ExportRecipe,
}

/// The seven audited (vertex, texture, graph, binding, export) topologies.
pub open spec fn audited_topology(
    vertex: VertexRecipe,
    texture: TextureRecipe,
    graph: GraphRecipe,
    binding: BindingRecipe,
    export: ExportRecipe,
) -> bool {
    ||| (vertex, texture, graph, binding, export) == (
        VertexRecipe::Position,
        TextureRecipe::Untextured,
        GraphRecipe::Camera,
        BindingRecipe::Uniform,
        ExportRecipe::Camera,
    )
    ||| (vertex, texture, graph, binding, export) == (
        VertexRecipe::Position,
        TextureRecipe::LinearLoadMip0,
        GraphRecipe::Textured,
        BindingRecipe::TextureLoad,
        ExportRecipe::Texture,
    )
    ||| (vertex, texture, graph, binding, export) == (
        VertexRecipe::PositionUv,
        TextureRecipe::LinearLoadMip0,
        GraphRecipe::UvTextured,
        BindingRecipe::UvTextureLoad,
        ExportRecipe::UvTexture,
    )
    ||| (vertex, texture, graph, binding, export) == (
        VertexRecipe::PositionUv,
        TextureRecipe::LinearClampMip0,
        GraphRecipe::UvTextured,
        BindingRecipe::UvLinearClamp,
        ExportRecipe::UvTexture,
    )
    ||| (vertex, texture, graph, binding, export) == (
        VertexRecipe::PositionUv,
        TextureRecipe::SrgbLinearClampMip0,
        GraphRecipe::UvTextured,
        BindingRecipe::UvLinearClampSrgb,
        ExportRecipe::UvTexture,
    )
    ||| (vertex, texture, graph, binding, export) == (
        VertexRecipe::PositionNormal,
        TextureRecipe::Untextured,
        GraphRecipe::NormalLambert,
        BindingRecipe::NormalLambert,
        ExportRecipe::NormalLambert,
    )
    ||| (vertex, texture, graph, binding, export) == (
        VertexRecipe::PositionColor,
        TextureRecipe::Untextured,
        GraphRecipe::VertexColor,
        BindingRecipe::VertexColor,
        ExportRecipe::VertexColor,
    )
}

/// The mesh snapshot kind matches the mesh domain.
pub open spec fn mesh_matches(domain: MeshDomain, mesh: FrameMeshKind) -> bool {
    match (domain, mesh) {
        (MeshDomain::Indexed, FrameMeshKind::Indexed) => true,
        (MeshDomain::TexturedIndexed, FrameMeshKind::TexturedUv) => true,
        (MeshDomain::NormalIndexed, FrameMeshKind::Normal) => true,
        (MeshDomain::VertexColorIndexed, FrameMeshKind::VertexColor) => true,
        _ => false,
    }
}

/// The optional texture snapshot kind matches the texture domain.
pub open spec fn texture_matches(domain: TextureDomain, texture: Option<FrameTextureKind>) -> bool {
    match (domain, texture) {
        (TextureDomain::Untextured, None) => true,
        (TextureDomain::Linear, Some(FrameTextureKind::Linear)) => true,
        (TextureDomain::Srgb, Some(FrameTextureKind::Srgb)) => true,
        _ => false,
    }
}

/// The reservation topology holds a texture reservation exactly when a
/// texture snapshot is supplied.
pub open spec fn reservation_matches(
    reservation: ReservationRecipe,
    texture: Option<FrameTextureKind>,
) -> bool {
    match reservation {
        ReservationRecipe::Mesh => texture is None,
        ReservationRecipe::MeshAndTexture => texture is Some,
    }
}

impl RasterRecipe {
    /// The selected native kernel.
    pub closed spec fn spec_kernel(self) -> RasterKernel {
        self.kernel
    }

    /// The raw pipeline identity.
    pub closed spec fn spec_pipeline(self) -> u64 {
        self.pipeline
    }

    /// The raw binding-set identity.
    pub closed spec fn spec_bindings(self) -> u64 {
        self.bindings
    }

    /// The vertex streams.
    pub closed spec fn spec_vertex(self) -> VertexRecipe {
        self.vertex
    }

    /// The texture interpretation.
    pub closed spec fn spec_texture(self) -> TextureRecipe {
        self.texture
    }

    /// The graph shape.
    pub closed spec fn spec_graph(self) -> GraphRecipe {
        self.graph
    }

    /// The binding topology.
    pub closed spec fn spec_binding(self) -> BindingRecipe {
        self.binding
    }

    /// The accepted mesh domain.
    pub closed spec fn spec_mesh_domain(self) -> MeshDomain {
        self.mesh_domain
    }

    /// The accepted texture domain.
    pub closed spec fn spec_texture_domain(self) -> TextureDomain {
        self.texture_domain
    }

    /// The reservation topology.
    pub closed spec fn spec_reservation(self) -> ReservationRecipe {
        self.reservation
    }

    /// The export topology.
    pub closed spec fn spec_export(self) -> ExportRecipe {
        self.export
    }

    /// The recipe accepts a mesh snapshot of kind `mesh` and an optional
    /// texture snapshot of kind `texture`.
    pub open spec fn spec_accepts(self, mesh: FrameMeshKind, texture: Option<FrameTextureKind>) -> bool {
        &&& mesh_matches(self.spec_mesh_domain(), mesh)
        &&& texture_matches(self.spec_texture_domain(), texture)
        &&& reservation_matches(self.spec_reservation(), texture)
        &&& audited_topology(
            self.spec_vertex(),
            self.spec_texture(),
            self.spec_graph(),
            self.spec_binding(),
            self.spec_export(),
        )
    }

    /// The legacy unlit camera/material recipe, as a value.
    pub closed spec fn spec_legacy_unlit() -> Self {
        Self {
            kernel: RasterKernel::IndexedPositionFloat32x3CameraMaterial,
            pipeline: 0x0220_0001,
            bindings: 0x0220_0001,
            vertex: VertexRecipe::Position,
            texture: TextureRecipe::Untextured,
            graph: GraphRecipe::Camera,
            binding: BindingRecipe::Uniform,
            mesh_domain: MeshDomain::Indexed,
            texture_domain: TextureDomain::Untextured,
            reservation: ReservationRecipe::Mesh,
            export: ExportRecipe::Camera,
        }
    }

    /// The legacy unlit camera/material recipe.
    pub fn legacy_unlit() -> (recipe: Self)
        ensures
            recipe == Self::spec_legacy_unlit(),
            recipe.spec_kernel() == RasterKernel::IndexedPositionFloat32x3CameraMaterial,
            recipe.spec_pipeline() == 0x0220_0001,
            recipe.spec_bindings() == 0x0220_0001,
            recipe.spec_vertex() == VertexRecipe::Position,
            recipe.spec_texture() == TextureRecipe::Untextured,
            recipe.spec_graph() == GraphRecipe::Camera,
            recipe.spec_binding() == BindingRecipe::Uniform,
            recipe.spec_mesh_domain() == MeshDomain::Indexed,
            recipe.spec_texture_domain() == TextureDomain::Untextured,
            recipe.spec_reservation() == ReservationRecipe::Mesh,
            recipe.spec_export() == ExportRecipe::Camera,
            self_consistent(recipe),
    {
        Self {
            kernel: RasterKernel::IndexedPositionFloat32x3CameraMaterial,
            pipeline: 0x0220_0001,
            bindings: 0x0220_0001,
            vertex: VertexRecipe::Position,
            texture: TextureRecipe::Untextured,
            graph: GraphRecipe::Camera,
            binding: BindingRecipe::Uniform,
            mesh_domain: MeshDomain::Indexed,
            texture_domain: TextureDomain::Untextured,
            reservation: ReservationRecipe::Mesh,
            export: ExportRecipe::Camera,
        }
    }

    /// The position-only mesh with a mip-zero `textureLoad` texture.
    pub fn position_texture_load() -> (recipe: Self)
        ensures
            recipe.spec_kernel() == RasterKernel::IndexedPositionFloat32x3CameraMaterialTexture,
            recipe.spec_pipeline() == 0x0230_0001,
            recipe.spec_bindings() == 0x0230_0001,
            recipe.spec_vertex() == VertexRecipe::Position,
            recipe.spec_texture() == TextureRecipe::LinearLoadMip0,
            recipe.spec_graph() == GraphRecipe::Textured,
            recipe.spec_binding() == BindingRecipe::TextureLoad,
            recipe.spec_mesh_domain() == MeshDomain::Indexed,
            recipe.spec_texture_domain() == TextureDomain::Linear,
            recipe.spec_reservation() == ReservationRecipe::MeshAndTexture,
            recipe.spec_export() == ExportRecipe::Texture,
            self_consistent(recipe),
    {
        Self {
            kernel: RasterKernel::IndexedPositionFloat32x3CameraMaterialTexture,
            pipeline: 0x0230_0001,
            bindings: 0x0230_0001,
            vertex: VertexRecipe::Position,
            texture: TextureRecipe::LinearLoadMip0,
            graph: GraphRecipe::Textured,
            binding: BindingRecipe::TextureLoad,
            mesh_domain: MeshDomain::Indexed,
            texture_domain: TextureDomain::Linear,
            reservation: ReservationRecipe::MeshAndTexture,
            export: ExportRecipe::Texture,
        }
    }

    /// Explicit per-vertex UVs with a mip-zero `textureLoad` texture.
    pub fn uv_texture_load() -> (recipe: Self)
        ensures
            recipe.spec_kernel() == RasterKernel::IndexedPositionFloat32x3CameraMaterialTextureUv,
            recipe.spec_pipeline() == 0x0240_0001,
            recipe.spec_bindings() == 0x0240_0001,
            recipe.spec_vertex() == VertexRecipe::PositionUv,
            recipe.spec_texture() == TextureRecipe::LinearLoadMip0,
            recipe.spec_graph() == GraphRecipe::UvTextured,
            recipe.spec_binding() == BindingRecipe::UvTextureLoad,
            recipe.spec_mesh_domain() == MeshDomain::TexturedIndexed,
            recipe.spec_texture_domain() == TextureDomain::Linear,
            recipe.spec_reservation() == ReservationRecipe::MeshAndTexture,
            recipe.spec_export() == ExportRecipe::UvTexture,
            self_consistent(recipe),
    {
        Self {
            kernel: RasterKernel::IndexedPositionFloat32x3CameraMaterialTextureUv,
            pipeline: 0x0240_0001,
            bindings: 0x0240_0001,
            vertex: VertexRecipe::PositionUv,
            texture: TextureRecipe::LinearLoadMip0,
            graph: GraphRecipe::UvTextured,
            binding: BindingRecipe::UvTextureLoad,
            mesh_domain: MeshDomain::TexturedIndexed,
            texture_domain: TextureDomain::Linear,
            reservation: ReservationRecipe::MeshAndTexture,
            export: ExportRecipe::UvTexture,
        }
    }

    /// Explicit UVs with a linear-filtering, clamp-to-edge sampler.
    pub fn uv_linear_clamp_unorm() -> (recipe: Self)
        ensures
            recipe.spec_kernel()
                == RasterKernel::IndexedPositionFloat32x3CameraMaterialTextureUvLinearClamp,
            recipe.spec_pipeline() == 0x0250_0001,
            recipe.spec_bindings() == 0x0250_0001,
            recipe.spec_vertex() == VertexRecipe::PositionUv,
            recipe.spec_texture() == TextureRecipe::LinearClampMip0,
            recipe.spec_graph() == GraphRecipe::UvTextured,
            recipe.spec_binding() == BindingRecipe::UvLinearClamp,
            recipe.spec_mesh_domain() == MeshDomain::TexturedIndexed,
            recipe.spec_texture_domain() == TextureDomain::Linear,
            recipe.spec_reservation() == ReservationRecipe::MeshAndTexture,
            recipe.spec_export() == ExportRecipe::UvTexture,
            self_consistent(recipe),
    {
        Self {
            kernel: RasterKernel::IndexedPositionFloat32x3CameraMaterialTextureUvLinearClamp,
            pipeline: 0x0250_0001,
            bindings: 0x0250_0001,
            vertex: VertexRecipe::PositionUv,
            texture: TextureRecipe::LinearClampMip0,
            graph: GraphRecipe::UvTextured,
            binding: BindingRecipe::UvLinearClamp,
            mesh_domain: MeshDomain::TexturedIndexed,
            texture_domain: TextureDomain::Linear,
            reservation: ReservationRecipe::MeshAndTexture,
            export: ExportRecipe::UvTexture,
        }
    }

    /// Explicit UVs with sRGB decode and a linear clamp sampler.
    pub fn uv_linear_clamp_srgb() -> (recipe: Self)
        ensures
            recipe.spec_kernel()
                == RasterKernel::IndexedPositionFloat32x3CameraMaterialTextureUvLinearClampSrgb,
            recipe.spec_pipeline() == 0x0260_0001,
            recipe.spec_bindings() == 0x0260_0001,
            recipe.spec_vertex() == VertexRecipe::PositionUv,
            recipe.spec_texture() == TextureRecipe::SrgbLinearClampMip0,
            recipe.spec_graph() == GraphRecipe::UvTextured,
            recipe.spec_binding() == BindingRecipe::UvLinearClampSrgb,
            recipe.spec_mesh_domain() == MeshDomain::TexturedIndexed,
            recipe.spec_texture_domain() == TextureDomain::Srgb,
            recipe.spec_reservation() == ReservationRecipe::MeshAndTexture,
            recipe.spec_export() == ExportRecipe::UvTexture,
            self_consistent(recipe),
    {
        Self {
            kernel: RasterKernel::IndexedPositionFloat32x3CameraMaterialTextureUvLinearClampSrgb,
            pipeline: 0x0260_0001,
            bindings: 0x0260_0001,
            vertex: VertexRecipe::PositionUv,
            texture: TextureRecipe::SrgbLinearClampMip0,
            graph: GraphRecipe::UvTextured,
            binding: BindingRecipe::UvLinearClampSrgb,
            mesh_domain: MeshDomain::TexturedIndexed,
            texture_domain: TextureDomain::Srgb,
            reservation: ReservationRecipe::MeshAndTexture,
            export: ExportRecipe::UvTexture,
        }
    }

    /// Object-space `+Z` Lambert over explicit unit normals.
    pub fn normal_lambert() -> (recipe: Self)
        ensures
            recipe.spec_kernel() == RasterKernel::IndexedPositionFloat32x3CameraMaterialNormalLambert,
            recipe.spec_pipeline() == 0x0270_0001,
            recipe.spec_bindings() == 0x0270_0001,
            recipe.spec_vertex() == VertexRecipe::PositionNormal,
            recipe.spec_texture() == TextureRecipe::Untextured,
            recipe.spec_graph() == GraphRecipe::NormalLambert,
            recipe.spec_binding() == BindingRecipe::NormalLambert,
            recipe.spec_mesh_domain() == MeshDomain::NormalIndexed,
            recipe.spec_texture_domain() == TextureDomain::Untextured,
            recipe.spec_reservation() == ReservationRecipe::Mesh,
            recipe.spec_export() == ExportRecipe::NormalLambert,
            self_consistent(recipe),
    {
        Self {
            kernel: RasterKernel::IndexedPositionFloat32x3CameraMaterialNormalLambert,
            pipeline: 0x0270_0001,
            bindings: 0x0270_0001,
            vertex: VertexRecipe::PositionNormal,
            texture: TextureRecipe::Untextured,
            graph: GraphRecipe::NormalLambert,
            binding: BindingRecipe::NormalLambert,
            mesh_domain: MeshDomain::NormalIndexed,
            texture_domain: TextureDomain::Untextured,
            reservation: ReservationRecipe::Mesh,
            export: ExportRecipe::NormalLambert,
        }
    }

    /// Encoded per-vertex colors with a tint.
    pub fn vertex_color() -> (recipe: Self)
        ensures
            recipe.spec_kernel() == RasterKernel::IndexedPositionFloat32x3CameraMaterialVertexColor,
            recipe.spec_pipeline() == 0x0280_0001,
            recipe.spec_bindings() == 0x0280_0001,
            recipe.spec_vertex() == VertexRecipe::PositionColor,
            recipe.spec_texture() == TextureRecipe::Untextured,
            recipe.spec_graph() == GraphRecipe::VertexColor,
            recipe.spec_binding() == BindingRecipe::VertexColor,
            recipe.spec_mesh_domain() == MeshDomain::VertexColorIndexed,
            recipe.spec_texture_domain() == TextureDomain::Untextured,
            recipe.spec_reservation() == ReservationRecipe::Mesh,
            recipe.spec_export() == ExportRecipe::VertexColor,
            self_consistent(recipe),
    {
        Self {
            kernel: RasterKernel::IndexedPositionFloat32x3CameraMaterialVertexColor,
            pipeline: 0x0280_0001,
            bindings: 0x0280_0001,
            vertex: VertexRecipe::PositionColor,
            texture: TextureRecipe::Untextured,
            graph: GraphRecipe::VertexColor,
            binding: BindingRecipe::VertexColor,
            mesh_domain: MeshDomain::VertexColorIndexed,
            texture_domain: TextureDomain::Untextured,
            reservation: ReservationRecipe::Mesh,
            export: ExportRecipe::VertexColor,
        }
    }

    /// Returns the selected native kernel.
    pub fn kernel(self) -> (kernel: RasterKernel)
        ensures
            kernel == self.spec_kernel(),
    {
        self.kernel
    }

    /// Returns the closed pipeline identity.
    pub fn pipeline(self) -> (id: RasterPipelineId)
        ensures
            id@ == self.spec_pipeline(),
    {
        RasterPipelineId::new(self.pipeline)
    }

    /// Returns the closed binding-set identity.
    pub fn bindings(self) -> (id: BindingSetId)
        ensures
            id@ == self.spec_bindings(),
    {
        BindingSetId::new(self.bindings)
    }

    /// Returns the vertex streams.
    pub fn vertex(self) -> (vertex: VertexRecipe)
        ensures
            vertex == self.spec_vertex(),
    {
        self.vertex
    }

    /// Returns the texture interpretation.
    pub fn texture(self) -> (texture: TextureRecipe)
        ensures
            texture == self.spec_texture(),
    {
        self.texture
    }

    /// Returns the graph shape.
    pub fn graph(self) -> (graph: GraphRecipe)
        ensures
            graph == self.spec_graph(),
    {
        self.graph
    }

    /// Returns the binding topology.
    pub fn binding(self) -> (binding: BindingRecipe)
        ensures
            binding == self.spec_binding(),
    {
        self.binding
    }

    /// Returns the accepted mesh domain.
    pub fn mesh_domain(self) -> (domain: MeshDomain)
        ensures
            domain == self.spec_mesh_domain(),
    {
        self.mesh_domain
    }

    /// Returns the accepted texture domain.
    pub fn texture_domain(self) -> (domain: TextureDomain)
        ensures
            domain == self.spec_texture_domain(),
    {
        self.texture_domain
    }

    /// Returns the reservation topology.
    pub fn reservation(self) -> (reservation: ReservationRecipe)
        ensures
            reservation == self.spec_reservation(),
    {
        self.reservation
    }

    /// Returns the export topology.
    pub fn export(self) -> (export: ExportRecipe)
        ensures
            export == self.spec_export(),
    {
        self.export
    }

    /// Confirms that this recipe and the supplied snapshot kinds agree:
    /// matching mesh and texture domains, a reservation topology covering
    /// exactly the supplied snapshots, and an audited graph topology.
    pub fn accepts(self, mesh: FrameMeshKind, texture: Option<FrameTextureKind>) -> (accepted: bool)
        ensures
            accepted == self.spec_accepts(mesh, texture),
    {
        let mesh_ok = match (self.mesh_domain, mesh) {
            (MeshDomain::Indexed, FrameMeshKind::Indexed) => true,
            (MeshDomain::TexturedIndexed, FrameMeshKind::TexturedUv) => true,
            (MeshDomain::NormalIndexed, FrameMeshKind::Normal) => true,
            (MeshDomain::VertexColorIndexed, FrameMeshKind::VertexColor) => true,
            _ => false,
        };
        let texture_ok = match (self.texture_domain, texture) {
            (TextureDomain::Untextured, None) => true,
            (TextureDomain::Linear, Some(FrameTextureKind::Linear)) => true,
            (TextureDomain::Srgb, Some(FrameTextureKind::Srgb)) => true,
            _ => false,
        };
        let reservation_ok = match (self.reservation, texture) {
            (ReservationRecipe::Mesh, None) => true,
            (ReservationRecipe::MeshAndTexture, Some(_)) => true,
            _ => false,
        };
        let topology_ok = match (self.vertex, self.texture, self.graph, self.binding, self.export) {
            (
                VertexRecipe::Position,
                TextureRecipe::Untextured,
                GraphRecipe::Camera,
                BindingRecipe::Uniform,
                ExportRecipe::Camera,
            ) => true,
            (
                VertexRecipe::Position,
                TextureRecipe::LinearLoadMip0,
                GraphRecipe::Textured,
                BindingRecipe::TextureLoad,
                ExportRecipe::Texture,
            ) => true,
            (
                VertexRecipe::PositionUv,
                TextureRecipe::LinearLoadMip0,
                GraphRecipe::UvTextured,
                BindingRecipe::UvTextureLoad,
                ExportRecipe::UvTexture,
            ) => true,
            (
                VertexRecipe::PositionUv,
                TextureRecipe::LinearClampMip0,
                GraphRecipe::UvTextured,
                BindingRecipe::UvLinearClamp,
                ExportRecipe::UvTexture,
            ) => true,
            (
                VertexRecipe::PositionUv,
                TextureRecipe::SrgbLinearClampMip0,
                GraphRecipe::UvTextured,
                BindingRecipe::UvLinearClampSrgb,
                ExportRecipe::UvTexture,
            ) => true,
            (
                VertexRecipe::PositionNormal,
                TextureRecipe::Untextured,
                GraphRecipe::NormalLambert,
                BindingRecipe::NormalLambert,
                ExportRecipe::NormalLambert,
            ) => true,
            (
                VertexRecipe::PositionColor,
                TextureRecipe::Untextured,
                GraphRecipe::VertexColor,
                BindingRecipe::VertexColor,
                ExportRecipe::VertexColor,
            ) => true,
            _ => false,
        };
        mesh_ok && texture_ok && reservation_ok && topology_ok
    }
}

/// The mesh and texture snapshot kinds an audited recipe is built for.
pub open spec fn recipe_domain(recipe: RasterRecipe) -> (FrameMeshKind, Option<FrameTextureKind>) {
    let mesh = match recipe.spec_mesh_domain() {
        MeshDomain::Indexed => FrameMeshKind::Indexed,
        MeshDomain::TexturedIndexed => FrameMeshKind::TexturedUv,
        MeshDomain::NormalIndexed => FrameMeshKind::Normal,
        MeshDomain::VertexColorIndexed => FrameMeshKind::VertexColor,
    };
    let texture = match recipe.spec_texture_domain() {
        TextureDomain::Untextured => None,
        TextureDomain::Linear => Some(FrameTextureKind::Linear),
        TextureDomain::Srgb => Some(FrameTextureKind::Srgb),
    };
    (mesh, texture)
}

/// A recipe whose fields agree with one another: its reservation covers a
/// texture exactly when it has a texture domain, and its topology is audited.
pub open spec fn self_consistent(recipe: RasterRecipe) -> bool {
    &&& (recipe.spec_reservation() == ReservationRecipe::MeshAndTexture)
        == (recipe.spec_texture_domain() != TextureDomain::Untextured)
    &&& audited_topology(
        recipe.spec_vertex(),
        recipe.spec_texture(),
        recipe.spec_graph(),
        recipe.spec_binding(),
        recipe.spec_export(),
    )
}

/// A self-consistent recipe accepts exactly the snapshot kinds of its own
/// domains, and nothing else.
pub proof fn lemma_recipe_accepts_exactly_its_domain(
    recipe: RasterRecipe,
    mesh: FrameMeshKind,
    texture: Option<FrameTextureKind>,
)
    requires
        self_consistent(recipe),
    ensures
        recipe.spec_accepts(mesh, texture) <==> (mesh, texture) == recipe_domain(recipe),
{
}

} // verus!
