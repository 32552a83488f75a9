//! Headless renderer domain types: cameras, geometry, basic materials,
//! meshes, and insertion-ordered draw lists.
//!
//! Floating-point values cross this boundary as their IEEE-754 binary32 bit
//! patterns (`f32::to_bits`), which is also the exact representation the
//! renderer serializes into upload payloads.

use vstd::prelude::*;
use vstd::string::StringExecFns;

use crate::bits::{in_unit_interval, is_finite, spec_in_unit_interval, spec_is_finite};
use crate::debug_text::{decimal, push_decimal, text_of};

verus! {

/// The bit pattern of `1.0_f32`.
pub const ONE_BITS: u32 = 0x3f80_0000;

/// The identity matrix, as column-major binary32 bit patterns.
pub open spec fn identity_bits() -> [[u32; 4]; 4] {
    [
        [ONE_BITS, 0, 0, 0],
        [0, ONE_BITS, 0, 0],
        [0, 0, ONE_BITS, 0],
        [0, 0, 0, ONE_BITS],
    ]
}

/// A camera described by column-major view and projection matrices.
#[derive(Clone, Debug, PartialEq)]
pub struct Camera {
    view: [[u32; 4]; 4],
    projection: [[u32; 4]; 4],
}

impl Camera {
    /// The view matrix bit patterns.
    pub closed spec fn spec_view(&self) -> [[u32; 4]; 4] {
        self.view
    }

    /// The projection matrix bit patterns.
    pub closed spec fn spec_projection(&self) -> [[u32; 4]; 4] {
        self.projection
    }

    /// Creates a camera from column-major view and projection matrices.
    pub fn new(view: [[u32; 4]; 4], projection: [[u32; 4]; 4]) -> (camera: Self)
        ensures
            camera.spec_view() == view,
            camera.spec_projection() == projection,
    {
        Self { view, projection }
    }

    /// Returns the camera view matrix.
    pub fn view(&self) -> (view: &[[u32; 4]; 4])
        ensures
            *view == self.spec_view(),
    {
        &self.view
    }

    /// Returns the camera projection matrix.
    pub fn projection(&self) -> (projection: &[[u32; 4]; 4])
        ensures
            *projection == self.spec_projection(),
    {
        &self.projection
    }
}

impl Default for Camera {
    /// The camera whose view and projection are both the identity.
    fn default() -> (camera: Self)
        ensures
            camera.spec_view() == identity_bits(),
            camera.spec_projection() == identity_bits(),
    {
        let identity: [[u32; 4]; 4] = [
            [ONE_BITS, 0, 0, 0],
            [0, ONE_BITS, 0, 0],
            [0, 0, ONE_BITS, 0],
            [0, 0, 0, ONE_BITS],
        ];
        Self::new(identity, identity)
    }
}

/// An invalid geometry construction request.
#[derive(Clone, Debug, PartialEq, Eq, Structural)]
pub enum GeometryError {
    /// An index referred to a vertex outside the position array.
    IndexOutOfBounds {
        /// The invalid index.
        index: u32,
        /// The number of available positions.
        vertex_count: usize,
    },
}

/// The message of a geometry construction error.
pub open spec fn geometry_error_message(error: GeometryError) -> Seq<char> {
    match error {
        GeometryError::IndexOutOfBounds { index, vertex_count } => "geometry index "@ + decimal(
            index as nat,
        ) + " is outside its "@ + decimal(vertex_count as nat) + " vertex positions"@,
    }
}

impl GeometryError {
    /// The human-readable description of this error.
    pub fn message(&self) -> (text: String)
        ensures
            text@ == geometry_error_message(*self),
    {
        match self {
            GeometryError::IndexOutOfBounds { index, vertex_count } => {
                let mut text = text_of("geometry index ");
                push_decimal(&mut text, *index as u64);
                text.append(" is outside its ");
                push_decimal(&mut text, *vertex_count as u64);
                text.append(" vertex positions");
                text
            },
        }
    }
}

/// Vertex positions and optional triangle indices for one mesh.
#[derive(Clone, Debug, PartialEq)]
pub struct Geometry {
    positions: Vec<[u32; 3]>,
    indices: Vec<u32>,
}

/// The position of the first index in `indices` that does not refer to one
/// of `vertex_count` vertices, if any.
pub open spec fn first_out_of_bounds(indices: Seq<u32>, vertex_count: nat, k: int) -> bool {
    &&& 0 <= k < indices.len()
    &&& indices[k] >= vertex_count
    &&& forall|j: int| 0 <= j < k ==> indices[j] < vertex_count
}

impl Geometry {
    /// The vertex positions.
    pub closed spec fn spec_positions(&self) -> Seq<[u32; 3]> {
        self.positions@
    }

    /// The triangle indices; empty for non-indexed geometry.
    pub closed spec fn spec_indices(&self) -> Seq<u32> {
        self.indices@
    }

    /// Every index refers to a vertex.
    pub open spec fn well_formed(&self) -> bool {
        forall|i: int|
            0 <= i < self.spec_indices().len() ==> self.spec_indices()[i]
                < self.spec_positions().len()
    }

    /// Creates non-indexed geometry from vertex positions.
    pub fn from_positions(positions: Vec<[u32; 3]>) -> (geometry: Self)
        ensures
            geometry.spec_positions() == positions@,
            geometry.spec_indices() == Seq::<u32>::empty(),
            geometry.well_formed(),
    {
        Self { positions, indices: Vec::new() }
    }

    /// Adds indices after checking that every index refers to a vertex.
    ///
    /// Fails with the first index, in stream order, that is not below the
    /// vertex count; otherwise replaces the index stream.
    pub fn with_indices(self, indices: Vec<u32>) -> (result: Result<Self, GeometryError>)
        ensures
            match result {
                Ok(geometry) => {
                    &&& geometry.spec_positions() == self.spec_positions()
                    &&& geometry.spec_indices() == indices@
                    &&& geometry.well_formed()
                    &&& forall|i: int| 0 <= i < indices@.len() ==> indices@[i] < self.spec_positions().len()
                },
                Err(GeometryError::IndexOutOfBounds { index, vertex_count }) => {
                    &&& vertex_count == self.spec_positions().len()
                    &&& exists|k: int|
                        first_out_of_bounds(indices@, self.spec_positions().len(), k)
                            && indices@[k] == index
                },
            },
    {
        let vertex_count = self.positions.len();
        let mut i: usize = 0;
        while i < indices.len()
            invariant
                i <= indices@.len(),
                vertex_count == self.positions@.len(),
                forall|j: int| 0 <= j < i ==> indices@[j] < vertex_count,
            decreases indices@.len() - i,
        {
            let index = indices[i];
            if index as usize >= vertex_count {
                assert(first_out_of_bounds(indices@, self.positions@.len(), i as int));
                return Err(GeometryError::IndexOutOfBounds { index, vertex_count });
            }
            i = i + 1;
        }
        let mut geometry = self;
        geometry.indices = indices;
        Ok(geometry)
    }

    /// Returns the vertex positions.
    pub fn positions(&self) -> (positions: &[[u32; 3]])
        ensures
            positions@ == self.spec_positions(),
    {
        self.positions.as_slice()
    }

    /// Returns the triangle indices, or an empty slice for non-indexed geometry.
    pub fn indices(&self) -> (indices: &[u32])
        ensures
            indices@ == self.spec_indices(),
    {
        self.indices.as_slice()
    }

    /// Reports whether this geometry uses an index buffer.
    pub fn is_indexed(&self) -> (indexed: bool)
        ensures
            indexed == (self.spec_indices().len() > 0),
    {
        self.indices.len() != 0
    }
}

/// Why a basic material color was rejected.
#[derive(Clone, Copy, Debug, PartialEq, Eq, Structural)]
pub enum BasicMaterialError {
    /// A color component was NaN or infinite.
    NonFinite {
        /// Zero-based RGBA component index.
        component: usize,
    },
    /// A finite color component was outside the unit interval.
    OutOfRange {
        /// Zero-based RGBA component index.
        component: usize,
    },
}

/// The rejection of the first invalid color component at or after `from`,
/// each component checked for finiteness and then for `[0, 1]`.
pub open spec fn color_error_from(color: [u32; 4], from: int) -> Option<BasicMaterialError>
    decreases 4 - from,
{
    if from < 0 || from >= 4 {
        None
    } else if !spec_is_finite(color[from]) {
        Some(BasicMaterialError::NonFinite { component: from as usize })
    } else if !spec_in_unit_interval(color[from]) {
        Some(BasicMaterialError::OutOfRange { component: from as usize })
    } else {
        color_error_from(color, from + 1)
    }
}

/// A minimal unlit material with a finite linear RGBA base color in `[0, 1]`.
#[derive(Clone, Debug, PartialEq)]
pub struct BasicMaterial {
    base_color: [u32; 4],
}

impl BasicMaterial {
    /// The base color bit patterns.
    pub closed spec fn spec_base_color(&self) -> [u32; 4] {
        self.base_color
    }

    /// Creates a basic material after checking each base color component,
    /// in RGBA order, is finite and then within `[0, 1]`.
    pub fn new(base_color: [u32; 4]) -> (result: Result<Self, BasicMaterialError>)
        ensures
            match color_error_from(base_color, 0) {
                Some(error) => result == Err::<Self, _>(error),
                None => result matches Ok(material) && material.spec_base_color() == base_color,
            },
            result is Ok <==> forall|c: int|
                0 <= c < 4 ==> spec_is_finite(#[trigger] base_color[c]) && spec_in_unit_interval(
                    base_color[c],
                ),
    {
        let mut component: usize = 0;
        while component < 4
            invariant
                component <= 4,
                color_error_from(base_color, 0) == color_error_from(base_color, component as int),
                forall|c: int|
                    0 <= c < component ==> spec_is_finite(#[trigger] base_color[c])
                        && spec_in_unit_interval(base_color[c]),
            decreases 4 - component,
        {
            let value = base_color[component];
            if !is_finite(value) {
                return Err(BasicMaterialError::NonFinite { component });
            }
            if !in_unit_interval(value) {
                return Err(BasicMaterialError::OutOfRange { component });
            }
            component = component + 1;
        }
        Ok(Self { base_color })
    }

    /// Returns the linear RGBA base color.
    pub fn base_color(&self) -> (base_color: [u32; 4])
        ensures
            base_color == self.spec_base_color(),
    {
        self.base_color
    }
}

impl Default for BasicMaterial {
    /// Opaque white.
    fn default() -> (material: Self)
        ensures
            material.spec_base_color() == [ONE_BITS, ONE_BITS, ONE_BITS, ONE_BITS],
    {
        Self { base_color: [ONE_BITS, ONE_BITS, ONE_BITS, ONE_BITS] }
    }
}

/// A renderable geometry and material pair.
#[derive(Clone, Debug, PartialEq)]
pub struct Mesh {
    geometry: Geometry,
    material: BasicMaterial,
}

impl Mesh {
    /// The mesh geometry.
    pub closed spec fn spec_geometry(&self) -> Geometry {
        self.geometry
    }

    /// The mesh material.
    pub closed spec fn spec_material(&self) -> BasicMaterial {
        self.material
    }

    /// Creates a mesh from geometry and a basic material.
    pub fn new(geometry: Geometry, material: BasicMaterial) -> (mesh: Self)
        ensures
            mesh.spec_geometry() == geometry,
            mesh.spec_material() == material,
    {
        Self { geometry, material }
    }

    /// Returns this mesh's geometry.
    pub fn geometry(&self) -> (geometry: &Geometry)
        ensures
            *geometry == self.spec_geometry(),
    {
        &self.geometry
    }

    /// Returns this mesh's material.
    pub fn material(&self) -> (material: &BasicMaterial)
        ensures
            *material == self.spec_material(),
    {
        &self.material
    }
}

/// Why a column-major matrix is not a model-to-world placement.
#[derive(Clone, Copy, Debug, PartialEq, Eq, Structural)]
pub enum ModelTransformError {
    /// An element was NaN or infinite.
    NonFinite,
    /// The bottom row was not `[0, 0, 0, 1]`.
    NonAffine,
}

/// The binary32 value is `+0.0` or `-0.0`.
pub open spec fn spec_is_zero(bits: u32) -> bool {
    bits == 0 || bits == 0x8000_0000
}

/// The bottom row of the column-major matrix is `[0, 0, 0, 1]`: the fourth
/// component of the first three columns is zero and that of the last is one.
pub open spec fn spec_is_affine(columns: [[u32; 4]; 4]) -> bool {
    &&& spec_is_zero(columns[0][3])
    &&& spec_is_zero(columns[1][3])
    &&& spec_is_zero(columns[2][3])
    &&& columns[3][3] == ONE_BITS
}

/// A placement's bottom row is exactly `[0, 0, 0, 1]`: the fourth component
/// of each of the first three columns is `+0.0` or `-0.0` and that of the
/// last column is `1.0`. Any other bottom row, in any of the four columns,
/// makes a finite matrix no placement, so `from_column_major` rejects it with
/// `NonAffine`.
pub proof fn lemma_placement_bottom_row(columns: [[u32; 4]; 4], c: int)
    ensures
        spec_is_affine(columns) <==> (forall|k: int|
            0 <= k < 3 ==> (#[trigger] columns[k][3] == 0u32 || columns[k][3] == 0x8000_0000u32))
            && columns[3][3] == 0x3f80_0000u32,
        0 <= c < 3 && columns[c][3] != 0u32 && columns[c][3] != 0x8000_0000u32 ==> !spec_is_affine(
            columns,
        ),
        columns[3][3] != 0x3f80_0000u32 ==> !spec_is_affine(columns),
{
    if spec_is_affine(columns) {
        assert forall|k: int| 0 <= k < 3 implies (#[trigger] columns[k][3] == 0u32 || columns[k][3]
            == 0x8000_0000u32) by {
            if k == 0 {
            } else if k == 1 {
            } else {
            }
        }
    }
    if (forall|k: int| 0 <= k < 3 ==> (#[trigger] columns[k][3] == 0u32 || columns[k][3]
        == 0x8000_0000u32)) && columns[3][3] == 0x3f80_0000u32 {
        assert(columns[0][3] == 0u32 || columns[0][3] == 0x8000_0000u32);
        assert(columns[1][3] == 0u32 || columns[1][3] == 0x8000_0000u32);
        assert(columns[2][3] == 0u32 || columns[2][3] == 0x8000_0000u32);
    }
}

/// A finite affine model-to-world placement, as column-major binary32 bit
/// patterns.
#[derive(Clone, Copy, Debug, PartialEq)]
pub struct ModelTransform {
    world_from_model: [[u32; 4]; 4],
}

impl ModelTransform {
    /// The identity placement.
    pub fn identity() -> (transform: Self)
        ensures
            transform.spec_world_from_model() == identity_bits(),
    {
        Self {
            world_from_model: [
                [ONE_BITS, 0, 0, 0],
                [0, ONE_BITS, 0, 0],
                [0, 0, ONE_BITS, 0],
                [0, 0, 0, ONE_BITS],
            ],
        }
    }

    /// The column-major world-from-model matrix.
    pub closed spec fn spec_world_from_model(&self) -> [[u32; 4]; 4] {
        self.world_from_model
    }

    /// Validates a column-major matrix: every element finite, then an affine
    /// bottom row.
    pub fn from_column_major(columns: [[u32; 4]; 4]) -> (result: Result<Self, ModelTransformError>)
        ensures
            !crate::frame_uniform::matrix_finite(columns) ==> result == Err::<Self, _>(
                ModelTransformError::NonFinite,
            ),
            crate::frame_uniform::matrix_finite(columns) && !spec_is_affine(columns) ==> result
                == Err::<Self, _>(ModelTransformError::NonAffine),
            crate::frame_uniform::matrix_finite(columns) && spec_is_affine(columns) ==> (result
                matches Ok(transform) && transform.spec_world_from_model() == columns),
    {
        if !crate::frame_uniform::matrix_all_finite(&columns) {
            return Err(ModelTransformError::NonFinite);
        }
        let affine = is_zero(columns[0][3]) && is_zero(columns[1][3]) && is_zero(columns[2][3])
            && columns[3][3] == ONE_BITS;
        if !affine {
            return Err(ModelTransformError::NonAffine);
        }
        Ok(Self { world_from_model: columns })
    }

    /// Returns the column-major world-from-model matrix.
    pub fn world_from_model(&self) -> (columns: [[u32; 4]; 4])
        ensures
            columns == self.spec_world_from_model(),
    {
        self.world_from_model
    }
}

/// Reports whether the binary32 value with bit pattern `bits` is a zero.
fn is_zero(bits: u32) -> (zero: bool)
    ensures
        zero == spec_is_zero(bits),
{
    bits == 0 || bits == 0x8000_0000
}

impl Default for ModelTransform {
    /// The identity placement.
    fn default() -> (transform: Self)
        ensures
            transform.spec_world_from_model() == identity_bits(),
    {
        Self::identity()
    }
}

/// A borrowed mesh scheduled for a future renderer submission.
#[derive(Clone, Copy, Debug)]
pub struct DrawItem<'a> {
    mesh: &'a Mesh,
    transform: ModelTransform,
}

impl<'a> DrawItem<'a> {
    /// The scheduled mesh.
    pub closed spec fn spec_mesh(self) -> Mesh {
        *self.mesh
    }

    /// The mesh's model-to-world placement.
    pub closed spec fn spec_transform(self) -> ModelTransform {
        self.transform
    }

    /// Returns the mesh selected by this draw item.
    pub fn mesh(self) -> (mesh: &'a Mesh)
        ensures
            *mesh == self.spec_mesh(),
    {
        self.mesh
    }

    /// Returns the mesh's model-to-world placement.
    pub fn transform(self) -> (transform: ModelTransform)
        ensures
            transform == self.spec_transform(),
    {
        self.transform
    }
}

/// An insertion-ordered list of meshes to draw for one camera.
#[derive(Clone, Debug)]
pub struct DrawList<'a> {
    camera: &'a Camera,
    items: Vec<DrawItem<'a>>,
}

impl<'a> DrawList<'a> {
    /// The list's camera.
    pub closed spec fn spec_camera(&self) -> Camera {
        *self.camera
    }

    /// The scheduled meshes in submission order.
    pub closed spec fn spec_meshes(&self) -> Seq<Mesh> {
        self.items@.map_values(|item: DrawItem<'a>| item.spec_mesh())
    }

    /// The placements of the scheduled meshes, in submission order.
    pub closed spec fn spec_transforms(&self) -> Seq<[[u32; 4]; 4]> {
        self.items@.map_values(|item: DrawItem<'a>| item.spec_transform().spec_world_from_model())
    }

    /// Creates an empty draw list for `camera`.
    pub fn new(camera: &'a Camera) -> (list: Self)
        ensures
            list.spec_camera() == *camera,
            list.spec_meshes() == Seq::<Mesh>::empty(),
            list.spec_transforms() == Seq::<[[u32; 4]; 4]>::empty(),
    {
        let list = Self { camera, items: Vec::new() };
        assert(list.spec_meshes() =~= Seq::<Mesh>::empty());
        assert(list.spec_transforms() =~= Seq::<[[u32; 4]; 4]>::empty());
        list
    }

    /// Returns the camera supplied when this list was created.
    pub fn camera(&self) -> (camera: &'a Camera)
        ensures
            *camera == self.spec_camera(),
    {
        self.camera
    }

    /// Appends `mesh` at the identity placement after all existing items.
    pub fn push(&mut self, mesh: &'a Mesh)
        ensures
            final(self).spec_camera() == old(self).spec_camera(),
            final(self).spec_meshes() == old(self).spec_meshes().push(*mesh),
            final(self).spec_transforms() == old(self).spec_transforms().push(identity_bits()),
    {
        self.push_transformed(mesh, ModelTransform::identity());
    }

    /// Appends `mesh` at the placement `transform` after all existing items.
    pub fn push_transformed(&mut self, mesh: &'a Mesh, transform: ModelTransform)
        ensures
            final(self).spec_camera() == old(self).spec_camera(),
            final(self).spec_meshes() == old(self).spec_meshes().push(*mesh),
            final(self).spec_transforms() == old(self).spec_transforms().push(
                transform.spec_world_from_model(),
            ),
    {
        self.items.push(DrawItem { mesh, transform });
        assert(self.spec_meshes() =~= old(self).spec_meshes().push(*mesh));
        assert(self.spec_transforms() =~= old(self).spec_transforms().push(
            transform.spec_world_from_model(),
        ));
    }

    /// Returns the scheduled items in submission order.
    pub fn iter(&self) -> (items: Vec<DrawItem<'a>>)
        ensures
            items@.map_values(|item: DrawItem<'a>| item.spec_mesh()) == self.spec_meshes(),
            items@.map_values(|item: DrawItem<'a>| item.spec_transform().spec_world_from_model())
                == self.spec_transforms(),
    {
        let mut items: Vec<DrawItem<'a>> = Vec::new();
        let mut i: usize = 0;
        while i < self.items.len()
            invariant
                i <= self.items@.len(),
                items@ == self.items@.subrange(0, i as int),
            decreases self.items@.len() - i,
        {
            items.push(self.items[i]);
            i = i + 1;
            assert(items@ =~= self.items@.subrange(0, i as int));
        }
        assert(items@ =~= self.items@);
        items
    }

    /// Returns the number of scheduled items.
    pub fn len(&self) -> (len: usize)
        ensures
            len == self.spec_meshes().len(),
    {
        self.items.len()
    }

    /// Reports whether no meshes are scheduled.
    pub fn is_empty(&self) -> (empty: bool)
        ensures
            empty == (self.spec_meshes().len() == 0),
    {
        self.items.len() == 0
    }
}

/// When every component before `c` is valid, the rejection of a color is
/// decided from component `c` on.
proof fn lemma_color_valid_prefix(color: [u32; 4], c: int)
    requires
        0 <= c <= 4,
        forall|k: int|
            0 <= k < c ==> spec_is_finite(#[trigger] color[k]) && spec_in_unit_interval(color[k]),
    ensures
        color_error_from(color, 0) == color_error_from(color, c),
    decreases c,
{
    if c > 0 {
        lemma_color_valid_prefix(color, c - 1);
    }
}

/// A base color is rejected at its first invalid component, in RGBA order:
/// if every component before `c` is finite and within `[0, 1]`, a
/// non-finite component `c` is `NonFinite { component: c }` and a finite one
/// outside `[0, 1]` is `OutOfRange { component: c }`; a color whose four
/// components are all valid is accepted.
pub proof fn lemma_color_rejects_first_invalid_component(color: [u32; 4], c: int)
    ensures
        0 <= c < 4 && (forall|k: int|
            0 <= k < c ==> spec_is_finite(#[trigger] color[k]) && spec_in_unit_interval(color[k]))
            ==> {
            &&& !spec_is_finite(color[c]) ==> color_error_from(color, 0) == Some(
                BasicMaterialError::NonFinite { component: c as usize },
            )
            &&& spec_is_finite(color[c]) && !spec_in_unit_interval(color[c]) ==> color_error_from(
                color,
                0,
            ) == Some(BasicMaterialError::OutOfRange { component: c as usize })
        },
        (forall|k: int|
            0 <= k < 4 ==> spec_is_finite(#[trigger] color[k]) && spec_in_unit_interval(color[k]))
            ==> color_error_from(color, 0) is None,
{
    if 0 <= c < 4 && (forall|k: int|
        0 <= k < c ==> spec_is_finite(#[trigger] color[k]) && spec_in_unit_interval(color[k])) {
        lemma_color_valid_prefix(color, c);
    }
    if forall|k: int|
        0 <= k < 4 ==> spec_is_finite(#[trigger] color[k]) && spec_in_unit_interval(color[k]) {
        lemma_color_valid_prefix(color, 4);
    }
}

/// An index stream that names a missing vertex has a first such index: one
/// not below the vertex count with every earlier index below it.
pub proof fn lemma_out_of_bounds_index_has_a_first(indices: Seq<u32>, vertex_count: nat, k: int)
    requires
        0 <= k < indices.len(),
        indices[k] >= vertex_count,
    ensures
        exists|f: int| #[trigger] first_out_of_bounds(indices, vertex_count, f) && f <= k,
    decreases k,
{
    if forall|j: int| 0 <= j < k ==> indices[j] < vertex_count {
        assert(first_out_of_bounds(indices, vertex_count, k));
    } else {
        let j = choose|j: int| 0 <= j < k && !(indices[j] < vertex_count);
        lemma_out_of_bounds_index_has_a_first(indices, vertex_count, j);
    }
}

} // verus!
