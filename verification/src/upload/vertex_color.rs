//! CPU-side geometry, encoded-color, and tint contracts for vertex-color draws.

use vstd::prelude::*;
use vstd::string::StringExecFns;

use crate::debug_text::{decimal, push_decimal, text_of};

use crate::bits::{in_unit_interval, is_finite, spec_in_unit_interval, spec_is_finite};
use crate::scene::Geometry;
use crate::upload::payload::{
    encode_positions, encode_words, lemma_position_bytes_len, lemma_word_bytes_len,
    position_bytes, word_bytes,
};

verus! {

/// A logical stream in the closed vertex-color mesh ABI.
#[derive(Clone, Copy, Debug, PartialEq, Eq, Structural)]
pub enum VertexColorGeometryStream {
    /// Tightly packed `f32x3` positions.
    Position,
    /// Raw encoded linear `UNORM8x4` colors.
    Color,
    /// Tightly packed `u32` triangle indices.
    Index,
}

/// Why [`VertexColorGeometry`] cannot be constructed.
#[derive(Clone, Debug, PartialEq, Eq, Structural)]
pub enum VertexColorGeometryError {
    /// There are no vertex positions.
    EmptyPositions,
    /// The geometry has no index stream.
    MissingIndices,
    /// The index stream cannot describe complete triangles.
    NonTriangleIndexCount {
        /// Number of supplied indices.
        index_count: usize,
    },
    /// Color and position streams have differing vertex counts.
    ColorCountMismatch {
        /// Number of positions.
        positions: usize,
        /// Number of colors.
        colors: usize,
    },
    /// A stream count cannot fit the closed ABI.
    CountOutOfRange {
        /// Stream with the oversized count.
        stream: VertexColorGeometryStream,
        /// Original count.
        count: usize,
    },
    /// A stream byte length cannot be represented exactly.
    ByteLengthOverflow {
        /// Stream whose byte length overflowed.
        stream: VertexColorGeometryStream,
    },
}

/// Why one stream of `count` elements of `stride` bytes does not fit the
/// closed upload ABI: a `u32` element count and a representable byte length.
pub open spec fn vertex_color_stream_error(
    stream: VertexColorGeometryStream,
    count: nat,
    stride: nat,
) -> Option<VertexColorGeometryError> {
    if count > u32::MAX {
        Some(VertexColorGeometryError::CountOutOfRange { stream, count: count as usize })
    } else if count * stride > usize::MAX {
        Some(VertexColorGeometryError::ByteLengthOverflow { stream })
    } else {
        None
    }
}

/// The first stream, in position, color, index order, that does not fit the
/// closed upload ABI.
pub open spec fn vertex_color_lengths_error(
    positions: nat,
    colors: nat,
    indices: nat,
) -> Option<VertexColorGeometryError> {
    if vertex_color_stream_error(VertexColorGeometryStream::Position, positions, 12) is Some {
        vertex_color_stream_error(VertexColorGeometryStream::Position, positions, 12)
    } else if vertex_color_stream_error(VertexColorGeometryStream::Color, colors, 4) is Some {
        vertex_color_stream_error(VertexColorGeometryStream::Color, colors, 4)
    } else {
        vertex_color_stream_error(VertexColorGeometryStream::Index, indices, 4)
    }
}

/// Why `geometry` with `colors` is not a closed vertex-color mesh, checked
/// in order: positions, indices, whole triangles, color count, stream sizes.
pub open spec fn vertex_color_geometry_error(geometry: Geometry, colors: Seq<[u8; 4]>) -> Option<
    VertexColorGeometryError,
> {
    let positions = geometry.spec_positions().len();
    let indices = geometry.spec_indices().len();
    if positions == 0 {
        Some(VertexColorGeometryError::EmptyPositions)
    } else if indices == 0 {
        Some(VertexColorGeometryError::MissingIndices)
    } else if indices % 3 != 0 {
        Some(VertexColorGeometryError::NonTriangleIndexCount { index_count: indices as usize })
    } else if colors.len() != positions {
        Some(
            VertexColorGeometryError::ColorCountMismatch {
                positions: positions as usize,
                colors: colors.len() as usize,
            },
        )
    } else {
        vertex_color_lengths_error(positions, colors.len(), indices)
    }
}

/// Checks one stream against the closed upload ABI.
fn check_vertex_color_stream(stream: VertexColorGeometryStream, count: usize, stride: usize) -> (result:
    Result<(), VertexColorGeometryError>)
    requires
        stride == 4 || stride == 12,
    ensures
        match vertex_color_stream_error(stream, count as nat, stride as nat) {
            Some(error) => result == Err::<(), _>(error),
            None => result is Ok,
        },
{
    if count > u32::MAX as usize {
        return Err(VertexColorGeometryError::CountOutOfRange { stream, count });
    }
    if count.checked_mul(stride).is_none() {
        return Err(VertexColorGeometryError::ByteLengthOverflow { stream });
    }
    Ok(())
}

/// The three streams' sizes fit the closed upload ABI.
pub fn validate_vertex_color_lengths(geometry: &Geometry, colors: &[[u8; 4]]) -> (result: Result<
    (),
    VertexColorGeometryError,
>)
    ensures
        match vertex_color_lengths_error(
            geometry.spec_positions().len(),
            colors@.len(),
            geometry.spec_indices().len(),
        ) {
            Some(error) => result == Err::<(), _>(error),
            None => result is Ok,
        },
{
    check_vertex_color_stream(VertexColorGeometryStream::Position, geometry.positions().len(), 12)?;
    check_vertex_color_stream(VertexColorGeometryStream::Color, colors.len(), 4)?;
    check_vertex_color_stream(VertexColorGeometryStream::Index, geometry.indices().len(), 4)
}

/// Indexed geometry with one encoded linear RGBA8 color per position.
#[derive(Debug, PartialEq)]
pub struct VertexColorGeometry {
    geometry: Geometry,
    colors: Vec<[u8; 4]>,
}

impl VertexColorGeometry {
    /// The owned indexed geometry.
    pub closed spec fn spec_geometry(&self) -> Geometry {
        self.geometry
    }

    /// The encoded per-vertex colors.
    pub closed spec fn spec_colors(&self) -> Seq<[u8; 4]> {
        self.colors@
    }

    /// A closed vertex-color mesh: no construction error applies.
    #[verifier::type_invariant]
    pub closed spec fn well_formed(&self) -> bool {
        vertex_color_geometry_error(self.geometry, self.colors@) is None
    }

    /// Validates the closed position/color/index stream shape; the first
    /// failing check, in the order of [`vertex_color_geometry_error`], is
    /// reported.
    pub fn new(geometry: Geometry, colors: Vec<[u8; 4]>) -> (result: Result<
        Self,
        VertexColorGeometryError,
    >)
        ensures
            match vertex_color_geometry_error(geometry, colors@) {
                Some(error) => result == Err::<Self, _>(error),
                None => result matches Ok(mesh) && mesh.spec_geometry() == geometry
                    && mesh.spec_colors() == colors@,
            },
    {
        let position_count = geometry.positions().len();
        let index_count = geometry.indices().len();
        if position_count == 0 {
            return Err(VertexColorGeometryError::EmptyPositions);
        }
        if !geometry.is_indexed() {
            return Err(VertexColorGeometryError::MissingIndices);
        }
        if index_count % 3 != 0 {
            return Err(VertexColorGeometryError::NonTriangleIndexCount { index_count });
        }
        if colors.len() != position_count {
            return Err(
                VertexColorGeometryError::ColorCountMismatch {
                    positions: position_count,
                    colors: colors.len(),
                },
            );
        }
        validate_vertex_color_lengths(&geometry, colors.as_slice())?;
        Ok(Self { geometry, colors })
    }

    /// Returns the owned indexed geometry.
    pub fn geometry(&self) -> (geometry: &Geometry)
        ensures
            *geometry == self.spec_geometry(),
    {
        &self.geometry
    }

    /// Returns encoded linear RGBA8 colors exactly as they will be uploaded.
    pub fn colors(&self) -> (colors: &[[u8; 4]])
        ensures
            colors@ == self.spec_colors(),
    {
        self.colors.as_slice()
    }
}

/// Why [`VertexColorMaterial`] cannot be constructed.
#[derive(Clone, Copy, Debug, PartialEq, Eq, Structural)]
pub enum VertexColorMaterialError {
    /// A tint component was NaN or infinite.
    NonFinite {
        /// Zero-based RGBA component index.
        component: usize,
    },
    /// A finite tint component was outside the unit interval.
    OutOfRange {
        /// Zero-based RGBA component index.
        component: usize,
    },
}

/// A component is acceptable as a tint: finite and within `[0, 1]`.
pub open spec fn valid_tint_component(bits: u32) -> bool {
    spec_is_finite(bits) && spec_in_unit_interval(bits)
}

/// The rejection of the first invalid tint component at or after `from`.
pub open spec fn tint_error_from(tint: [u32; 4], from: int) -> Option<VertexColorMaterialError>
    decreases 4 - from,
{
    if from < 0 || from >= 4 {
        None
    } else if !spec_is_finite(tint[from]) {
        Some(VertexColorMaterialError::NonFinite { component: from as usize })
    } else if !spec_in_unit_interval(tint[from]) {
        Some(VertexColorMaterialError::OutOfRange { component: from as usize })
    } else {
        tint_error_from(tint, from + 1)
    }
}

/// A finite, linear RGBA tint for the closed vertex-color recipe.
#[derive(Clone, Copy, Debug, PartialEq, Eq)]
pub struct VertexColorMaterial {
    tint: [u32; 4],
}

impl VertexColorMaterial {
    /// The tint bit patterns.
    pub closed spec fn spec_tint(&self) -> [u32; 4] {
        self.tint
    }

    /// Creates a material after checking each linear tint component, in
    /// RGBA order, is finite and then within `[0, 1]`.
    pub fn new(tint: [u32; 4]) -> (result: Result<Self, VertexColorMaterialError>)
        ensures
            match tint_error_from(tint, 0) {
                Some(error) => result == Err::<Self, _>(error),
                None => result matches Ok(material) && material.spec_tint() == tint,
            },
            result is Ok <==> forall|c: int| 0 <= c < 4 ==> valid_tint_component(#[trigger] tint[c]),
    {
        let mut component: usize = 0;
        while component < 4
            invariant
                component <= 4,
                tint_error_from(tint, 0) == tint_error_from(tint, component as int),
                forall|c: int| 0 <= c < component ==> valid_tint_component(#[trigger] tint[c]),
            decreases 4 - component,
        {
            let value = tint[component];
            if !is_finite(value) {
                return Err(VertexColorMaterialError::NonFinite { component });
            }
            if !in_unit_interval(value) {
                return Err(VertexColorMaterialError::OutOfRange { component });
            }
            component = component + 1;
        }
        Ok(Self { tint })
    }

    /// Returns the validated linear RGBA tint.
    pub fn tint(&self) -> (tint: &[u32; 4])
        ensures
            *tint == self.spec_tint(),
    {
        &self.tint
    }
}

/// The encoded colors flattened to bytes, in vertex order.
pub open spec fn color_bytes(colors: Seq<[u8; 4]>) -> Seq<u8>
    decreases colors.len(),
{
    if colors.len() == 0 {
        Seq::empty()
    } else {
        let last = colors.last();
        color_bytes(colors.drop_last()) + seq![last[0], last[1], last[2], last[3]]
    }
}

/// The position, color, and index upload payloads of one vertex-color mesh.
pub struct VertexColorMeshPayload {
    /// Tightly packed little-endian `f32x3` positions.
    pub positions: Vec<u8>,
    /// Raw encoded `UNORM8x4` colors.
    pub colors: Vec<u8>,
    /// Tightly packed little-endian `u32` indices.
    pub indices: Vec<u8>,
    /// Number of vertex positions.
    pub position_count: u32,
    /// Number of indices.
    pub index_count: u32,
}

impl VertexColorMeshPayload {
    /// Serializes the three streams of a validated vertex-color mesh.
    pub fn from_geometry(geometry: &VertexColorGeometry) -> (result: Result<
        Self,
        VertexColorGeometryError,
    >)
        ensures
            result matches Ok(payload) && {
                let mesh = geometry.spec_geometry();
                &&& payload.positions@ == position_bytes(mesh.spec_positions())
                &&& payload.colors@ == color_bytes(geometry.spec_colors())
                &&& payload.indices@ == word_bytes(mesh.spec_indices())
                &&& payload.position_count == mesh.spec_positions().len()
                &&& payload.index_count == mesh.spec_indices().len()
                &&& payload.positions@.len() == 12 * mesh.spec_positions().len()
                &&& payload.indices@.len() == 4 * mesh.spec_indices().len()
            },
    {
        proof {
            use_type_invariant(geometry);
        }
        validate_vertex_color_lengths(&geometry.geometry, geometry.colors.as_slice())?;
        let positions = geometry.geometry.positions();
        let indices = geometry.geometry.indices();
        let position_bytes = encode_positions(positions);
        let index_bytes = encode_words(indices);
        let mut colors: Vec<u8> = Vec::new();
        let mut i: usize = 0;
        while i < geometry.colors.len()
            invariant
                i <= geometry.colors@.len(),
                colors@ == color_bytes(geometry.colors@.subrange(0, i as int)),
            decreases geometry.colors@.len() - i,
        {
            let color = geometry.colors[i];
            colors.push(color[0]);
            colors.push(color[1]);
            colors.push(color[2]);
            colors.push(color[3]);
            proof {
                let next = geometry.colors@.subrange(0, i + 1);
                assert(next.drop_last() =~= geometry.colors@.subrange(0, i as int));
                assert(next.last() == color);
                assert(colors@ =~= color_bytes(next));
            }
            i = i + 1;
        }
        assert(geometry.colors@.subrange(0, geometry.colors@.len() as int) =~= geometry.colors@);
        proof {
            lemma_position_bytes_len(positions@);
            lemma_word_bytes_len(indices@);
        }
        Ok(Self {
            positions: position_bytes,
            colors,
            indices: index_bytes,
            position_count: positions.len() as u32,
            index_count: indices.len() as u32,
        })
    }
}

/// The debug name of a vertex-color geometry stream.
pub open spec fn vertex_color_stream_name(stream: VertexColorGeometryStream) -> Seq<char> {
    match stream {
        VertexColorGeometryStream::Position => "Position"@,
        VertexColorGeometryStream::Color => "Color"@,
        VertexColorGeometryStream::Index => "Index"@,
    }
}

impl VertexColorGeometryStream {
    /// The debug text of this stream: its variant name.
    pub fn debug_name(&self) -> (name: &'static str)
        ensures
            name@ == vertex_color_stream_name(*self),
    {
        match self {
            VertexColorGeometryStream::Position => "Position",
            VertexColorGeometryStream::Color => "Color",
            VertexColorGeometryStream::Index => "Index",
        }
    }
}

/// The message of a vertex-color geometry construction error.
pub open spec fn vertex_color_geometry_error_message(error: VertexColorGeometryError) -> Seq<char> {
    match error {
        VertexColorGeometryError::EmptyPositions => "vertex-color geometry positions are empty"@,
        VertexColorGeometryError::MissingIndices => "vertex-color geometry has no indices"@,
        VertexColorGeometryError::NonTriangleIndexCount { index_count } =>
            "vertex-color geometry has "@ + decimal(index_count as nat)
            + " indices, not a whole number of triangles"@,
        VertexColorGeometryError::ColorCountMismatch { positions, colors } =>
            "vertex-color geometry has "@ + decimal(colors as nat) + " colors for "@ + decimal(
            positions as nat,
        ) + " positions"@,
        VertexColorGeometryError::CountOutOfRange { stream, count } => "vertex-color geometry "@
            + vertex_color_stream_name(stream) + " count "@ + decimal(count as nat)
            + " exceeds the closed upload ABI"@,
        VertexColorGeometryError::ByteLengthOverflow { stream } => "vertex-color geometry "@
            + vertex_color_stream_name(stream) + " payload length overflows"@,
    }
}

impl VertexColorGeometryError {
    /// The human-readable description of this error.
    pub fn message(&self) -> (text: String)
        ensures
            text@ == vertex_color_geometry_error_message(*self),
    {
        match self {
            VertexColorGeometryError::EmptyPositions => text_of(
                "vertex-color geometry positions are empty",
            ),
            VertexColorGeometryError::MissingIndices => text_of("vertex-color geometry has no indices"),
            VertexColorGeometryError::NonTriangleIndexCount { index_count } => {
                let mut text = text_of("vertex-color geometry has ");
                push_decimal(&mut text, *index_count as u64);
                text.append(" indices, not a whole number of triangles");
                text
            },
            VertexColorGeometryError::ColorCountMismatch { positions, colors } => {
                let mut text = text_of("vertex-color geometry has ");
                push_decimal(&mut text, *colors as u64);
                text.append(" colors for ");
                push_decimal(&mut text, *positions as u64);
                text.append(" positions");
                text
            },
            VertexColorGeometryError::CountOutOfRange { stream, count } => {
                let mut text = text_of("vertex-color geometry ");
                text.append(stream.debug_name());
                text.append(" count ");
                push_decimal(&mut text, *count as u64);
                text.append(" exceeds the closed upload ABI");
                text
            },
            VertexColorGeometryError::ByteLengthOverflow { stream } => {
                let mut text = text_of("vertex-color geometry ");
                text.append(stream.debug_name());
                text.append(" payload length overflows");
                text
            },
        }
    }
}

/// The message of a vertex-color tint error.
pub open spec fn vertex_color_material_error_message(error: VertexColorMaterialError) -> Seq<char> {
    match error {
        VertexColorMaterialError::NonFinite { component } => "vertex-color tint component "@
            + decimal(component as nat) + " is non-finite"@,
        VertexColorMaterialError::OutOfRange { component } => "vertex-color tint component "@
            + decimal(component as nat) + " is outside [0, 1]"@,
    }
}

impl VertexColorMaterialError {
    /// The human-readable description of this error.
    pub fn message(&self) -> (text: String)
        ensures
            text@ == vertex_color_material_error_message(*self),
    {
        let mut text = text_of("vertex-color tint component ");
        match self {
            VertexColorMaterialError::NonFinite { component } => {
                push_decimal(&mut text, *component as u64);
                text.append(" is non-finite");
            },
            VertexColorMaterialError::OutOfRange { component } => {
                push_decimal(&mut text, *component as u64);
                text.append(" is outside [0, 1]");
            },
        }
        text
    }
}

/// When every component before `c` is valid, the rejection of a tint is
/// decided from component `c` on.
proof fn lemma_tint_valid_prefix(tint: [u32; 4], c: int)
    requires
        0 <= c <= 4,
        forall|k: int| 0 <= k < c ==> #[trigger] valid_tint_component(tint[k]),
    ensures
        tint_error_from(tint, 0) == tint_error_from(tint, c),
    decreases c,
{
    if c > 0 {
        assert(valid_tint_component(tint[c - 1]));
        lemma_tint_valid_prefix(tint, c - 1);
    }
}

/// A tint is rejected at its first invalid component, in RGBA order: with
/// every earlier component finite and within `[0, 1]`, a non-finite
/// component `c` is `NonFinite { component: c }` and a finite one outside
/// `[0, 1]` is `OutOfRange { component: c }`; four valid components are
/// accepted.
pub proof fn lemma_tint_rejects_first_invalid_component(tint: [u32; 4], c: int)
    ensures
        0 <= c < 4 && (forall|k: int|
            0 <= k < c ==> spec_is_finite(#[trigger] tint[k]) && spec_in_unit_interval(tint[k])) ==> {
            &&& !spec_is_finite(tint[c]) ==> tint_error_from(tint, 0) == Some(
                VertexColorMaterialError::NonFinite { component: c as usize },
            )
            &&& spec_is_finite(tint[c]) && !spec_in_unit_interval(tint[c]) ==> tint_error_from(
                tint,
                0,
            ) == Some(VertexColorMaterialError::OutOfRange { component: c as usize })
        },
        (forall|k: int|
            0 <= k < 4 ==> spec_is_finite(#[trigger] tint[k]) && spec_in_unit_interval(tint[k]))
            ==> tint_error_from(tint, 0) is None,
{
    if 0 <= c < 4 && (forall|k: int|
        0 <= k < c ==> spec_is_finite(#[trigger] tint[k]) && spec_in_unit_interval(tint[k])) {
        assert forall|k: int| 0 <= k < c implies #[trigger] valid_tint_component(tint[k]) by {
            assert(spec_is_finite(tint[k]));
        }
        lemma_tint_valid_prefix(tint, c);
    }
    if forall|k: int|
        0 <= k < 4 ==> spec_is_finite(#[trigger] tint[k]) && spec_in_unit_interval(tint[k]) {
        assert forall|k: int| 0 <= k < 4 implies #[trigger] valid_tint_component(tint[k]) by {
            assert(spec_is_finite(tint[k]));
        }
        lemma_tint_valid_prefix(tint, 4);
    }
}

/// Vertex-color geometry is checked in order: an empty position stream,
/// then a missing index stream, then an index count that is not a whole
/// number of triangles, then a color count other than the position count;
/// geometry passing these and the stream-size checks is accepted.
pub proof fn lemma_vertex_color_geometry_checks(geometry: Geometry, colors: Seq<[u8; 4]>)
    ensures
        geometry.spec_positions().len() == 0 ==> vertex_color_geometry_error(geometry, colors)
            == Some(VertexColorGeometryError::EmptyPositions),
        geometry.spec_positions().len() > 0 && geometry.spec_indices().len() == 0
            ==> vertex_color_geometry_error(geometry, colors) == Some(
            VertexColorGeometryError::MissingIndices,
        ),
        geometry.spec_positions().len() > 0 && geometry.spec_indices().len() > 0
            && geometry.spec_indices().len() % 3 != 0 ==> vertex_color_geometry_error(geometry, colors)
            == Some(
            VertexColorGeometryError::NonTriangleIndexCount {
                index_count: geometry.spec_indices().len() as usize,
            },
        ),
        geometry.spec_positions().len() > 0 && geometry.spec_indices().len() > 0
            && geometry.spec_indices().len() % 3 == 0 && colors.len()
            != geometry.spec_positions().len() ==> vertex_color_geometry_error(geometry, colors)
            == Some(
            VertexColorGeometryError::ColorCountMismatch {
                positions: geometry.spec_positions().len() as usize,
                colors: colors.len() as usize,
            },
        ),
        vertex_color_geometry_error(geometry, colors) is None ==> geometry.spec_positions().len()
            > 0 && geometry.spec_indices().len() > 0 && geometry.spec_indices().len() % 3 == 0
            && colors.len() == geometry.spec_positions().len() && geometry.spec_positions().len()
            <= u32::MAX && geometry.spec_indices().len() <= u32::MAX,
{
}

/// The packed colors hold four bytes per vertex.
proof fn lemma_color_bytes_len(colors: Seq<[u8; 4]>)
    ensures
        color_bytes(colors).len() == 4 * colors.len(),
    decreases colors.len(),
{
    if colors.len() > 0 {
        lemma_color_bytes_len(colors.drop_last());
    }
}

/// Color channel `k` of vertex `i` is byte `4 * i + k`: the colors are
/// packed tightly, RGBA within each vertex, in vertex order.
pub proof fn lemma_color_bytes_at(colors: Seq<[u8; 4]>, i: int, k: int)
    requires
        0 <= i < colors.len(),
        0 <= k < 4,
    ensures
        color_bytes(colors).len() == 4 * colors.len(),
        color_bytes(colors)[4 * i + k] == colors[i][k],
    decreases colors.len(),
{
    lemma_color_bytes_len(colors);
    let prefix = colors.drop_last();
    lemma_color_bytes_len(prefix);
    let last = colors.last();
    assert(color_bytes(colors) == color_bytes(prefix) + seq![last[0], last[1], last[2], last[3]]);
    if i < colors.len() - 1 {
        lemma_color_bytes_at(prefix, i, k);
    }
}

} // verus!
