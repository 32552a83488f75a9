//! Indexed geometry with one finite `f32x2` texture coordinate per position,
//! and its three-stream upload payload.

use vstd::prelude::*;
use vstd::string::StringExecFns;

use crate::debug_text::{decimal, push_decimal, text_of};

use crate::bits::{is_finite, spec_is_finite};
use crate::scene::Geometry;
use crate::upload::payload::{
    encode_pairs, encode_positions, encode_words, lemma_pair_bytes_len, lemma_position_bytes_len,
    lemma_word_bytes_len, pair_bytes, position_bytes, word_bytes,
};

verus! {

/// The logical stream whose size could not be represented by the textured
/// geometry upload ABI.
#[derive(Clone, Copy, Debug, PartialEq, Eq, Structural)]
pub enum TexturedGeometryStream {
    /// Tightly packed `f32x3` positions.
    Position,
    /// Tightly packed `u32` indices.
    Index,
    /// Tightly packed `f32x2` texture coordinates.
    TextureCoordinate,
}

/// Why [`TexturedGeometry`] cannot be constructed.
#[derive(Clone, Debug, PartialEq, Eq, Structural)]
pub enum TexturedGeometryError {
    /// There are no vertex positions.
    EmptyPositions,
    /// The geometry has no index stream.
    MissingIndices,
    /// An indexed geometry supplied an empty index stream.
    EmptyIndices,
    /// The UV and position streams do not have one entry per vertex.
    TextureCoordinateCountMismatch {
        /// Number of positions.
        positions: usize,
        /// Number of texture coordinates.
        texture_coordinates: usize,
    },
    /// A texture-coordinate component is not finite.
    NonFiniteTextureCoordinate {
        /// Vertex containing the component.
        vertex: usize,
        /// Zero for U and one for V.
        component: usize,
    },
    /// A stream count does not fit the closed upload ABI.
    CountOutOfRange {
        /// Stream whose count failed conversion.
        stream: TexturedGeometryStream,
        /// Original count.
        count: usize,
    },
    /// A stream byte length cannot be represented exactly.
    ByteLengthOverflow {
        /// Stream whose payload length overflowed.
        stream: TexturedGeometryStream,
    },
}

/// Why one stream of `count` elements of `stride` bytes does not fit the
/// closed upload ABI: a `u32` element count and a representable byte length.
pub open spec fn textured_stream_error(
    stream: TexturedGeometryStream,
    count: nat,
    stride: nat,
) -> Option<TexturedGeometryError> {
    if count > u32::MAX {
        Some(TexturedGeometryError::CountOutOfRange { stream, count: count as usize })
    } else if count * stride > usize::MAX {
        Some(TexturedGeometryError::ByteLengthOverflow { stream })
    } else {
        None
    }
}

/// The first stream, in position, index, texture-coordinate order, that
/// does not fit the closed upload ABI.
pub open spec fn textured_lengths_error(
    positions: nat,
    indices: nat,
    coordinates: nat,
) -> Option<TexturedGeometryError> {
    if textured_stream_error(TexturedGeometryStream::Position, positions, 12) is Some {
        textured_stream_error(TexturedGeometryStream::Position, positions, 12)
    } else if textured_stream_error(TexturedGeometryStream::Index, indices, 4) is Some {
        textured_stream_error(TexturedGeometryStream::Index, indices, 4)
    } else {
        textured_stream_error(TexturedGeometryStream::TextureCoordinate, coordinates, 8)
    }
}

/// Every component of every coordinate is finite.
pub open spec fn all_finite_pairs(coordinates: Seq<[u32; 2]>) -> bool {
    forall|v: int, c: int|
        0 <= v < coordinates.len() && 0 <= c < 2 ==> spec_is_finite(#[trigger] coordinates[v][c])
}

/// Component `component` of vertex `vertex` is the first non-finite one in
/// vertex-major, then component, order.
pub open spec fn first_non_finite_pair(coordinates: Seq<[u32; 2]>, vertex: int, component: int) -> bool {
    &&& 0 <= vertex < coordinates.len()
    &&& 0 <= component < 2
    &&& !spec_is_finite(coordinates[vertex][component])
    &&& forall|v: int, c: int|
        0 <= v < vertex && 0 <= c < 2 ==> spec_is_finite(#[trigger] coordinates[v][c])
    &&& forall|c: int| 0 <= c < component ==> spec_is_finite(#[trigger] coordinates[vertex][c])
}

/// Checks one stream against the closed upload ABI.
fn check_textured_stream(stream: TexturedGeometryStream, count: usize, stride: usize) -> (result:
    Result<(), TexturedGeometryError>)
    requires
        stride == 4 || stride == 8 || stride == 12,
    ensures
        match textured_stream_error(stream, count as nat, stride as nat) {
            Some(error) => result == Err::<(), _>(error),
            None => result is Ok,
        },
{
    if count > u32::MAX as usize {
        return Err(TexturedGeometryError::CountOutOfRange { stream, count });
    }
    if count.checked_mul(stride).is_none() {
        return Err(TexturedGeometryError::ByteLengthOverflow { stream });
    }
    Ok(())
}

/// The three streams' sizes fit the closed upload ABI.
pub fn validate_textured_lengths(geometry: &Geometry, coordinates: &[[u32; 2]]) -> (result: Result<
    (),
    TexturedGeometryError,
>)
    ensures
        match textured_lengths_error(
            geometry.spec_positions().len(),
            geometry.spec_indices().len(),
            coordinates@.len(),
        ) {
            Some(error) => result == Err::<(), _>(error),
            None => result is Ok,
        },
{
    check_textured_stream(TexturedGeometryStream::Position, geometry.positions().len(), 12)?;
    check_textured_stream(TexturedGeometryStream::Index, geometry.indices().len(), 4)?;
    check_textured_stream(TexturedGeometryStream::TextureCoordinate, coordinates.len(), 8)
}

/// Indexed geometry with one finite `f32x2` texture coordinate per position.
#[derive(Debug, PartialEq)]
pub struct TexturedGeometry {
    geometry: Geometry,
    texture_coordinates: Vec<[u32; 2]>,
}

impl TexturedGeometry {
    /// The owned indexed geometry.
    pub closed spec fn spec_geometry(&self) -> Geometry {
        self.geometry
    }

    /// The per-vertex texture coordinates.
    pub closed spec fn spec_texture_coordinates(&self) -> Seq<[u32; 2]> {
        self.texture_coordinates@
    }

    /// Non-empty indexed geometry with one finite coordinate per position and
    /// three streams that fit the closed upload ABI.
    #[verifier::type_invariant]
    pub closed spec fn well_formed(&self) -> bool {
        let positions = self.geometry.spec_positions().len();
        let indices = self.geometry.spec_indices().len();
        &&& positions > 0
        &&& indices > 0
        &&& self.texture_coordinates@.len() == positions
        &&& all_finite_pairs(self.texture_coordinates@)
        &&& textured_lengths_error(positions, indices, self.texture_coordinates@.len()) is None
    }

    /// Creates closed textured geometry after validating the three upload
    /// streams. The checks run in this order and the first failure is
    /// reported: positions, indices, coordinate count, coordinate finiteness
    /// (first non-finite component), stream sizes.
    pub fn new(geometry: Geometry, texture_coordinates: Vec<[u32; 2]>) -> (result: Result<
        Self,
        TexturedGeometryError,
    >)
        ensures
            ({
                let positions = geometry.spec_positions().len();
                let indices = geometry.spec_indices().len();
                let coordinates = texture_coordinates@;
                let shaped = positions > 0 && indices > 0 && coordinates.len() == positions;
                &&& positions == 0 ==> result == Err::<Self, _>(
                    TexturedGeometryError::EmptyPositions,
                )
                &&& positions > 0 && indices == 0 ==> result == Err::<Self, _>(
                    TexturedGeometryError::MissingIndices,
                )
                &&& positions > 0 && indices > 0 && coordinates.len() != positions ==> result
                    == Err::<Self, _>(
                    TexturedGeometryError::TextureCoordinateCountMismatch {
                        positions: positions as usize,
                        texture_coordinates: coordinates.len() as usize,
                    },
                )
                &&& shaped && !all_finite_pairs(coordinates) ==> (result matches Err(
                    TexturedGeometryError::NonFiniteTextureCoordinate { vertex, component },
                ) && first_non_finite_pair(coordinates, vertex as int, component as int))
                &&& shaped && all_finite_pairs(coordinates) && textured_lengths_error(
                    positions,
                    indices,
                    coordinates.len(),
                ) is Some ==> result == Err::<Self, _>(
                    textured_lengths_error(positions, indices, coordinates.len()).unwrap(),
                )
                &&& shaped && all_finite_pairs(coordinates) && textured_lengths_error(
                    positions,
                    indices,
                    coordinates.len(),
                ) is None ==> (result matches Ok(textured) && textured.spec_geometry() == geometry
                    && textured.spec_texture_coordinates() == coordinates)
            }),
    {
        let position_count = geometry.positions().len();
        if position_count == 0 {
            return Err(TexturedGeometryError::EmptyPositions);
        }
        if !geometry.is_indexed() {
            return Err(TexturedGeometryError::MissingIndices);
        }
        if geometry.indices().len() == 0 {
            return Err(TexturedGeometryError::EmptyIndices);
        }
        if texture_coordinates.len() != position_count {
            return Err(
                TexturedGeometryError::TextureCoordinateCountMismatch {
                    positions: position_count,
                    texture_coordinates: texture_coordinates.len(),
                },
            );
        }
        let mut vertex: usize = 0;
        while vertex < texture_coordinates.len()
            invariant
                vertex <= texture_coordinates@.len(),
                texture_coordinates@.len() == geometry.spec_positions().len(),
                geometry.spec_positions().len() > 0,
                geometry.spec_indices().len() > 0,
                forall|v: int, c: int|
                    0 <= v < vertex && 0 <= c < 2 ==> spec_is_finite(
                        #[trigger] texture_coordinates@[v][c],
                    ),
            decreases texture_coordinates@.len() - vertex,
        {
            let coordinate = texture_coordinates[vertex];
            let mut component: usize = 0;
            while component < 2
                invariant
                    component <= 2,
                    texture_coordinates@.len() == geometry.spec_positions().len(),
                    geometry.spec_positions().len() > 0,
                    geometry.spec_indices().len() > 0,
                    vertex < texture_coordinates@.len(),
                    coordinate == texture_coordinates@[vertex as int],
                    forall|v: int, c: int|
                        0 <= v < vertex && 0 <= c < 2 ==> spec_is_finite(
                            #[trigger] texture_coordinates@[v][c],
                        ),
                    forall|c: int|
                        0 <= c < component ==> spec_is_finite(
                            #[trigger] texture_coordinates@[vertex as int][c],
                        ),
                decreases 2 - component,
            {
                if !is_finite(coordinate[component]) {
                    assert(!spec_is_finite(texture_coordinates@[vertex as int][component as int]));
                    assert(!all_finite_pairs(texture_coordinates@));
                    assert(first_non_finite_pair(
                        texture_coordinates@,
                        vertex as int,
                        component as int,
                    ));
                    return Err(TexturedGeometryError::NonFiniteTextureCoordinate { vertex, component });
                }
                component = component + 1;
            }
            vertex = vertex + 1;
        }
        validate_textured_lengths(&geometry, texture_coordinates.as_slice())?;
        Ok(Self { geometry, texture_coordinates })
    }

    /// Returns the owned indexed geometry.
    pub fn geometry(&self) -> (geometry: &Geometry)
        ensures
            *geometry == self.spec_geometry(),
            0 < geometry.spec_positions().len() <= u32::MAX,
            0 < geometry.spec_indices().len() <= u32::MAX,
    {
        proof {
            use_type_invariant(self);
        }
        &self.geometry
    }

    /// Returns the finite per-vertex texture coordinates.
    pub fn texture_coordinates(&self) -> (coordinates: &[[u32; 2]])
        ensures
            coordinates@ == self.spec_texture_coordinates(),
            coordinates@.len() == self.spec_geometry().spec_positions().len(),
            all_finite_pairs(coordinates@),
    {
        proof {
            use_type_invariant(self);
        }
        self.texture_coordinates.as_slice()
    }
}

/// The position, index, and texture-coordinate upload payloads of one
/// textured mesh.
pub struct TexturedMeshPayload {
    /// Tightly packed little-endian `f32x3` positions.
    pub positions: Vec<u8>,
    /// Tightly packed little-endian `u32` indices.
    pub indices: Vec<u8>,
    /// Tightly packed little-endian `f32x2` texture coordinates.
    pub texture_coordinates: Vec<u8>,
    /// Number of vertex positions.
    pub position_count: u32,
    /// Number of indices.
    pub index_count: u32,
}

impl TexturedMeshPayload {
    /// Serializes the three streams of validated textured geometry.
    pub fn from_geometry(geometry: &TexturedGeometry) -> (result: Result<Self, TexturedGeometryError>)
        ensures
            result matches Ok(payload) && {
                let mesh = geometry.spec_geometry();
                &&& payload.positions@ == position_bytes(mesh.spec_positions())
                &&& payload.indices@ == word_bytes(mesh.spec_indices())
                &&& payload.texture_coordinates@ == pair_bytes(
                    geometry.spec_texture_coordinates(),
                )
                &&& payload.position_count == mesh.spec_positions().len()
                &&& payload.index_count == mesh.spec_indices().len()
                &&& payload.positions@.len() == 12 * mesh.spec_positions().len()
                &&& payload.indices@.len() == 4 * mesh.spec_indices().len()
                &&& payload.texture_coordinates@.len() == 8 * mesh.spec_positions().len()
            },
    {
        proof {
            use_type_invariant(geometry);
        }
        validate_textured_lengths(&geometry.geometry, geometry.texture_coordinates.as_slice())?;
        let positions = geometry.geometry.positions();
        let indices = geometry.geometry.indices();
        let coordinates = geometry.texture_coordinates.as_slice();
        let position_bytes = encode_positions(positions);
        let index_bytes = encode_words(indices);
        let coordinate_bytes = encode_pairs(coordinates);
        proof {
            lemma_position_bytes_len(positions@);
            lemma_word_bytes_len(indices@);
            lemma_pair_bytes_len(coordinates@);
        }
        Ok(Self {
            positions: position_bytes,
            indices: index_bytes,
            texture_coordinates: coordinate_bytes,
            position_count: positions.len() as u32,
            index_count: indices.len() as u32,
        })
    }
}

/// The debug name of a textured geometry stream.
pub open spec fn textured_stream_name(stream: TexturedGeometryStream) -> Seq<char> {
    match stream {
        TexturedGeometryStream::Position => "Position"@,
        TexturedGeometryStream::Index => "Index"@,
        TexturedGeometryStream::TextureCoordinate => "TextureCoordinate"@,
    }
}

impl TexturedGeometryStream {
    /// The debug text of this stream: its variant name.
    pub fn debug_name(&self) -> (name: &'static str)
        ensures
            name@ == textured_stream_name(*self),
    {
        match self {
            TexturedGeometryStream::Position => "Position",
            TexturedGeometryStream::Index => "Index",
            TexturedGeometryStream::TextureCoordinate => "TextureCoordinate",
        }
    }
}

/// The message of a textured geometry construction error.
pub open spec fn textured_geometry_error_message(error: TexturedGeometryError) -> Seq<char> {
    match error {
        TexturedGeometryError::EmptyPositions => "textured geometry positions are empty"@,
        TexturedGeometryError::MissingIndices => "textured geometry has no indices"@,
        TexturedGeometryError::EmptyIndices => "textured geometry indices are empty"@,
        TexturedGeometryError::TextureCoordinateCountMismatch { positions, texture_coordinates } =>
            "textured geometry has "@ + decimal(texture_coordinates as nat)
            + " texture coordinates for "@ + decimal(positions as nat) + " positions"@,
        TexturedGeometryError::NonFiniteTextureCoordinate { vertex, component } =>
            "textured geometry texture coordinate "@ + decimal(component as nat) + " at vertex "@
            + decimal(vertex as nat) + " is non-finite"@,
        TexturedGeometryError::CountOutOfRange { stream, count } => "textured geometry "@
            + textured_stream_name(stream) + " count "@ + decimal(count as nat)
            + " exceeds the closed upload ABI"@,
        TexturedGeometryError::ByteLengthOverflow { stream } => "textured geometry "@
            + textured_stream_name(stream) + " payload length overflows"@,
    }
}

impl TexturedGeometryError {
    /// The human-readable description of this error.
    pub fn message(&self) -> (text: String)
        ensures
            text@ == textured_geometry_error_message(*self),
    {
        match self {
            TexturedGeometryError::EmptyPositions => text_of("textured geometry positions are empty"),
            TexturedGeometryError::MissingIndices => text_of("textured geometry has no indices"),
            TexturedGeometryError::EmptyIndices => text_of("textured geometry indices are empty"),
            TexturedGeometryError::TextureCoordinateCountMismatch {
                positions,
                texture_coordinates,
            } => {
                let mut text = text_of("textured geometry has ");
                push_decimal(&mut text, *texture_coordinates as u64);
                text.append(" texture coordinates for ");
                push_decimal(&mut text, *positions as u64);
                text.append(" positions");
                text
            },
            TexturedGeometryError::NonFiniteTextureCoordinate { vertex, component } => {
                let mut text = text_of("textured geometry texture coordinate ");
                push_decimal(&mut text, *component as u64);
                text.append(" at vertex ");
                push_decimal(&mut text, *vertex as u64);
                text.append(" is non-finite");
                text
            },
            TexturedGeometryError::CountOutOfRange { stream, count } => {
                let mut text = text_of("textured geometry ");
                text.append(stream.debug_name());
                text.append(" count ");
                push_decimal(&mut text, *count as u64);
                text.append(" exceeds the closed upload ABI");
                text
            },
            TexturedGeometryError::ByteLengthOverflow { stream } => {
                let mut text = text_of("textured geometry ");
                text.append(stream.debug_name());
                text.append(" payload length overflows");
                text
            },
        }
    }
}

} // verus!
