//! Exact little-endian serialization of indexed mesh upload payloads.

use vstd::bytes::{spec_u32_from_le_bytes, spec_u32_to_le_bytes, u32_to_le_bytes};
use vstd::prelude::*;

use crate::debug_text::text_of;

use crate::scene::Geometry;

verus! {

/// Tightly packed little-endian bytes of `f32x3` positions given as bit
/// patterns, in vertex order.
pub open spec fn position_bytes(positions: Seq<[u32; 3]>) -> Seq<u8>
    decreases positions.len(),
{
    if positions.len() == 0 {
        Seq::empty()
    } else {
        let last = positions.last();
        position_bytes(positions.drop_last()) + spec_u32_to_le_bytes(last[0])
            + spec_u32_to_le_bytes(last[1]) + spec_u32_to_le_bytes(last[2])
    }
}

/// Tightly packed little-endian bytes of `f32x2` coordinates given as bit
/// patterns, in vertex order.
pub open spec fn pair_bytes(pairs: Seq<[u32; 2]>) -> Seq<u8>
    decreases pairs.len(),
{
    if pairs.len() == 0 {
        Seq::empty()
    } else {
        let last = pairs.last();
        pair_bytes(pairs.drop_last()) + spec_u32_to_le_bytes(last[0]) + spec_u32_to_le_bytes(
            last[1],
        )
    }
}

/// Tightly packed little-endian bytes of `u32` words, in order.
pub open spec fn word_bytes(words: Seq<u32>) -> Seq<u8>
    decreases words.len(),
{
    if words.len() == 0 {
        Seq::empty()
    } else {
        word_bytes(words.drop_last()) + spec_u32_to_le_bytes(words.last())
    }
}

/// Appends the little-endian bytes of `word`.
pub fn push_le_word(bytes: &mut Vec<u8>, word: u32)
    ensures
        final(bytes)@ == old(bytes)@ + spec_u32_to_le_bytes(word),
{
    let encoded = u32_to_le_bytes(word);
    let ghost start = bytes@;
    let mut i: usize = 0;
    while i < 4
        invariant
            encoded@.len() == 4,
            i <= 4,
            bytes@ == start + encoded@.subrange(0, i as int),
        decreases 4 - i,
    {
        bytes.push(encoded[i]);
        i = i + 1;
        assert(bytes@ =~= start + encoded@.subrange(0, i as int));
    }
    assert(encoded@.subrange(0, 4) =~= encoded@);
}

/// Serializes positions as tightly packed little-endian `f32x3` bit patterns.
pub fn encode_positions(positions: &[[u32; 3]]) -> (bytes: Vec<u8>)
    ensures
        bytes@ == position_bytes(positions@),
{
    let mut bytes: Vec<u8> = Vec::new();
    let mut i: usize = 0;
    while i < positions.len()
        invariant
            i <= positions@.len(),
            bytes@ == position_bytes(positions@.subrange(0, i as int)),
        decreases positions@.len() - i,
    {
        let position = positions[i];
        push_le_word(&mut bytes, position[0]);
        push_le_word(&mut bytes, position[1]);
        push_le_word(&mut bytes, position[2]);
        proof {
            let next = positions@.subrange(0, i + 1);
            assert(next.drop_last() =~= positions@.subrange(0, i as int));
            assert(next.last() == position);
        }
        i = i + 1;
    }
    assert(positions@.subrange(0, positions@.len() as int) =~= positions@);
    bytes
}

/// Serializes coordinate pairs as tightly packed little-endian `f32x2` bit patterns.
pub fn encode_pairs(pairs: &[[u32; 2]]) -> (bytes: Vec<u8>)
    ensures
        bytes@ == pair_bytes(pairs@),
{
    let mut bytes: Vec<u8> = Vec::new();
    let mut i: usize = 0;
    while i < pairs.len()
        invariant
            i <= pairs@.len(),
            bytes@ == pair_bytes(pairs@.subrange(0, i as int)),
        decreases pairs@.len() - i,
    {
        let pair = pairs[i];
        push_le_word(&mut bytes, pair[0]);
        push_le_word(&mut bytes, pair[1]);
        proof {
            let next = pairs@.subrange(0, i + 1);
            assert(next.drop_last() =~= pairs@.subrange(0, i as int));
            assert(next.last() == pair);
        }
        i = i + 1;
    }
    assert(pairs@.subrange(0, pairs@.len() as int) =~= pairs@);
    bytes
}

/// Serializes words as tightly packed little-endian `u32` values.
pub fn encode_words(words: &[u32]) -> (bytes: Vec<u8>)
    ensures
        bytes@ == word_bytes(words@),
{
    let mut bytes: Vec<u8> = Vec::new();
    let mut i: usize = 0;
    while i < words.len()
        invariant
            i <= words@.len(),
            bytes@ == word_bytes(words@.subrange(0, i as int)),
        decreases words@.len() - i,
    {
        push_le_word(&mut bytes, words[i]);
        proof {
            let next = words@.subrange(0, i + 1);
            assert(next.drop_last() =~= words@.subrange(0, i as int));
        }
        i = i + 1;
    }
    assert(words@.subrange(0, words@.len() as int) =~= words@);
    bytes
}

/// Each position occupies exactly twelve payload bytes.
pub proof fn lemma_position_bytes_len(positions: Seq<[u32; 3]>)
    ensures
        position_bytes(positions).len() == 12 * positions.len(),
    decreases positions.len(),
{
    vstd::bytes::lemma_auto_spec_u32_to_from_le_bytes();
    if positions.len() > 0 {
        lemma_position_bytes_len(positions.drop_last());
    }
}

/// Each coordinate pair occupies exactly eight payload bytes.
pub proof fn lemma_pair_bytes_len(pairs: Seq<[u32; 2]>)
    ensures
        pair_bytes(pairs).len() == 8 * pairs.len(),
    decreases pairs.len(),
{
    vstd::bytes::lemma_auto_spec_u32_to_from_le_bytes();
    if pairs.len() > 0 {
        lemma_pair_bytes_len(pairs.drop_last());
    }
}

/// Each word occupies exactly four payload bytes.
pub proof fn lemma_word_bytes_len(words: Seq<u32>)
    ensures
        word_bytes(words).len() == 4 * words.len(),
    decreases words.len(),
{
    vstd::bytes::lemma_auto_spec_u32_to_from_le_bytes();
    if words.len() > 0 {
        lemma_word_bytes_len(words.drop_last());
    }
}

/// Why an indexed-mesh upload could not be started before any GPU work was accepted.
#[derive(Clone, Debug, PartialEq, Eq)]
pub enum IndexedMeshUploadStartError<E> {
    /// Indexed snapshots require at least one vertex position.
    EmptyPositions,
    /// Indexed snapshots require at least one index.
    NonIndexedGeometry,
    /// The vertex count cannot be represented by the snapshot's public metadata.
    PositionCountTooLarge,
    /// The index count cannot be represented by the snapshot's public metadata.
    IndexCountTooLarge,
    /// The position upload was rejected before the native queue accepted work.
    PositionUpload(E),
}

/// The position and index upload payloads of one indexed mesh.
#[derive(Debug)]
pub struct IndexedMeshPayload {
    /// Tightly packed little-endian `f32x3` positions.
    pub positions: Vec<u8>,
    /// Tightly packed little-endian `u32` indices.
    pub indices: Vec<u8>,
    /// Number of vertex positions.
    pub position_count: u32,
    /// Number of indices.
    pub index_count: u32,
}

/// Why `geometry` cannot become an indexed payload, checked in order:
/// emptiness, indexing, representable counts, representable byte lengths.
pub open spec fn indexed_payload_error<E>(geometry: Geometry) -> Option<IndexedMeshUploadStartError<E>> {
    let positions = geometry.spec_positions().len();
    let indices = geometry.spec_indices().len();
    if positions == 0 {
        Some(IndexedMeshUploadStartError::EmptyPositions)
    } else if indices == 0 {
        Some(IndexedMeshUploadStartError::NonIndexedGeometry)
    } else if positions > u32::MAX {
        Some(IndexedMeshUploadStartError::PositionCountTooLarge)
    } else if indices > u32::MAX {
        Some(IndexedMeshUploadStartError::IndexCountTooLarge)
    } else if positions * 12 > usize::MAX {
        Some(IndexedMeshUploadStartError::PositionCountTooLarge)
    } else if indices * 4 > usize::MAX {
        Some(IndexedMeshUploadStartError::IndexCountTooLarge)
    } else {
        None
    }
}

/// Checks that `geometry` can become an indexed payload.
pub fn check_indexed_geometry<E>(geometry: &Geometry) -> (result: Result<(), IndexedMeshUploadStartError<E>>)
    ensures
        match indexed_payload_error::<E>(*geometry) {
            Some(error) => result == Err::<(), _>(error),
            None => result is Ok,
        },
{
    let positions = geometry.positions();
    let indices = geometry.indices();
    if positions.len() == 0 {
        return Err(IndexedMeshUploadStartError::EmptyPositions);
    }
    if !geometry.is_indexed() {
        return Err(IndexedMeshUploadStartError::NonIndexedGeometry);
    }
    if positions.len() > u32::MAX as usize {
        return Err(IndexedMeshUploadStartError::PositionCountTooLarge);
    }
    if indices.len() > u32::MAX as usize {
        return Err(IndexedMeshUploadStartError::IndexCountTooLarge);
    }
    if positions.len().checked_mul(12).is_none() {
        return Err(IndexedMeshUploadStartError::PositionCountTooLarge);
    }
    if indices.len().checked_mul(4).is_none() {
        return Err(IndexedMeshUploadStartError::IndexCountTooLarge);
    }
    Ok(())
}

impl IndexedMeshPayload {
    /// Serializes indexed geometry exactly as tightly packed little-endian
    /// `f32x3` positions and `u32` indices.
    pub fn from_geometry<E>(geometry: &Geometry) -> (result: Result<Self, IndexedMeshUploadStartError<E>>)
        ensures
            match indexed_payload_error::<E>(*geometry) {
                Some(error) => result == Err::<Self, _>(error),
                None => result matches Ok(payload) && {
                    &&& payload.positions@ == position_bytes(geometry.spec_positions())
                    &&& payload.indices@ == word_bytes(geometry.spec_indices())
                    &&& payload.position_count == geometry.spec_positions().len()
                    &&& payload.index_count == geometry.spec_indices().len()
                    &&& payload.positions@.len() == 12 * geometry.spec_positions().len()
                    &&& payload.indices@.len() == 4 * geometry.spec_indices().len()
                },
            },
    {
        check_indexed_geometry(geometry)?;
        let positions = geometry.positions();
        let indices = geometry.indices();
        let position_bytes = encode_positions(positions);
        let index_bytes = encode_words(indices);
        proof {
            lemma_position_bytes_len(positions@);
            lemma_word_bytes_len(indices@);
        }
        Ok(Self {
            positions: position_bytes,
            indices: index_bytes,
            position_count: positions.len() as u32,
            index_count: indices.len() as u32,
        })
    }
}

/// The message of an indexed-mesh upload start error.
pub open spec fn indexed_start_error_message<E>(error: IndexedMeshUploadStartError<E>) -> Seq<char> {
    match error {
        IndexedMeshUploadStartError::EmptyPositions => "indexed mesh positions are empty"@,
        IndexedMeshUploadStartError::NonIndexedGeometry => "indexed mesh geometry has no indices"@,
        IndexedMeshUploadStartError::PositionCountTooLarge => "indexed mesh position count exceeds u32"@,
        IndexedMeshUploadStartError::IndexCountTooLarge => "indexed mesh index count exceeds u32"@,
        IndexedMeshUploadStartError::PositionUpload(_) => "position upload did not start"@,
    }
}

impl<E> IndexedMeshUploadStartError<E> {
    /// The human-readable description of this error; a rejected position
    /// upload is described without the device's own error.
    pub fn message(&self) -> (text: String)
        ensures
            text@ == indexed_start_error_message(*self),
    {
        match self {
            IndexedMeshUploadStartError::EmptyPositions => text_of("indexed mesh positions are empty"),
            IndexedMeshUploadStartError::NonIndexedGeometry => text_of("indexed mesh geometry has no indices"),
            IndexedMeshUploadStartError::PositionCountTooLarge => text_of("indexed mesh position count exceeds u32"),
            IndexedMeshUploadStartError::IndexCountTooLarge => text_of("indexed mesh index count exceeds u32"),
            IndexedMeshUploadStartError::PositionUpload(_) => text_of("position upload did not start"),
        }
    }
}

/// Word `i` of a word stream occupies bytes `4 * i` through `4 * i + 3`, in
/// little-endian order, and decodes back to the word.
pub proof fn lemma_word_bytes_at(words: Seq<u32>, i: int)
    requires
        0 <= i < words.len(),
    ensures
        word_bytes(words).subrange(4 * i, 4 * i + 4) == spec_u32_to_le_bytes(words[i]),
        spec_u32_from_le_bytes(word_bytes(words).subrange(4 * i, 4 * i + 4)) == words[i],
    decreases words.len(),
{
    vstd::bytes::lemma_auto_spec_u32_to_from_le_bytes();
    let prefix = words.drop_last();
    lemma_word_bytes_len(prefix);
    if i < words.len() - 1 {
        lemma_word_bytes_at(prefix, i);
        assert(word_bytes(words).subrange(4 * i, 4 * i + 4) =~= word_bytes(prefix).subrange(
            4 * i,
            4 * i + 4,
        ));
    } else {
        assert(word_bytes(words).subrange(4 * i, 4 * i + 4) =~= spec_u32_to_le_bytes(
            words.last(),
        ));
    }
}

/// Component `c` of position `i` occupies bytes `12 * i + 4 * c` through
/// `12 * i + 4 * c + 3`, in little-endian order, and decodes back to the
/// component's bit pattern: x, y and z follow each other in every vertex.
pub proof fn lemma_position_bytes_at(positions: Seq<[u32; 3]>, i: int, c: int)
    requires
        0 <= i < positions.len(),
        0 <= c < 3,
    ensures
        position_bytes(positions).subrange(12 * i + 4 * c, 12 * i + 4 * c + 4)
            == spec_u32_to_le_bytes(positions[i][c]),
        spec_u32_from_le_bytes(position_bytes(positions).subrange(12 * i + 4 * c, 12 * i + 4 * c + 4))
            == positions[i][c],
    decreases positions.len(),
{
    vstd::bytes::lemma_auto_spec_u32_to_from_le_bytes();
    let prefix = positions.drop_last();
    lemma_position_bytes_len(prefix);
    let last = positions.last();
    let whole = position_bytes(positions);
    let start = 12 * i + 4 * c;
    if i < positions.len() - 1 {
        lemma_position_bytes_at(prefix, i, c);
        assert(whole.subrange(start, start + 4) =~= position_bytes(prefix).subrange(start, start + 4));
    } else {
        let base = position_bytes(prefix).len() as int;
        assert(whole == position_bytes(prefix) + spec_u32_to_le_bytes(last[0]) + spec_u32_to_le_bytes(
            last[1],
        ) + spec_u32_to_le_bytes(last[2]));
        if c == 0 {
            assert(whole.subrange(start, start + 4) =~= spec_u32_to_le_bytes(last[0]));
        } else if c == 1 {
            assert(whole.subrange(start, start + 4) =~= spec_u32_to_le_bytes(last[1]));
        } else {
            assert(whole.subrange(start, start + 4) =~= spec_u32_to_le_bytes(last[2]));
        }
    }
}

/// The indexed payload's checks, in order: an empty position stream, then a
/// missing index stream; geometry with both streams whose counts fit `u32`
/// and whose byte lengths fit `usize` serializes.
pub proof fn lemma_indexed_payload_checks<E>(geometry: Geometry)
    ensures
        geometry.spec_positions().len() == 0 ==> indexed_payload_error::<E>(geometry) == Some(
            IndexedMeshUploadStartError::<E>::EmptyPositions,
        ),
        geometry.spec_positions().len() > 0 && geometry.spec_indices().len() == 0
            ==> indexed_payload_error::<E>(geometry) == Some(
            IndexedMeshUploadStartError::<E>::NonIndexedGeometry,
        ),
        indexed_payload_error::<E>(geometry) is None <==> (geometry.spec_positions().len() > 0
            && geometry.spec_indices().len() > 0 && geometry.spec_positions().len() <= u32::MAX
            && geometry.spec_indices().len() <= u32::MAX && geometry.spec_positions().len() * 12
            <= usize::MAX && geometry.spec_indices().len() * 4 <= usize::MAX),
{
}

/// Component `c` of texture coordinate `i` occupies bytes `8 * i + 4 * c`
/// through `8 * i + 4 * c + 3`, in little-endian order, and decodes back to
/// the component's bit pattern.
pub proof fn lemma_pair_bytes_at(pairs: Seq<[u32; 2]>, i: int, c: int)
    requires
        0 <= i < pairs.len(),
        0 <= c < 2,
    ensures
        pair_bytes(pairs).subrange(8 * i + 4 * c, 8 * i + 4 * c + 4) == spec_u32_to_le_bytes(
            pairs[i][c],
        ),
        spec_u32_from_le_bytes(pair_bytes(pairs).subrange(8 * i + 4 * c, 8 * i + 4 * c + 4))
            == pairs[i][c],
    decreases pairs.len(),
{
    vstd::bytes::lemma_auto_spec_u32_to_from_le_bytes();
    let prefix = pairs.drop_last();
    lemma_pair_bytes_len(prefix);
    let last = pairs.last();
    let whole = pair_bytes(pairs);
    let start = 8 * i + 4 * c;
    if i < pairs.len() - 1 {
        lemma_pair_bytes_at(prefix, i, c);
        assert(whole.subrange(start, start + 4) =~= pair_bytes(prefix).subrange(start, start + 4));
    } else {
        assert(whole == pair_bytes(prefix) + spec_u32_to_le_bytes(last[0]) + spec_u32_to_le_bytes(
            last[1],
        ));
        if c == 0 {
            assert(whole.subrange(start, start + 4) =~= spec_u32_to_le_bytes(last[0]));
        } else {
            assert(whole.subrange(start, start + 4) =~= spec_u32_to_le_bytes(last[1]));
        }
    }
}

} // verus!
