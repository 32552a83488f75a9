//! Closed presentation profiles and the error contracts of the shared CPU
//! scene preparation used by native and browser retained-scene paths.

use vstd::prelude::*;
use vstd::string::StringExecFns;

use crate::debug_text::{decimal, push_decimal, text_of};

use crate::fixed_frame::validation::{DrawStartError, TextureFormat, TextureFormatCapabilities};
use crate::frame_uniform::{matrix_finite, uniform_input_error, uniform_words, FrameUniform, FRAME_UNIFORM_BYTES};
use crate::upload::payload::word_bytes;
use crate::scene::{BasicMaterial, Camera};
use crate::scene::Geometry;

verus! {

/// The two canvas formats accepted by the closed retained presentation recipe.
#[derive(Clone, Copy, Debug, PartialEq, Eq, Structural)]
pub enum PresentableFormat {
    /// Eight-bit linear RGBA, used by the WebGL2 drawing buffer.
    Rgba8Unorm,
    /// Eight-bit linear BGRA, commonly selected by a WebGPU canvas.
    Bgra8Unorm,
}

/// The texture format a presentable format imports.
pub open spec fn spec_presentable_texture_format(format: PresentableFormat) -> TextureFormat {
    match format {
        PresentableFormat::Rgba8Unorm => TextureFormat::Rgba8Unorm,
        PresentableFormat::Bgra8Unorm => TextureFormat::Bgra8Unorm,
    }
}

impl PresentableFormat {
    /// Returns the texture format this presentable format imports.
    pub fn texture_format(self) -> (format: TextureFormat)
        ensures
            format == spec_presentable_texture_format(self),
    {
        match self {
            PresentableFormat::Rgba8Unorm => TextureFormat::Rgba8Unorm,
            PresentableFormat::Bgra8Unorm => TextureFormat::Bgra8Unorm,
        }
    }
}

/// Closed presentation facts for the retained fixed-unlit recipe: only the
/// backend-reported presentable format varies.
#[derive(Clone, Copy, Debug, PartialEq, Eq, Structural)]
pub struct PresentationProfile {
    format: PresentableFormat,
}

impl PresentationProfile {
    /// The selected presentable format.
    pub closed spec fn spec_format(self) -> PresentableFormat {
        self.format
    }

    /// Creates the one fixed profile for a backend-reported canvas format.
    pub fn for_format(format: PresentableFormat) -> (profile: Self)
        ensures
            profile.spec_format() == format,
    {
        Self { format }
    }

    /// Returns the format selected by the backend's closed canvas-format map.
    pub fn format(self) -> (format: PresentableFormat)
        ensures
            format == self.spec_format(),
    {
        self.format
    }

    /// Returns the texture format of the imported presentable image.
    pub fn texture_format(self) -> (format: TextureFormat)
        ensures
            format == spec_presentable_texture_format(self.spec_format()),
    {
        self.format.texture_format()
    }

    /// The texture-format capabilities the profile reports for compiling
    /// its graph: exactly the presentable format, sampled and filterable.
    pub fn capabilities(self) -> (formats: Vec<TextureFormatCapabilities>)
        ensures
            formats@ == seq![
                TextureFormatCapabilities {
                    format: spec_presentable_texture_format(self.spec_format()),
                    sampled: true,
                    filterable: true,
                },
            ],
    {
        let mut formats = Vec::new();
        formats.push(
            TextureFormatCapabilities {
                format: self.texture_format(),
                sampled: true,
                filterable: true,
            },
        );
        formats
    }
}

/// A profile round-trips its format, and two profiles are equal exactly when
/// their formats are.
pub proof fn lemma_profile_is_its_format(a: PresentationProfile, b: PresentationProfile)
    ensures
        a == b <==> a.spec_format() == b.spec_format(),
{
}

/// Why one basic draw is not representable by the fixed recipe.
#[derive(Clone, Copy, Debug, PartialEq, Eq, Structural)]
pub enum PreparedBasicDrawError {
    /// The closed recipe needs a non-empty triangle-list index stream.
    InvalidIndexCount,
    /// Camera or material values cannot form the fixed uniform ABI.
    InvalidCameraMaterial,
    /// Finite inputs overflowed while forming P*V*M.
    ModelTransformProductNonFinite,
    /// A position contained NaN or infinity.
    NonFinitePosition,
    /// Matrix application produced a non-finite clip coordinate.
    NonFiniteClipPosition,
    /// A clip position had non-positive homogeneous W.
    ClipWNonPositive,
    /// A position fell outside the portable clip volume.
    ClipOutOfBounds,
}

/// Why a scene could not enter the shared closed preparation seam.
#[derive(Clone, Copy, Debug, PartialEq, Eq, Structural)]
pub enum PreparedBasicSceneError {
    /// No draw exists to prepare.
    Empty,
    /// The private CPU dependency graph could not be compiled or completed.
    PreparationGraph,
    /// One insertion-ordered draw failed validation.
    Draw {
        /// Stable failing insertion index.
        index: usize,
        /// Closed reason for rejection.
        reason: PreparedBasicDrawError,
    },
}

/// Why the closed presentation graph could not be declared.
#[derive(Clone, Copy, Debug, PartialEq, Eq, Structural)]
pub enum PreparedBasicGraphError {
    /// Width and height must both be nonzero.
    InvalidExtent,
    /// A CPU stream cannot be represented by the graph's `u64` byte size.
    SizeOverflow,
    /// The indexed recipe cannot represent this index count.
    IndexCountOverflow,
}

/// The preparation error reported for a clip-validation failure.
pub open spec fn spec_map_clip_error(error: DrawStartError) -> PreparedBasicDrawError {
    match error {
        DrawStartError::NonFinitePosition => PreparedBasicDrawError::NonFinitePosition,
        DrawStartError::NonFiniteClipPosition => PreparedBasicDrawError::NonFiniteClipPosition,
        DrawStartError::ClipWNonPositive => PreparedBasicDrawError::ClipWNonPositive,
        DrawStartError::ClipOutOfBounds => PreparedBasicDrawError::ClipOutOfBounds,
        _ => PreparedBasicDrawError::InvalidIndexCount,
    }
}

/// Maps a clip-validation failure to its preparation error; any failure other
/// than the four clip outcomes is an invalid index reference.
pub fn map_clip_error(error: DrawStartError) -> (mapped: PreparedBasicDrawError)
    ensures
        mapped == spec_map_clip_error(error),
{
    match error {
        DrawStartError::NonFinitePosition => PreparedBasicDrawError::NonFinitePosition,
        DrawStartError::NonFiniteClipPosition => PreparedBasicDrawError::NonFiniteClipPosition,
        DrawStartError::ClipWNonPositive => PreparedBasicDrawError::ClipWNonPositive,
        DrawStartError::ClipOutOfBounds => PreparedBasicDrawError::ClipOutOfBounds,
        _ => PreparedBasicDrawError::InvalidIndexCount,
    }
}

/// The error kept after `error` is recorded into `slot`: an empty slot takes
/// it, and a draw error is replaced only by a draw error with a smaller
/// insertion index.
pub open spec fn record_next(
    slot: Option<PreparedBasicSceneError>,
    error: PreparedBasicSceneError,
) -> Option<PreparedBasicSceneError> {
    match (slot, error) {
        (None, _) => Some(error),
        (
            Some(PreparedBasicSceneError::Draw { index: previous, .. }),
            PreparedBasicSceneError::Draw { index, .. },
        ) => if index < previous {
            Some(error)
        } else {
            slot
        },
        _ => slot,
    }
}

/// The error kept after recording `errors` in order.
pub open spec fn record_all(
    slot: Option<PreparedBasicSceneError>,
    errors: Seq<PreparedBasicSceneError>,
) -> Option<PreparedBasicSceneError>
    decreases errors.len(),
{
    if errors.len() == 0 {
        slot
    } else {
        record_all(record_next(slot, errors[0]), errors.drop_first())
    }
}

/// Records a failed preparation branch, keeping the draw error with the
/// lowest insertion index however the branches complete.
pub fn record_first_error(slot: &mut Option<PreparedBasicSceneError>, error: PreparedBasicSceneError)
    ensures
        *final(slot) == record_next(*old(slot), error),
{
    let replace = match (&*slot, &error) {
        (None, _) => true,
        (
            Some(PreparedBasicSceneError::Draw { index: previous, .. }),
            PreparedBasicSceneError::Draw { index, .. },
        ) => *index < *previous,
        _ => false,
    };
    if replace {
        *slot = Some(error);
    }
}

/// Removes and returns the recorded error.
pub fn take_error(errors: &mut Option<PreparedBasicSceneError>) -> (taken: Option<PreparedBasicSceneError>)
    ensures
        taken == *old(errors),
        *final(errors) is None,
{
    errors.take()
}

/// The error reported when the preparation graph itself fails.
pub fn graph_error() -> (error: PreparedBasicSceneError)
    ensures
        error == PreparedBasicSceneError::PreparationGraph,
{
    PreparedBasicSceneError::PreparationGraph
}

/// The insertion index of a draw error.
pub open spec fn draw_index(error: PreparedBasicSceneError) -> int {
    match error {
        PreparedBasicSceneError::Draw { index, .. } => index as int,
        _ => -1,
    }
}

/// Recording only draw errors, in any completion order, keeps one of them
/// whose insertion index is the lowest: the reported failure does not depend
/// on which preparation branch finished first.
pub proof fn lemma_first_error_has_lowest_index(errors: Seq<PreparedBasicSceneError>)
    requires
        errors.len() > 0,
        forall|i: int| 0 <= i < errors.len() ==> (#[trigger] errors[i]) is Draw,
    ensures
        record_all(None, errors) is Some,
        errors.contains(record_all(None, errors).unwrap()),
        forall|i: int|
            0 <= i < errors.len() ==> draw_index(record_all(None, errors).unwrap()) <= draw_index(
                #[trigger] errors[i],
            ),
{
    lemma_record_keeps_lowest(errors[0], errors.drop_first());
    assert(errors =~= seq![errors[0]] + errors.drop_first());
    let kept = record_all(None, errors).unwrap();
    assert forall|i: int| 0 <= i < errors.len() implies draw_index(kept) <= draw_index(
        #[trigger] errors[i],
    ) by {
        if i > 0 {
            assert(errors[i] == errors.drop_first()[i - 1]);
        }
    }
    if kept != errors[0] {
        let k = choose|k: int| 0 <= k < errors.drop_first().len() && errors.drop_first()[k] == kept;
        assert(errors[k + 1] == kept);
    }
}

/// From a slot holding draw error `held`, recording further draw errors keeps
/// the lowest-indexed one among `held` and them.
proof fn lemma_record_keeps_lowest(held: PreparedBasicSceneError, errors: Seq<PreparedBasicSceneError>)
    requires
        held is Draw,
        forall|i: int| 0 <= i < errors.len() ==> (#[trigger] errors[i]) is Draw,
    ensures
        record_all(Some(held), errors) is Some,
        record_all(Some(held), errors).unwrap() == held || errors.contains(
            record_all(Some(held), errors).unwrap(),
        ),
        record_all(Some(held), errors).unwrap() is Draw,
        draw_index(record_all(Some(held), errors).unwrap()) <= draw_index(held),
        forall|i: int|
            0 <= i < errors.len() ==> draw_index(record_all(Some(held), errors).unwrap())
                <= draw_index(#[trigger] errors[i]),
    decreases errors.len(),
{
    if errors.len() > 0 {
        let next = record_next(Some(held), errors[0]).unwrap();
        let rest = errors.drop_first();
        assert forall|i: int| 0 <= i < rest.len() implies (#[trigger] rest[i]) is Draw by {
            assert(rest[i] == errors[i + 1]);
        }
        lemma_record_keeps_lowest(next, rest);
        let kept = record_all(Some(held), errors).unwrap();
        assert forall|i: int| 0 <= i < errors.len() implies draw_index(kept) <= draw_index(
            #[trigger] errors[i],
        ) by {
            if i > 0 {
                assert(errors[i] == rest[i - 1]);
            }
        }
        if kept != held && kept != errors[0] {
            let k = choose|k: int| 0 <= k < rest.len() && rest[k] == kept;
            assert(errors[k + 1] == kept);
        }
    }
}

/// The byte size of `count` elements of `stride` bytes, if it fits `u64`.
pub fn byte_size(count: usize, stride: u64) -> (result: Result<u64, PreparedBasicGraphError>)
    ensures
        count * stride <= u64::MAX ==> result == Ok::<u64, PreparedBasicGraphError>(
            (count * stride) as u64,
        ),
        count * stride > u64::MAX ==> result == Err::<u64, _>(PreparedBasicGraphError::SizeOverflow),
{
    match (count as u64).checked_mul(stride) {
        Some(size) => Ok(size),
        None => Err(PreparedBasicGraphError::SizeOverflow),
    }
}

/// The debug name of a draw preparation error.
pub open spec fn draw_error_name(error: PreparedBasicDrawError) -> Seq<char> {
    match error {
        PreparedBasicDrawError::InvalidIndexCount => "InvalidIndexCount"@,
        PreparedBasicDrawError::InvalidCameraMaterial => "InvalidCameraMaterial"@,
        PreparedBasicDrawError::ModelTransformProductNonFinite => "ModelTransformProductNonFinite"@,
        PreparedBasicDrawError::NonFinitePosition => "NonFinitePosition"@,
        PreparedBasicDrawError::NonFiniteClipPosition => "NonFiniteClipPosition"@,
        PreparedBasicDrawError::ClipWNonPositive => "ClipWNonPositive"@,
        PreparedBasicDrawError::ClipOutOfBounds => "ClipOutOfBounds"@,
    }
}

impl PreparedBasicDrawError {
    /// The debug text of this error: its variant name.
    pub fn debug_name(&self) -> (name: &'static str)
        ensures
            name@ == draw_error_name(*self),
    {
        match self {
            PreparedBasicDrawError::InvalidIndexCount => "InvalidIndexCount",
            PreparedBasicDrawError::InvalidCameraMaterial => "InvalidCameraMaterial",
            PreparedBasicDrawError::ModelTransformProductNonFinite => "ModelTransformProductNonFinite",
            PreparedBasicDrawError::NonFinitePosition => "NonFinitePosition",
            PreparedBasicDrawError::NonFiniteClipPosition => "NonFiniteClipPosition",
            PreparedBasicDrawError::ClipWNonPositive => "ClipWNonPositive",
            PreparedBasicDrawError::ClipOutOfBounds => "ClipOutOfBounds",
        }
    }
}

/// The debug text of a scene preparation error.
pub open spec fn scene_error_debug(error: PreparedBasicSceneError) -> Seq<char> {
    match error {
        PreparedBasicSceneError::Empty => "Empty"@,
        PreparedBasicSceneError::PreparationGraph => "PreparationGraph"@,
        PreparedBasicSceneError::Draw { index, reason } => "Draw { index: "@ + decimal(index as nat)
            + ", reason: "@ + draw_error_name(reason) + " }"@,
    }
}

impl PreparedBasicSceneError {
    /// The human-readable description of this error: a prefix and the
    /// error's debug text.
    pub fn message(&self) -> (text: String)
        ensures
            text@ == "prepared basic scene rejected: "@ + scene_error_debug(*self),
    {
        let mut text = text_of("prepared basic scene rejected: ");
        match self {
            PreparedBasicSceneError::Empty => text.append("Empty"),
            PreparedBasicSceneError::PreparationGraph => text.append("PreparationGraph"),
            PreparedBasicSceneError::Draw { index, reason } => {
                text.append("Draw { index: ");
                push_decimal(&mut text, *index as u64);
                text.append(", reason: ");
                text.append(reason.debug_name());
                text.append(" }");
            },
        }
        text
    }
}

/// The debug name of a presentation graph error.
pub open spec fn graph_error_name(error: PreparedBasicGraphError) -> Seq<char> {
    match error {
        PreparedBasicGraphError::InvalidExtent => "InvalidExtent"@,
        PreparedBasicGraphError::SizeOverflow => "SizeOverflow"@,
        PreparedBasicGraphError::IndexCountOverflow => "IndexCountOverflow"@,
    }
}

impl PreparedBasicGraphError {
    /// The human-readable description of this error: a prefix and the
    /// error's debug text.
    pub fn message(&self) -> (text: String)
        ensures
            text@ == "prepared basic graph rejected: "@ + graph_error_name(*self),
    {
        let mut text = text_of("prepared basic graph rejected: ");
        let name = match self {
            PreparedBasicGraphError::InvalidExtent => "InvalidExtent",
            PreparedBasicGraphError::SizeOverflow => "SizeOverflow",
            PreparedBasicGraphError::IndexCountOverflow => "IndexCountOverflow",
        };
        text.append(name);
        text
    }
}

/// The imported buffer sizes and index count of one draw in the closed
/// presentation graph.
#[derive(Clone, Copy, Debug, PartialEq, Eq, Structural)]
pub struct PresentableDrawBuffers {
    /// Byte size of the tightly packed `f32x3` position buffer.
    pub position_bytes: u64,
    /// Byte size of the tightly packed `u32` index buffer.
    pub index_bytes: u64,
    /// Byte size of the camera/material uniform buffer.
    pub uniform_bytes: u64,
    /// Number of indices the draw consumes.
    pub index_count: u32,
}

/// Why prepared draws with the given CPU streams cannot be laid out in a
/// presentation graph of `extent` pixels, checked in order: the extent, then
/// every draw's buffer sizes, then every draw's index count.
pub open spec fn presentable_layout_error(draws: Seq<Geometry>, extent: [u32; 2]) -> Option<
    PreparedBasicGraphError,
> {
    if extent[0] == 0 || extent[1] == 0 {
        Some(PreparedBasicGraphError::InvalidExtent)
    } else if exists|i: int|
        0 <= i < draws.len() && (#[trigger] draws[i].spec_positions().len() * 12 > u64::MAX
            || draws[i].spec_indices().len() * 4 > u64::MAX) {
        Some(PreparedBasicGraphError::SizeOverflow)
    } else if exists|i: int| 0 <= i < draws.len() && #[trigger] draws[i].spec_indices().len() > u32::MAX {
        Some(PreparedBasicGraphError::IndexCountOverflow)
    } else {
        None
    }
}

/// The buffers of one draw with `positions` positions and `indices` indices.
pub open spec fn presentable_buffers(draw: Geometry) -> PresentableDrawBuffers {
    PresentableDrawBuffers {
        position_bytes: (draw.spec_positions().len() * 12) as u64,
        index_bytes: (draw.spec_indices().len() * 4) as u64,
        uniform_bytes: FRAME_UNIFORM_BYTES as u64,
        index_count: draw.spec_indices().len() as u32,
    }
}

/// Lays out the imported buffers of the closed presentation graph, one entry
/// per prepared draw in insertion order.
pub fn presentable_graph_layout(draws: &[Geometry], extent: [u32; 2]) -> (result: Result<
    Vec<PresentableDrawBuffers>,
    PreparedBasicGraphError,
>)
    ensures
        match presentable_layout_error(draws@, extent) {
            Some(error) => result == Err::<Vec<PresentableDrawBuffers>, _>(error),
            None => result matches Ok(layout) && layout@.len() == draws@.len() && forall|i: int|
                0 <= i < draws@.len() ==> #[trigger] layout@[i] == presentable_buffers(draws@[i]),
        },
{
    if extent[0] == 0 || extent[1] == 0 {
        return Err(PreparedBasicGraphError::InvalidExtent);
    }
    let mut sizes: Vec<(u64, u64)> = Vec::new();
    let mut i: usize = 0;
    while i < draws.len()
        invariant
            i <= draws@.len(),
            extent[0] != 0 && extent[1] != 0,
            sizes@.len() == i,
            forall|j: int|
                0 <= j < i ==> !(#[trigger] draws@[j].spec_positions().len() * 12 > u64::MAX
                    || draws@[j].spec_indices().len() * 4 > u64::MAX),
            forall|j: int|
                0 <= j < i ==> (#[trigger] sizes@[j]).0 == draws@[j].spec_positions().len() * 12
                    && sizes@[j].1 == draws@[j].spec_indices().len() * 4,
        decreases draws@.len() - i,
    {
        let draw = &draws[i];
        let position_bytes = byte_size(draw.positions().len(), 12)?;
        let index_bytes = byte_size(draw.indices().len(), 4)?;
        sizes.push((position_bytes, index_bytes));
        i = i + 1;
    }
    let mut layout: Vec<PresentableDrawBuffers> = Vec::new();
    let mut i: usize = 0;
    while i < draws.len()
        invariant
            i <= draws@.len(),
            extent[0] != 0 && extent[1] != 0,
            sizes@.len() == draws@.len(),
            layout@.len() == i,
            forall|j: int|
                0 <= j < draws@.len() ==> !(#[trigger] draws@[j].spec_positions().len() * 12
                    > u64::MAX || draws@[j].spec_indices().len() * 4 > u64::MAX),
            forall|j: int|
                0 <= j < draws@.len() ==> (#[trigger] sizes@[j]).0 == draws@[j].spec_positions().len()
                    * 12 && sizes@[j].1 == draws@[j].spec_indices().len() * 4,
            forall|j: int| 0 <= j < i ==> #[trigger] draws@[j].spec_indices().len() <= u32::MAX,
            forall|j: int|
                0 <= j < i ==> #[trigger] layout@[j] == presentable_buffers(draws@[j]),
        decreases draws@.len() - i,
    {
        let count = draws[i].indices().len();
        if count > u32::MAX as usize {
            return Err(PreparedBasicGraphError::IndexCountOverflow);
        }
        let (position_bytes, index_bytes) = sizes[i];
        layout.push(
            PresentableDrawBuffers {
                position_bytes,
                index_bytes,
                uniform_bytes: FRAME_UNIFORM_BYTES as u64,
                index_count: count as u32,
            },
        );
        i = i + 1;
    }
    Ok(layout)
}

/// Prepared draws, each tagged with its insertion index, are in
/// insertion order.
pub open spec fn in_insertion_order<T>(draws: Seq<(usize, T)>) -> bool {
    forall|i: int, j: int| 0 <= i < j < draws.len() ==> draws[i].0 <= draws[j].0
}

/// Assembles prepared draws, which the preparation branches complete in any
/// order, into insertion order: the result holds exactly the given draws,
/// ordered by insertion index.
pub fn assemble_in_insertion_order<T>(draws: Vec<(usize, T)>) -> (assembled: Vec<(usize, T)>)
    ensures
        in_insertion_order(assembled@),
        assembled@.to_multiset() == draws@.to_multiset(),
{
    broadcast use vstd::seq_lib::group_to_multiset_ensures, vstd::multiset::group_multiset_axioms;

    let mut rest = draws;
    let mut assembled: Vec<(usize, T)> = Vec::new();
    proof {
        assert(assembled@.to_multiset() =~= vstd::multiset::Multiset::empty());
        assert(assembled@.to_multiset().add(rest@.to_multiset()) =~= draws@.to_multiset());
    }
    while rest.len() > 0
        invariant
            in_insertion_order(assembled@),
            assembled@.to_multiset().add(rest@.to_multiset()) == draws@.to_multiset(),
        decreases rest@.len(),
    {
        let ghost before = rest@;
        let item = rest.pop().unwrap();
        proof {
            assert(before =~= rest@.push(item));
        }
        let key = item.0;
        let mut p: usize = 0;
        while p < assembled.len() && assembled[p].0 < key
            invariant
                p <= assembled@.len(),
                forall|i: int| 0 <= i < p ==> (#[trigger] assembled@[i]).0 < key,
            decreases assembled@.len() - p,
        {
            p = p + 1;
        }
        let ghost old_assembled = assembled@;
        assembled.insert(p, item);
        proof {
            assert forall|i: int, j: int| 0 <= i < j < assembled@.len() implies assembled@[i].0
                <= assembled@[j].0 by {
                if j == p as int {
                    assert(assembled@[i] == old_assembled[i]);
                } else if i == p as int {
                    assert(assembled@[j] == old_assembled[j - 1]);
                    if p < old_assembled.len() {
                        assert(old_assembled[p as int].0 >= key);
                        assert(old_assembled[p as int].0 <= old_assembled[j - 1].0);
                    }
                } else {
                    let oi = if i < p { i } else { i - 1 };
                    let oj = if j < p { j } else { j - 1 };
                    assert(assembled@[i] == old_assembled[oi]);
                    assert(assembled@[j] == old_assembled[oj]);
                }
            }
            vstd::seq_lib::to_multiset_insert(old_assembled, p as int, item);
            vstd::seq_lib::to_multiset_build(rest@, item);
            assert(assembled@ == old_assembled.insert(p as int, item));
            assert(assembled@.to_multiset() == old_assembled.to_multiset().insert(item));
            assert(before.to_multiset() == rest@.to_multiset().insert(item));
            assert(assembled@.to_multiset().add(rest@.to_multiset()) =~= old_assembled.to_multiset().add(
                before.to_multiset(),
            ));
        }
    }
    assembled
}

/// One insertion-ordered unlit indexed draw in the closed ABI: its CPU
/// streams, its serialized camera/material uniform and its insertion index.
#[derive(Debug)]
pub struct PreparedBasicDraw {
    geometry: Geometry,
    uniform: FrameUniform,
    insertion_index: usize,
}

impl PreparedBasicDraw {
    /// The draw's position and index streams.
    pub closed spec fn spec_geometry(&self) -> Geometry {
        self.geometry
    }

    /// The draw's serialized uniform.
    pub closed spec fn spec_uniform(&self) -> FrameUniform {
        self.uniform
    }

    /// The draw's position in the submitted draw list.
    pub closed spec fn spec_insertion_index(&self) -> usize {
        self.insertion_index
    }

    /// Returns the draw's position and index streams.
    pub fn geometry(&self) -> (geometry: &Geometry)
        ensures
            *geometry == self.spec_geometry(),
    {
        &self.geometry
    }

    /// Returns owned position data for the closed indexed recipe.
    pub fn positions(&self) -> (positions: &[[u32; 3]])
        ensures
            positions@ == self.spec_geometry().spec_positions(),
    {
        self.geometry.positions()
    }

    /// Returns owned triangle-list indices.
    pub fn indices(&self) -> (indices: &[u32])
        ensures
            indices@ == self.spec_geometry().spec_indices(),
    {
        self.geometry.indices()
    }

    /// Returns the renderer insertion order.
    pub fn insertion_index(&self) -> (index: usize)
        ensures
            index == self.spec_insertion_index(),
    {
        self.insertion_index
    }

    /// Returns the serialized camera/material uniform.
    pub fn uniform(&self) -> (uniform: &FrameUniform)
        ensures
            *uniform == self.spec_uniform(),
    {
        &self.uniform
    }
}

/// A deterministic, fully validated retained basic scene.
#[derive(Debug)]
pub struct PreparedBasicScene {
    draws: Vec<PreparedBasicDraw>,
}

impl PreparedBasicScene {
    /// The prepared draws in insertion order.
    pub closed spec fn spec_draws(&self) -> Seq<PreparedBasicDraw> {
        self.draws@
    }

    /// Returns the stable prepared draw order.
    pub fn draws(&self) -> (draws: &[PreparedBasicDraw])
        ensures
            draws@ == self.spec_draws(),
    {
        self.draws.as_slice()
    }
}

/// Why one draw cannot be prepared: a triangle list needs a non-empty index
/// count divisible by three, checked before `formed`, the outcome of forming
/// the draw's uniform and checking its clip positions.
pub open spec fn draw_preparation_error(
    geometry: Geometry,
    formed: Result<FrameUniform, PreparedBasicDrawError>,
) -> Option<PreparedBasicDrawError> {
    let count = geometry.spec_indices().len();
    if count == 0 || count % 3 != 0 {
        Some(PreparedBasicDrawError::InvalidIndexCount)
    } else {
        match formed {
            Err(reason) => Some(reason),
            Ok(_) => None,
        }
    }
}

/// Draw `i` of `draws` prepares.
pub open spec fn draw_prepares(
    draws: Seq<(Geometry, Result<FrameUniform, PreparedBasicDrawError>)>,
    i: int,
) -> bool {
    draw_preparation_error(draws[i].0, draws[i].1) is None
}

/// Prepares a scene from its draws in insertion order, each given with the
/// outcome of forming its uniform and checking its clip positions: an empty
/// scene is rejected, and otherwise the lowest failing insertion index
/// decides the error.
pub fn prepare_scene(draws: Vec<(Geometry, Result<FrameUniform, PreparedBasicDrawError>)>) -> (result:
    Result<PreparedBasicScene, PreparedBasicSceneError>)
    ensures
        draws@.len() == 0 ==> result == Err::<PreparedBasicScene, _>(PreparedBasicSceneError::Empty),
        draws@.len() > 0 ==> {
            &&& result is Ok <==> forall|i: int|
                0 <= i < draws@.len() ==> #[trigger] draw_prepares(draws@, i)
            &&& result matches Err(error) ==> exists|i: int|
                0 <= i < draws@.len() && !#[trigger] draw_prepares(draws@, i) && (forall|j: int|
                    0 <= j < i ==> draw_prepares(draws@, j)) && error
                    == PreparedBasicSceneError::Draw {
                    index: i as usize,
                    reason: draw_preparation_error(draws@[i].0, draws@[i].1)->0,
                }
        },
        result matches Ok(scene) ==> {
            &&& scene.spec_draws().len() == draws@.len()
            &&& forall|i: int|
                0 <= i < draws@.len() ==> {
                    &&& (#[trigger] scene.spec_draws()[i]).spec_geometry() == draws@[i].0
                    &&& scene.spec_draws()[i].spec_uniform() == draws@[i].1->Ok_0
                    &&& scene.spec_draws()[i].spec_insertion_index() == i
                }
        },
{
    if draws.len() == 0 {
        return Err(PreparedBasicSceneError::Empty);
    }
    let ghost all = draws@;
    let total = draws.len();
    let mut rest = draws;
    let mut prepared: Vec<PreparedBasicDraw> = Vec::new();
    let mut index: usize = 0;
    while index < total
        invariant
            all == draws@,
            0 < total == all.len(),
            index <= total,
            rest@ == all.subrange(index as int, total as int),
            prepared@.len() == index,
            forall|j: int| 0 <= j < index ==> #[trigger] draw_prepares(all, j),
            forall|j: int|
                0 <= j < index ==> {
                    &&& (#[trigger] prepared@[j]).spec_geometry() == all[j].0
                    &&& prepared@[j].spec_uniform() == all[j].1->Ok_0
                    &&& prepared@[j].spec_insertion_index() == j
                },
        decreases total - index,
    {
        let ghost before = rest@;
        let (geometry, formed) = rest.remove(0);
        proof {
            assert(before[0] == all[index as int]);
            assert(rest@ =~= all.subrange(index + 1, total as int));
        }
        let count = geometry.indices().len();
        if count == 0 || count % 3 != 0 {
            assert(!draw_prepares(all, index as int));
            return Err(
                PreparedBasicSceneError::Draw {
                    index,
                    reason: PreparedBasicDrawError::InvalidIndexCount,
                },
            );
        }
        match formed {
            Err(reason) => {
                assert(!draw_prepares(all, index as int));
                return Err(PreparedBasicSceneError::Draw { index, reason });
            },
            Ok(uniform) => {
                prepared.push(PreparedBasicDraw { geometry, uniform, insertion_index: index });
            },
        }
        assert(draw_prepares(all, index as int));
        index = index + 1;
    }
    Ok(PreparedBasicScene { draws: prepared })
}

/// Why a draw's uniform cannot be formed, checked in order: the camera and
/// material inputs, then `view_projection` (projection times view, `None`
/// when not finite), then `placed` (that product times the model placement,
/// `None` when not finite).
pub open spec fn draw_uniform_error(
    camera: Camera,
    material: BasicMaterial,
    view_projection: Option<[[u32; 4]; 4]>,
    placed: Option<[[u32; 4]; 4]>,
) -> Option<PreparedBasicDrawError> {
    if uniform_input_error(camera, material) is Some {
        Some(PreparedBasicDrawError::InvalidCameraMaterial)
    } else if !(view_projection matches Some(matrix) && matrix_finite(matrix)) {
        Some(PreparedBasicDrawError::InvalidCameraMaterial)
    } else if !(placed matches Some(matrix) && matrix_finite(matrix)) {
        Some(PreparedBasicDrawError::ModelTransformProductNonFinite)
    } else {
        None
    }
}

/// Forms a draw's uniform from the caller's binary32 products: invalid
/// camera or material inputs, or an unusable projection-times-view product,
/// reject the camera/material pair; an unusable product with the model
/// placement rejects the placement.
pub fn form_draw_uniform(
    camera: &Camera,
    material: &BasicMaterial,
    view_projection: Option<[[u32; 4]; 4]>,
    placed: Option<[[u32; 4]; 4]>,
) -> (result: Result<FrameUniform, PreparedBasicDrawError>)
    ensures
        match draw_uniform_error(*camera, *material, view_projection, placed) {
            Some(error) => result == Err::<FrameUniform, _>(error),
            None => result matches Ok(uniform) && {
                &&& uniform.spec_view_projection() == placed->0
                &&& uniform.spec_bytes() == word_bytes(
                    uniform_words(placed->0, material.spec_base_color()),
                )
            },
        },
{
    if crate::frame_uniform::validate_uniform_inputs(camera, material).is_err() {
        return Err(PreparedBasicDrawError::InvalidCameraMaterial);
    }
    match view_projection {
        Some(matrix) => {
            if !crate::frame_uniform::matrix_all_finite(&matrix) {
                return Err(PreparedBasicDrawError::InvalidCameraMaterial);
            }
        },
        None => {
            return Err(PreparedBasicDrawError::InvalidCameraMaterial);
        },
    }
    match placed {
        Some(matrix) => {
            if !crate::frame_uniform::matrix_all_finite(&matrix) {
                return Err(PreparedBasicDrawError::ModelTransformProductNonFinite);
            }
        },
        None => {
            return Err(PreparedBasicDrawError::ModelTransformProductNonFinite);
        },
    }
    match FrameUniform::new(camera, material, placed) {
        Ok(uniform) => Ok(uniform),
        Err(_) => Err(PreparedBasicDrawError::InvalidCameraMaterial),
    }
}

/// A draw prepares exactly when its index count is a nonzero multiple of
/// three and its uniform and clip check succeeded; a bad index count is
/// reported first, whatever that outcome, and a failed outcome is reported
/// as its own reason.
pub proof fn lemma_draw_preparation(
    geometry: Geometry,
    formed: Result<FrameUniform, PreparedBasicDrawError>,
)
    ensures
        (geometry.spec_indices().len() == 0 || geometry.spec_indices().len() % 3 != 0)
            ==> draw_preparation_error(geometry, formed) == Some(
            PreparedBasicDrawError::InvalidIndexCount,
        ),
        geometry.spec_indices().len() > 0 && geometry.spec_indices().len() % 3 == 0 ==> {
            &&& formed matches Err(reason) ==> draw_preparation_error(geometry, formed) == Some(
                reason,
            )
            &&& formed is Ok ==> draw_preparation_error(geometry, formed) is None
        },
{
}

/// A draw's uniform: invalid camera or material inputs, a missing or
/// non-finite projection-times-view product, then a missing or non-finite
/// product with the placement, are rejected in that order; finite inputs
/// and products form the uniform.
pub proof fn lemma_draw_uniform_order(
    camera: Camera,
    material: BasicMaterial,
    view_projection: Option<[[u32; 4]; 4]>,
    placed: Option<[[u32; 4]; 4]>,
)
    ensures
        uniform_input_error(camera, material) is Some ==> draw_uniform_error(
            camera,
            material,
            view_projection,
            placed,
        ) == Some(PreparedBasicDrawError::InvalidCameraMaterial),
        uniform_input_error(camera, material) is None && view_projection is None
            ==> draw_uniform_error(camera, material, view_projection, placed) == Some(
            PreparedBasicDrawError::InvalidCameraMaterial,
        ),
        uniform_input_error(camera, material) is None && (view_projection matches Some(matrix)
            && matrix_finite(matrix)) && placed is None ==> draw_uniform_error(
            camera,
            material,
            view_projection,
            placed,
        ) == Some(PreparedBasicDrawError::ModelTransformProductNonFinite),
        draw_uniform_error(camera, material, view_projection, placed) is None <==> (
        uniform_input_error(camera, material) is None && (view_projection matches Some(matrix)
            && matrix_finite(matrix)) && (placed matches Some(matrix) && matrix_finite(matrix))),
{
}

/// The presentation layout rejects a zero width or height first; with a
/// nonzero extent, a draw whose position or index bytes exceed `u64` is a
/// size overflow, and draws whose streams all fit are laid out.
pub proof fn lemma_presentable_layout_checks(draws: Seq<Geometry>, extent: [u32; 2], i: int)
    ensures
        (extent[0] == 0 || extent[1] == 0) ==> presentable_layout_error(draws, extent) == Some(
            PreparedBasicGraphError::InvalidExtent,
        ),
        extent[0] != 0 && extent[1] != 0 && 0 <= i < draws.len() && (draws[i].spec_positions().len()
            * 12 > u64::MAX || draws[i].spec_indices().len() * 4 > u64::MAX)
            ==> presentable_layout_error(draws, extent) == Some(
            PreparedBasicGraphError::SizeOverflow,
        ),
        presentable_layout_error(draws, extent) is None <==> (extent[0] != 0 && extent[1] != 0
            && forall|j: int|
            0 <= j < draws.len() ==> #[trigger] draws[j].spec_positions().len() * 12 <= u64::MAX
                && draws[j].spec_indices().len() * 4 <= u64::MAX && draws[j].spec_indices().len()
                <= u32::MAX),
{
    if presentable_layout_error(draws, extent) is None {
        assert forall|j: int| 0 <= j < draws.len() implies #[trigger] draws[j].spec_positions().len()
            * 12 <= u64::MAX && draws[j].spec_indices().len() * 4 <= u64::MAX
            && draws[j].spec_indices().len() <= u32::MAX by {
            if draws[j].spec_positions().len() * 12 > u64::MAX || draws[j].spec_indices().len() * 4
                > u64::MAX {
                assert(draws[j].spec_positions().len() * 12 > u64::MAX
                    || draws[j].spec_indices().len() * 4 > u64::MAX);
            } else if draws[j].spec_indices().len() > u32::MAX {
                assert(draws[j].spec_indices().len() > u32::MAX);
            }
        }
    }
    if extent[0] != 0 && extent[1] != 0 && forall|j: int|
        0 <= j < draws.len() ==> #[trigger] draws[j].spec_positions().len() * 12 <= u64::MAX
            && draws[j].spec_indices().len() * 4 <= u64::MAX && draws[j].spec_indices().len()
            <= u32::MAX {
        if exists|k: int|
            0 <= k < draws.len() && (#[trigger] draws[k].spec_positions().len() * 12 > u64::MAX
                || draws[k].spec_indices().len() * 4 > u64::MAX) {
            let k = choose|k: int|
                0 <= k < draws.len() && (#[trigger] draws[k].spec_positions().len() * 12 > u64::MAX
                    || draws[k].spec_indices().len() * 4 > u64::MAX);
            assert(draws[k].spec_positions().len() * 12 <= u64::MAX);
        }
        if exists|k: int| 0 <= k < draws.len() && #[trigger] draws[k].spec_indices().len() > u32::MAX {
            let k = choose|k: int|
                0 <= k < draws.len() && #[trigger] draws[k].spec_indices().len() > u32::MAX;
            assert(draws[k].spec_positions().len() * 12 <= u64::MAX);
        }
    }
}

} // verus!
