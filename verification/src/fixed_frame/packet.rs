//! Packet-local frame-resource identities and packet build/start errors.
//!
//! Identities select caller-owned buffers for one packet graph; they are
//! neither resource handles nor binding recipes. A packet has one issuer, so
//! every separately uploaded uniform receives its own identity.

use vstd::prelude::*;
use vstd::string::StringExecFns;

use crate::debug_text::{decimal, push_decimal, text_of};
use crate::fixed_frame::ids::BufferBindingId;
use crate::frame_uniform::FrameUniform;
use crate::prepared_scene::{PreparedBasicDraw, PreparedBasicDrawError, PreparedBasicScene, PreparedBasicSceneError};
use crate::scene::Geometry;
use crate::upload::snapshot::IndexedMeshSnapshot;

verus! {

/// The first identity of the renderer-private packet namespace.
pub const FIRST_PACKET_BUFFER_ID: u64 = 0x0290_0000_0000_0000;

/// Failure to allocate another private packet binding identity.
#[derive(Clone, Copy, Debug, PartialEq, Eq, Structural)]
pub enum PacketIdError {
    /// The private identity namespace has no remaining value.
    Exhausted,
}

/// Monotonic issuer scoped to exactly one packet graph declaration.
#[derive(Debug)]
pub struct PacketIdIssuer {
    next_buffer: u64,
}

impl View for PacketIdIssuer {
    type V = u64;

    /// The identity the next allocation returns.
    closed spec fn view(&self) -> u64 {
        self.next_buffer
    }
}

impl PacketIdIssuer {
    /// Starts at the renderer-private packet namespace.
    pub fn new() -> (issuer: Self)
        ensures
            issuer@ == FIRST_PACKET_BUFFER_ID,
    {
        Self { next_buffer: FIRST_PACKET_BUFFER_ID }
    }

    /// Allocates one frame-resource buffer identity: the current counter,
    /// which then advances by one. When the counter cannot advance the
    /// namespace is exhausted and the issuer is unchanged.
    pub fn buffer(&mut self) -> (result: Result<BufferBindingId, PacketIdError>)
        ensures
            final(self)@ == issue_next(old(self)@).1,
            match issue_next(old(self)@).0 {
                Some(value) => result matches Ok(id) && id@ == value,
                None => result == Err::<BufferBindingId, _>(PacketIdError::Exhausted),
            },
    {
        let value = self.next_buffer;
        self.next_buffer = match self.next_buffer.checked_add(1) {
            Some(next) => next,
            None => return Err(PacketIdError::Exhausted),
        };
        Ok(BufferBindingId::new(value))
    }
}

/// One allocation from counter `next`: the issued identity, if any, and the
/// counter afterwards.
pub open spec fn issue_next(next: u64) -> (Option<u64>, u64) {
    if next < u64::MAX {
        (Some(next), (next + 1) as u64)
    } else {
        (None, next)
    }
}

/// The identities returned by `count` successive allocations from counter
/// `next`, in order.
pub open spec fn issued_run(next: u64, count: nat) -> Seq<Option<u64>>
    decreases count,
{
    if count == 0 {
        Seq::empty()
    } else {
        seq![issue_next(next).0] + issued_run(issue_next(next).1, (count - 1) as nat)
    }
}

/// Identities issued by one issuer are strictly increasing: of any two
/// successful allocations, the later one returns the larger identity, so no
/// identity is issued twice.
pub proof fn lemma_issued_identities_increase(next: u64, count: nat, i: int, j: int)
    requires
        0 <= i < j < count,
        issued_run(next, count)[i] is Some,
        issued_run(next, count)[j] is Some,
    ensures
        issued_run(next, count)[i].unwrap() < issued_run(next, count)[j].unwrap(),
    decreases count,
{
    let rest = issued_run(issue_next(next).1, (count - 1) as nat);
    assert(issued_run(next, count) == seq![issue_next(next).0] + rest);
    lemma_issued_run_len(issue_next(next).1, (count - 1) as nat);
    if i == 0 {
        if issue_next(next).1 < u64::MAX {
            lemma_issued_run_at_least(issue_next(next).1, (count - 1) as nat, j - 1);
        } else {
            lemma_exhausted_issues_nothing(issue_next(next).1, (count - 1) as nat, j - 1);
        }
    } else {
        lemma_issued_identities_increase(issue_next(next).1, (count - 1) as nat, i - 1, j - 1);
    }
}

/// A run of `count` allocations has `count` outcomes.
pub proof fn lemma_issued_run_len(next: u64, count: nat)
    ensures
        issued_run(next, count).len() == count,
    decreases count,
{
    if count > 0 {
        lemma_issued_run_len(issue_next(next).1, (count - 1) as nat);
    }
}

/// Every identity issued from counter `next` onwards is at least `next`.
pub proof fn lemma_issued_run_at_least(next: u64, count: nat, k: int)
    requires
        0 <= k < count,
        issued_run(next, count)[k] is Some,
        next < u64::MAX,
    ensures
        issued_run(next, count)[k].unwrap() >= next,
    decreases count,
{
    let rest = issued_run(issue_next(next).1, (count - 1) as nat);
    lemma_issued_run_len(issue_next(next).1, (count - 1) as nat);
    if k > 0 {
        if issue_next(next).1 < u64::MAX {
            lemma_issued_run_at_least(issue_next(next).1, (count - 1) as nat, k - 1);
        } else {
            lemma_exhausted_issues_nothing(issue_next(next).1, (count - 1) as nat, k - 1);
        }
    }
}

/// An exhausted counter issues no identity.
pub proof fn lemma_exhausted_issues_nothing(next: u64, count: nat, k: int)
    requires
        next == u64::MAX,
        0 <= k < count,
    ensures
        issued_run(next, count)[k] is None,
    decreases count,
{
    lemma_issued_run_len(issue_next(next).1, (count - 1) as nat);
    if k > 0 {
        lemma_exhausted_issues_nothing(issue_next(next).1, (count - 1) as nat, k - 1);
    }
}

/// Why one draw cannot be represented by the closed packet recipe.
#[derive(Clone, Copy, Debug, PartialEq, Eq, Structural)]
pub enum RenderPacketDrawBuildError {
    /// The snapshot belongs to another device.
    ForeignSnapshotDevice,
    /// CPU vertex positions differ from the immutable snapshot metadata.
    PositionMetadataMismatch,
    /// CPU indices differ from the immutable snapshot metadata.
    IndexMetadataMismatch,
    /// The closed triangle-list recipe requires a nonzero multiple of three indices.
    InvalidIndexCount,
    /// Camera or material values cannot form the closed uniform ABI.
    InvalidCameraMaterial,
    /// The finite camera and model transform overflowed while forming `P * V * M`.
    ModelTransformProductNonFinite,
    /// A vertex position was not finite.
    NonFinitePosition,
    /// Matrix application produced a non-finite clip coordinate.
    NonFiniteClipPosition,
    /// A clip-space vertex had a non-positive homogeneous w component.
    ClipWNonPositive,
    /// A vertex was outside the portable clip volume.
    ClipOutOfBounds,
}

/// Why a draw list could not be lowered into an owned packet.
#[derive(Clone, Copy, Debug, PartialEq, Eq, Structural)]
pub enum RenderPacketBuildError {
    /// A packet must contain at least one draw.
    EmptyDrawList,
    /// The positional snapshot mapping did not cover every draw exactly once.
    SnapshotCountMismatch {
        /// Number of draw-list entries.
        draws: usize,
        /// Number of supplied snapshots.
        snapshots: usize,
    },
    /// The offscreen target width or height was zero.
    InvalidExtent,
    /// The renderer-private CPU preparation graph could not complete.
    PreparationGraph,
    /// One draw failed validation.
    Draw {
        /// Insertion-order index of the invalid draw.
        index: usize,
        /// Stable reason for rejecting that draw.
        reason: RenderPacketDrawBuildError,
    },
}

/// Snapshot reservation failures reported at packet start.
#[derive(Clone, Copy, Debug, PartialEq, Eq, Structural)]
pub enum RenderPacketReservationError {
    /// Another submission currently owns this generation.
    Busy,
    /// A prior accepted raster submission did not prove completion.
    Poisoned,
}

/// Two position streams hold the same binary32 bit patterns in the same order.
pub open spec fn same_position_bits(left: Seq<[u32; 3]>, right: Seq<[u32; 3]>) -> bool {
    &&& left.len() == right.len()
    &&& forall|i: int, c: int| 0 <= i < left.len() && 0 <= c < 3 ==> #[trigger] left[i][c] == right[i][c]
}

/// Compares two position streams bit for bit, so `-0.0` differs from `0.0`
/// and NaN payloads are compared exactly.
pub fn positions_equal_by_bits(left: &[[u32; 3]], right: &[[u32; 3]]) -> (equal: bool)
    ensures
        equal == same_position_bits(left@, right@),
{
    if left.len() != right.len() {
        return false;
    }
    let mut i: usize = 0;
    while i < left.len()
        invariant
            i <= left@.len(),
            left@.len() == right@.len(),
            forall|j: int, c: int| 0 <= j < i && 0 <= c < 3 ==> #[trigger] left@[j][c] == right@[j][c],
        decreases left@.len() - i,
    {
        let a = left[i];
        let b = right[i];
        if a[0] != b[0] || a[1] != b[1] || a[2] != b[2] {
            assert(!same_position_bits(left@, right@)) by {
                if a[0] != b[0] {
                    assert(left@[i as int][0] != right@[i as int][0]);
                } else if a[1] != b[1] {
                    assert(left@[i as int][1] != right@[i as int][1]);
                } else {
                    assert(left@[i as int][2] != right@[i as int][2]);
                }
            }
            return false;
        }
        assert forall|c: int| 0 <= c < 3 implies #[trigger] left@[i as int][c] == right@[i as int][c] by {
            assert(a == left@[i as int] && b == right@[i as int]);
        }
        i = i + 1;
    }
    true
}

/// The message of a packet identity allocation error.
pub open spec fn packet_id_error_message(error: PacketIdError) -> Seq<char> {
    match error {
        PacketIdError::Exhausted => "packet buffer binding identities exhausted"@,
    }
}

impl PacketIdError {
    /// The human-readable description of this error.
    pub fn message(&self) -> (text: String)
        ensures
            text@ == packet_id_error_message(*self),
    {
        match self {
            PacketIdError::Exhausted => text_of("packet buffer binding identities exhausted"),
        }
    }
}

/// The variant name of a packet draw build error, as its debug text.
pub open spec fn draw_build_error_name(error: RenderPacketDrawBuildError) -> Seq<char> {
    match error {
        RenderPacketDrawBuildError::ForeignSnapshotDevice => "ForeignSnapshotDevice"@,
        RenderPacketDrawBuildError::PositionMetadataMismatch => "PositionMetadataMismatch"@,
        RenderPacketDrawBuildError::IndexMetadataMismatch => "IndexMetadataMismatch"@,
        RenderPacketDrawBuildError::InvalidIndexCount => "InvalidIndexCount"@,
        RenderPacketDrawBuildError::InvalidCameraMaterial => "InvalidCameraMaterial"@,
        RenderPacketDrawBuildError::ModelTransformProductNonFinite => "ModelTransformProductNonFinite"@,
        RenderPacketDrawBuildError::NonFinitePosition => "NonFinitePosition"@,
        RenderPacketDrawBuildError::NonFiniteClipPosition => "NonFiniteClipPosition"@,
        RenderPacketDrawBuildError::ClipWNonPositive => "ClipWNonPositive"@,
        RenderPacketDrawBuildError::ClipOutOfBounds => "ClipOutOfBounds"@,
    }
}

impl RenderPacketDrawBuildError {
    /// The debug text of this error: its variant name.
    pub fn debug_name(&self) -> (text: String)
        ensures
            text@ == draw_build_error_name(*self),
    {
        match self {
            RenderPacketDrawBuildError::ForeignSnapshotDevice => text_of("ForeignSnapshotDevice"),
            RenderPacketDrawBuildError::PositionMetadataMismatch => text_of("PositionMetadataMismatch"),
            RenderPacketDrawBuildError::IndexMetadataMismatch => text_of("IndexMetadataMismatch"),
            RenderPacketDrawBuildError::InvalidIndexCount => text_of("InvalidIndexCount"),
            RenderPacketDrawBuildError::InvalidCameraMaterial => text_of("InvalidCameraMaterial"),
            RenderPacketDrawBuildError::ModelTransformProductNonFinite => text_of("ModelTransformProductNonFinite"),
            RenderPacketDrawBuildError::NonFinitePosition => text_of("NonFinitePosition"),
            RenderPacketDrawBuildError::NonFiniteClipPosition => text_of("NonFiniteClipPosition"),
            RenderPacketDrawBuildError::ClipWNonPositive => text_of("ClipWNonPositive"),
            RenderPacketDrawBuildError::ClipOutOfBounds => text_of("ClipOutOfBounds"),
        }
    }
}

/// The debug text of a packet build error.
pub open spec fn build_error_debug(error: RenderPacketBuildError) -> Seq<char> {
    match error {
        RenderPacketBuildError::EmptyDrawList => "EmptyDrawList"@,
        RenderPacketBuildError::SnapshotCountMismatch { draws, snapshots } =>
            "SnapshotCountMismatch { draws: "@ + decimal(draws as nat) + ", snapshots: "@ + decimal(
            snapshots as nat,
        ) + " }"@,
        RenderPacketBuildError::InvalidExtent => "InvalidExtent"@,
        RenderPacketBuildError::PreparationGraph => "PreparationGraph"@,
        RenderPacketBuildError::Draw { index, reason } => "Draw { index: "@ + decimal(index as nat)
            + ", reason: "@ + draw_build_error_name(reason) + " }"@,
    }
}

impl RenderPacketBuildError {
    /// The human-readable description of this error: a prefix and the
    /// error's debug text.
    pub fn message(&self) -> (text: String)
        ensures
            text@ == "packet build failed: "@ + build_error_debug(*self),
    {
        let mut text = text_of("packet build failed: ");
        match self {
            RenderPacketBuildError::EmptyDrawList => text.append("EmptyDrawList"),
            RenderPacketBuildError::SnapshotCountMismatch { draws, snapshots } => {
                text.append("SnapshotCountMismatch { draws: ");
                push_decimal(&mut text, *draws as u64);
                text.append(", snapshots: ");
                push_decimal(&mut text, *snapshots as u64);
                text.append(" }");
            },
            RenderPacketBuildError::InvalidExtent => text.append("InvalidExtent"),
            RenderPacketBuildError::PreparationGraph => text.append("PreparationGraph"),
            RenderPacketBuildError::Draw { index, reason } => {
                text.append("Draw { index: ");
                push_decimal(&mut text, *index as u64);
                text.append(", reason: ");
                let name = reason.debug_name();
                text.append(name.as_str());
                text.append(" }");
            },
        }
        text
    }
}

/// Why a draw list of `draws` entries with `snapshots` snapshots cannot be
/// lowered into a packet of `extent` pixels, checked in that order.
pub open spec fn lowering_error(draws: nat, snapshots: nat, extent: [u32; 2]) -> Option<
    RenderPacketBuildError,
> {
    if draws == 0 {
        Some(RenderPacketBuildError::EmptyDrawList)
    } else if draws != snapshots {
        Some(
            RenderPacketBuildError::SnapshotCountMismatch {
                draws: draws as usize,
                snapshots: snapshots as usize,
            },
        )
    } else if extent[0] == 0 || extent[1] == 0 {
        Some(RenderPacketBuildError::InvalidExtent)
    } else {
        None
    }
}

/// Checks the shape of a lowering request before any draw is prepared: a
/// non-empty list, one snapshot per draw, and a nonzero extent.
pub fn check_lowering(draws: usize, snapshots: usize, extent: [u32; 2]) -> (result: Result<
    (),
    RenderPacketBuildError,
>)
    ensures
        match lowering_error(draws as nat, snapshots as nat, extent) {
            Some(error) => result == Err::<(), _>(error),
            None => result is Ok,
        },
{
    if draws == 0 {
        return Err(RenderPacketBuildError::EmptyDrawList);
    }
    if draws != snapshots {
        return Err(RenderPacketBuildError::SnapshotCountMismatch { draws, snapshots });
    }
    if extent[0] == 0 || extent[1] == 0 {
        return Err(RenderPacketBuildError::InvalidExtent);
    }
    Ok(())
}

/// The packet draw error for a preparation draw error.
pub open spec fn spec_packet_draw_reason(reason: PreparedBasicDrawError) -> RenderPacketDrawBuildError {
    match reason {
        PreparedBasicDrawError::InvalidIndexCount => RenderPacketDrawBuildError::InvalidIndexCount,
        PreparedBasicDrawError::InvalidCameraMaterial => RenderPacketDrawBuildError::InvalidCameraMaterial,
        PreparedBasicDrawError::ModelTransformProductNonFinite =>
            RenderPacketDrawBuildError::ModelTransformProductNonFinite,
        PreparedBasicDrawError::NonFinitePosition => RenderPacketDrawBuildError::NonFinitePosition,
        PreparedBasicDrawError::NonFiniteClipPosition => RenderPacketDrawBuildError::NonFiniteClipPosition,
        PreparedBasicDrawError::ClipWNonPositive => RenderPacketDrawBuildError::ClipWNonPositive,
        PreparedBasicDrawError::ClipOutOfBounds => RenderPacketDrawBuildError::ClipOutOfBounds,
    }
}

/// Maps a shared scene preparation failure to the packet build error that
/// reports it: same insertion index, same reason.
pub fn map_preparation_error(error: PreparedBasicSceneError) -> (mapped: RenderPacketBuildError)
    ensures
        mapped == match error {
            PreparedBasicSceneError::Empty => RenderPacketBuildError::EmptyDrawList,
            PreparedBasicSceneError::PreparationGraph => RenderPacketBuildError::PreparationGraph,
            PreparedBasicSceneError::Draw { index, reason } => RenderPacketBuildError::Draw {
                index,
                reason: spec_packet_draw_reason(reason),
            },
        },
{
    match error {
        PreparedBasicSceneError::Empty => RenderPacketBuildError::EmptyDrawList,
        PreparedBasicSceneError::PreparationGraph => RenderPacketBuildError::PreparationGraph,
        PreparedBasicSceneError::Draw { index, reason } => {
            let reason = match reason {
                PreparedBasicDrawError::InvalidIndexCount => RenderPacketDrawBuildError::InvalidIndexCount,
                PreparedBasicDrawError::InvalidCameraMaterial =>
                    RenderPacketDrawBuildError::InvalidCameraMaterial,
                PreparedBasicDrawError::ModelTransformProductNonFinite =>
                    RenderPacketDrawBuildError::ModelTransformProductNonFinite,
                PreparedBasicDrawError::NonFinitePosition => RenderPacketDrawBuildError::NonFinitePosition,
                PreparedBasicDrawError::NonFiniteClipPosition =>
                    RenderPacketDrawBuildError::NonFiniteClipPosition,
                PreparedBasicDrawError::ClipWNonPositive => RenderPacketDrawBuildError::ClipWNonPositive,
                PreparedBasicDrawError::ClipOutOfBounds => RenderPacketDrawBuildError::ClipOutOfBounds,
            };
            RenderPacketBuildError::Draw { index, reason }
        },
    }
}

/// Compares two index streams element by element.
fn indices_equal(left: &[u32], right: &[u32]) -> (equal: bool)
    ensures
        equal == (left@ == right@),
{
    if left.len() != right.len() {
        return false;
    }
    let mut i: usize = 0;
    while i < left.len()
        invariant
            i <= left@.len(),
            left@.len() == right@.len(),
            forall|j: int| 0 <= j < i ==> left@[j] == right@[j],
        decreases left@.len() - i,
    {
        if left[i] != right[i] {
            assert(left@[i as int] != right@[i as int]);
            return false;
        }
        i = i + 1;
    }
    assert(left@ =~= right@);
    true
}

/// Why a prepared draw does not match its supplied snapshot: a snapshot
/// buffer (`buffer_devices`, positions then indices) on another device, then
/// positions differing by bits, then differing indices.
pub open spec fn draw_snapshot_mismatch(
    device: u64,
    buffer_devices: [u64; 2],
    draw: Geometry,
    snapshot: IndexedMeshSnapshot,
) -> Option<RenderPacketDrawBuildError> {
    if buffer_devices[0] != device || buffer_devices[1] != device {
        Some(RenderPacketDrawBuildError::ForeignSnapshotDevice)
    } else if !same_position_bits(draw.spec_positions(), snapshot.spec_position_metadata()) {
        Some(RenderPacketDrawBuildError::PositionMetadataMismatch)
    } else if draw.spec_indices() != snapshot.spec_index_metadata() {
        Some(RenderPacketDrawBuildError::IndexMetadataMismatch)
    } else {
        None
    }
}

/// Proves that the snapshot supplied for draw `index` is the matching
/// device-local realization of that draw's CPU streams.
pub fn check_packet_draw(
    index: usize,
    device: u64,
    buffer_devices: [u64; 2],
    draw: &Geometry,
    snapshot: &IndexedMeshSnapshot,
) -> (result: Result<(), RenderPacketBuildError>)
    ensures
        match draw_snapshot_mismatch(device, buffer_devices, *draw, *snapshot) {
            Some(reason) => result == Err::<(), _>(RenderPacketBuildError::Draw { index, reason }),
            None => result is Ok,
        },
{
    if buffer_devices[0] != device || buffer_devices[1] != device {
        return Err(
            RenderPacketBuildError::Draw {
                index,
                reason: RenderPacketDrawBuildError::ForeignSnapshotDevice,
            },
        );
    }
    if !positions_equal_by_bits(draw.positions(), snapshot.position_metadata()) {
        return Err(
            RenderPacketBuildError::Draw {
                index,
                reason: RenderPacketDrawBuildError::PositionMetadataMismatch,
            },
        );
    }
    if !indices_equal(draw.indices(), snapshot.index_metadata()) {
        return Err(
            RenderPacketBuildError::Draw {
                index,
                reason: RenderPacketDrawBuildError::IndexMetadataMismatch,
            },
        );
    }
    Ok(())
}

/// The error reported for draw `i` when it does not match its snapshot.
pub open spec fn packet_draw_error(
    i: int,
    device: u64,
    buffer_devices: [u64; 2],
    draw: Geometry,
    snapshot: IndexedMeshSnapshot,
) -> RenderPacketBuildError {
    RenderPacketBuildError::Draw {
        index: i as usize,
        reason: draw_snapshot_mismatch(device, buffer_devices, draw, snapshot)->0,
    }
}

/// Draw `i` matches its snapshot, given with its buffers' devices.
pub open spec fn draw_matches(
    device: u64,
    draws: Seq<PreparedBasicDraw>,
    snapshots: Seq<(IndexedMeshSnapshot, [u64; 2])>,
    i: int,
) -> bool {
    draw_snapshot_mismatch(device, snapshots[i].1, draws[i].spec_geometry(), snapshots[i].0) is None
}

/// One packet draw: the immutable snapshot supplied for a prepared draw and
/// that draw's serialized uniform.
pub struct PacketDraw<'a> {
    /// The device-local realization of the draw's CPU streams.
    pub snapshot: &'a IndexedMeshSnapshot,
    /// The draw's camera/material uniform.
    pub uniform: &'a FrameUniform,
}

/// Associates each prepared draw, in insertion order, with the snapshot at
/// the same position, given with the devices of its position and index
/// buffers: the counts must agree, and the first draw whose snapshot does not
/// match decides the error.
pub fn prepare_draws<'a>(
    device: u64,
    prepared: &'a PreparedBasicScene,
    snapshots: &'a [(IndexedMeshSnapshot, [u64; 2])],
) -> (result: Result<Vec<PacketDraw<'a>>, RenderPacketBuildError>)
    ensures
        prepared.spec_draws().len() != snapshots@.len() ==> result == Err::<Vec<PacketDraw<'a>>, _>(
            RenderPacketBuildError::SnapshotCountMismatch {
                draws: prepared.spec_draws().len() as usize,
                snapshots: snapshots@.len() as usize,
            },
        ),
        prepared.spec_draws().len() == snapshots@.len() ==> {
            &&& result is Ok <==> forall|i: int|
                0 <= i < snapshots@.len() ==> #[trigger] draw_matches(
                    device,
                    prepared.spec_draws(),
                    snapshots@,
                    i,
                )
            &&& result matches Err(error) ==> exists|i: int|
                0 <= i < snapshots@.len() && !#[trigger] draw_matches(
                    device,
                    prepared.spec_draws(),
                    snapshots@,
                    i,
                ) && (forall|j: int|
                    0 <= j < i ==> draw_matches(device, prepared.spec_draws(), snapshots@, j))
                    && error == packet_draw_error(
                    i,
                    device,
                    snapshots@[i].1,
                    prepared.spec_draws()[i].spec_geometry(),
                    snapshots@[i].0,
                )
        },
        result matches Ok(packet) ==> {
            &&& packet@.len() == snapshots@.len()
            &&& forall|i: int|
                0 <= i < packet@.len() ==> {
                    &&& *(#[trigger] packet@[i]).snapshot == snapshots@[i].0
                    &&& *packet@[i].uniform == prepared.spec_draws()[i].spec_uniform()
                }
        },
{
    let draws = prepared.draws();
    if draws.len() != snapshots.len() {
        return Err(
            RenderPacketBuildError::SnapshotCountMismatch {
                draws: draws.len(),
                snapshots: snapshots.len(),
            },
        );
    }
    let mut packet: Vec<PacketDraw<'a>> = Vec::new();
    let mut i: usize = 0;
    while i < draws.len()
        invariant
            draws@ == prepared.spec_draws(),
            i <= draws@.len(),
            draws@.len() == snapshots@.len(),
            packet@.len() == i,
            forall|j: int| 0 <= j < i ==> #[trigger] draw_matches(device, draws@, snapshots@, j),
            forall|j: int|
                0 <= j < i ==> {
                    &&& *(#[trigger] packet@[j]).snapshot == snapshots@[j].0
                    &&& *packet@[j].uniform == draws@[j].spec_uniform()
                },
        decreases draws@.len() - i,
    {
        let entry = &snapshots[i];
        let draw = &draws[i];
        let checked = check_packet_draw(i, device, entry.1, draw.geometry(), &entry.0);
        if let Err(error) = checked {
            assert(!draw_matches(device, draws@, snapshots@, i as int));
            return Err(error);
        }
        assert(draw_matches(device, draws@, snapshots@, i as int));
        packet.push(PacketDraw { snapshot: &entry.0, uniform: draw.uniform() });
        i = i + 1;
    }
    Ok(packet)
}

/// Two position streams compare equal exactly when they are the same
/// sequence of bit patterns: a difference in any component (x, y or z) of
/// any vertex, or a different length, makes them differ, so a prepared draw
/// whose snapshot differs in one coordinate does not match it.
pub proof fn lemma_position_bits_are_exact(left: Seq<[u32; 3]>, right: Seq<[u32; 3]>, i: int, c: int)
    ensures
        same_position_bits(left, right) ==> left.len() == right.len(),
        same_position_bits(left, right) && 0 <= i < left.len() && 0 <= c < 3 ==> left[i][c]
            == right[i][c],
        left.len() == right.len() && 0 <= i < left.len() && 0 <= c < 3 && left[i][c] != right[i][c]
            ==> !same_position_bits(left, right),
        left == right ==> same_position_bits(left, right),
{
}

/// A prepared draw matches its snapshot only if both snapshot buffers are on
/// the packet's device, every position component is bit-identical and the
/// index streams are equal; each failing check names its own reason, in the
/// order devices, positions, indices.
pub proof fn lemma_draw_snapshot_match(
    device: u64,
    buffer_devices: [u64; 2],
    draw: Geometry,
    snapshot: IndexedMeshSnapshot,
    i: int,
    c: int,
)
    ensures
        draw_snapshot_mismatch(device, buffer_devices, draw, snapshot) is None ==> {
            &&& buffer_devices[0] == device
            &&& buffer_devices[1] == device
            &&& draw.spec_positions().len() == snapshot.spec_position_metadata().len()
            &&& (0 <= i < draw.spec_positions().len() && 0 <= c < 3 ==> draw.spec_positions()[i][c]
                == snapshot.spec_position_metadata()[i][c])
            &&& draw.spec_indices() == snapshot.spec_index_metadata()
        },
        (buffer_devices[0] != device || buffer_devices[1] != device) ==> draw_snapshot_mismatch(
            device,
            buffer_devices,
            draw,
            snapshot,
        ) == Some(RenderPacketDrawBuildError::ForeignSnapshotDevice),
        buffer_devices[0] == device && buffer_devices[1] == device && 0 <= i
            < draw.spec_positions().len() && 0 <= c < 3 && draw.spec_positions().len()
            == snapshot.spec_position_metadata().len() && draw.spec_positions()[i][c]
            != snapshot.spec_position_metadata()[i][c] ==> draw_snapshot_mismatch(
            device,
            buffer_devices,
            draw,
            snapshot,
        ) == Some(RenderPacketDrawBuildError::PositionMetadataMismatch),
        buffer_devices[0] == device && buffer_devices[1] == device && draw.spec_positions()
            == snapshot.spec_position_metadata() && draw.spec_indices()
            != snapshot.spec_index_metadata() ==> draw_snapshot_mismatch(
            device,
            buffer_devices,
            draw,
            snapshot,
        ) == Some(RenderPacketDrawBuildError::IndexMetadataMismatch),
{
}

/// A lowering request is rejected for an empty draw list first, then for a
/// snapshot count other than the draw count, then for a zero extent; a
/// non-empty list with one snapshot per draw and a nonzero extent is shaped
/// correctly.
pub proof fn lemma_lowering_checks(draws: nat, snapshots: nat, extent: [u32; 2])
    ensures
        draws == 0 ==> lowering_error(draws, snapshots, extent) == Some(
            RenderPacketBuildError::EmptyDrawList,
        ),
        draws > 0 && draws != snapshots ==> lowering_error(draws, snapshots, extent) == Some(
            RenderPacketBuildError::SnapshotCountMismatch {
                draws: draws as usize,
                snapshots: snapshots as usize,
            },
        ),
        lowering_error(draws, snapshots, extent) is None <==> (draws > 0 && draws == snapshots
            && extent[0] != 0 && extent[1] != 0),
{
}

} // verus!
