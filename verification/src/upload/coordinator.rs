//! Non-blocking upload coordinators.
//!
//! The caller owns the accepted native submissions and observes them; each
//! poll hands the observations of the still pending streams to the
//! coordinator, which decides readiness, the first terminal failure, and the
//! single atomic publication of a ready generation.

use vstd::prelude::*;

use crate::scene::Geometry;
use crate::upload::payload::{check_indexed_geometry, indexed_payload_error, IndexedMeshUploadStartError};
use crate::upload::publication::{
    RetainedUploadState, SnapshotPublication, TexturedSnapshotPublication,
};
use crate::upload::image::Rgba8Image;
use crate::upload::snapshot::{
    BaseColorTextureSnapshot, IndexedMeshSnapshot, TexturedIndexedMeshSnapshot,
};
use crate::upload::textured::{TexturedGeometry, TexturedGeometryStream};

verus! {

/// A completion status reported by an accepted submission.
#[derive(Clone, Copy, Debug, PartialEq, Eq)]
pub enum CompletionStatus<C> {
    /// The submission has not completed.
    Pending,
    /// The submission completed.
    Complete,
    /// The submission reached a terminal failure.
    Failed(C),
    /// A status outside the closed upload contract.
    Unrecognized,
}

/// What one observation of an accepted, still pending submission found.
#[derive(Clone, Debug, PartialEq, Eq)]
pub enum SlotObservation<C, E> {
    /// The submission completed and its resource was finalized.
    Finalized,
    /// The submission is still retained and reported this status (for a
    /// completion whose resource could not be finalized yet, the status that
    /// the incomplete submission reported).
    Retained(CompletionStatus<C>),
    /// Completion could no longer be observed safely.
    Unobservable(E),
}

/// The readiness of a stream after observing it: a pending stream whose
/// submission was finalized becomes ready; nothing else changes it.
pub open spec fn observed_slot<C, E>(
    state: RetainedUploadState,
    observation: Option<SlotObservation<C, E>>,
) -> RetainedUploadState {
    match observation {
        Some(SlotObservation::Finalized) => if state == RetainedUploadState::Pending {
            RetainedUploadState::Ready
        } else {
            state
        },
        _ => state,
    }
}

/// A recorded failure is kept; a new one is recorded only when none was.
pub open spec fn first_failure<F>(current: Option<F>, new: Option<F>) -> Option<F> {
    if current is Some {
        current
    } else {
        new
    }
}

/// A terminal or observed failure of one indexed-mesh upload generation.
#[derive(Clone, Debug, PartialEq, Eq)]
pub enum IndexedMeshUploadFailure<C, E> {
    /// The position-buffer submission reached a terminal GPU failure.
    Positions(C),
    /// The index-buffer submission reached a terminal GPU failure.
    Indices(C),
    /// A position submission could no longer be observed safely.
    PositionCompletion(E),
    /// An index submission could no longer be observed safely.
    IndexCompletion(E),
    /// Positions were accepted, but the index submission could not be started.
    IndexStartAfterPositionsAccepted(E),
}

/// The non-blocking observable state of an [`IndexedMeshUpload`].
#[derive(Clone, Debug, PartialEq, Eq)]
pub enum IndexedMeshUploadStatus<C, E> {
    /// At least one accepted upload is still incomplete.
    Pending,
    /// Both accepted uploads completed and an immutable snapshot is available.
    Ready,
    /// This generation cannot become ready.
    Failed(IndexedMeshUploadFailure<C, E>),
}

/// `copy` is a clone of `failure`: the same variant, with a cloned payload.
pub open spec fn indexed_failure_cloned<C: Clone, E: Clone>(
    failure: IndexedMeshUploadFailure<C, E>,
    copy: IndexedMeshUploadFailure<C, E>,
) -> bool {
    match failure {
        IndexedMeshUploadFailure::Positions(a) => copy matches IndexedMeshUploadFailure::Positions(
            b,
        ) && cloned(a, b),
        IndexedMeshUploadFailure::Indices(a) => copy matches IndexedMeshUploadFailure::Indices(b)
            && cloned(a, b),
        IndexedMeshUploadFailure::PositionCompletion(a) =>
            copy matches IndexedMeshUploadFailure::PositionCompletion(b) && cloned(a, b),
        IndexedMeshUploadFailure::IndexCompletion(a) =>
            copy matches IndexedMeshUploadFailure::IndexCompletion(b) && cloned(a, b),
        IndexedMeshUploadFailure::IndexStartAfterPositionsAccepted(a) =>
            copy matches IndexedMeshUploadFailure::IndexStartAfterPositionsAccepted(b) && cloned(
                a,
                b,
            ),
    }
}

/// Clones a failure variant by variant.
fn clone_indexed_failure<C: Clone, E: Clone>(failure: &IndexedMeshUploadFailure<C, E>) -> (copy:
    IndexedMeshUploadFailure<C, E>)
    ensures
        indexed_failure_cloned(*failure, copy),
{
    match failure {
        IndexedMeshUploadFailure::Positions(a) => IndexedMeshUploadFailure::Positions(a.clone()),
        IndexedMeshUploadFailure::Indices(a) => IndexedMeshUploadFailure::Indices(a.clone()),
        IndexedMeshUploadFailure::PositionCompletion(a) => IndexedMeshUploadFailure::PositionCompletion(
            a.clone(),
        ),
        IndexedMeshUploadFailure::IndexCompletion(a) => IndexedMeshUploadFailure::IndexCompletion(
            a.clone(),
        ),
        IndexedMeshUploadFailure::IndexStartAfterPositionsAccepted(a) =>
            IndexedMeshUploadFailure::IndexStartAfterPositionsAccepted(a.clone()),
    }
}

/// The failure that a reported status contributes for the position stream
/// (`positions`) or the index stream: only a terminal failure counts.
pub open spec fn indexed_status_failure<C, E>(
    status: CompletionStatus<C>,
    positions: bool,
) -> Option<IndexedMeshUploadFailure<C, E>> {
    match status {
        CompletionStatus::Failed(reason) => Some(
            if positions {
                IndexedMeshUploadFailure::Positions(reason)
            } else {
                IndexedMeshUploadFailure::Indices(reason)
            },
        ),
        _ => None,
    }
}

/// The failure that observing a stream in `state` contributes.
pub open spec fn indexed_slot_failure<C, E>(
    state: RetainedUploadState,
    positions: bool,
    observation: Option<SlotObservation<C, E>>,
) -> Option<IndexedMeshUploadFailure<C, E>> {
    if state == RetainedUploadState::Pending {
        match observation {
            Some(SlotObservation::Retained(status)) => indexed_status_failure(status, positions),
            Some(SlotObservation::Unobservable(error)) => Some(
                if positions {
                    IndexedMeshUploadFailure::PositionCompletion(error)
                } else {
                    IndexedMeshUploadFailure::IndexCompletion(error)
                },
            ),
            _ => None,
        }
    } else {
        None
    }
}

/// Records the failure carried by `status`, unless one was already recorded.
fn record_status_failure<C, E>(
    status: CompletionStatus<C>,
    positions: bool,
    failure: &mut Option<IndexedMeshUploadFailure<C, E>>,
)
    ensures
        *final(failure) == first_failure(*old(failure), indexed_status_failure(status, positions)),
    no_unwind
{
    if let CompletionStatus::Failed(reason) = status {
        if let None = failure {
            *failure = Some(
                if positions {
                    IndexedMeshUploadFailure::Positions(reason)
                } else {
                    IndexedMeshUploadFailure::Indices(reason)
                },
            );
        }
    }
}

/// Applies one observation to a stream: only a pending stream is observed.
fn poll_slot<C, E>(
    slot: &mut RetainedUploadState,
    positions: bool,
    observation: Option<SlotObservation<C, E>>,
    failure: &mut Option<IndexedMeshUploadFailure<C, E>>,
)
    ensures
        *final(slot) == observed_slot(*old(slot), observation),
        *final(failure) == first_failure(
            *old(failure),
            indexed_slot_failure(*old(slot), positions, observation),
        ),
    no_unwind
{
    if *slot != RetainedUploadState::Pending {
        return ;
    }
    match observation {
        None => {},
        Some(SlotObservation::Finalized) => {
            *slot = RetainedUploadState::Ready;
        },
        Some(SlotObservation::Retained(status)) => {
            record_status_failure(status, positions, failure);
        },
        Some(SlotObservation::Unobservable(error)) => {
            if let None = failure {
                *failure = Some(
                    if positions {
                        IndexedMeshUploadFailure::PositionCompletion(error)
                    } else {
                        IndexedMeshUploadFailure::IndexCompletion(error)
                    },
                );
            }
        },
    }
}

/// The decision state of an indexed-mesh upload.
pub struct IndexedUploadState<C, E> {
    /// Position stream readiness.
    pub positions: RetainedUploadState,
    /// Index stream readiness.
    pub indices: RetainedUploadState,
    /// The first failure observed, if any.
    pub failure: Option<IndexedMeshUploadFailure<C, E>>,
    /// Whether the ready snapshot was published.
    pub published: bool,
}

/// A published generation handed its buffers to the snapshot and carries no
/// failure.
pub open spec fn indexed_state_valid<C, E>(state: IndexedUploadState<C, E>) -> bool {
    state.published ==> {
        &&& state.positions == RetainedUploadState::Missing
        &&& state.indices == RetainedUploadState::Missing
        &&& state.failure is None
    }
}

/// The state after observing both streams, before publication.
pub open spec fn indexed_observe<C, E>(
    state: IndexedUploadState<C, E>,
    positions: Option<SlotObservation<C, E>>,
    indices: Option<SlotObservation<C, E>>,
) -> IndexedUploadState<C, E> {
    let after_positions = first_failure(
        state.failure,
        indexed_slot_failure(state.positions, true, positions),
    );
    IndexedUploadState {
        positions: observed_slot(state.positions, positions),
        indices: observed_slot(state.indices, indices),
        failure: first_failure(after_positions, indexed_slot_failure(state.indices, false, indices)),
        published: state.published,
    }
}

/// One poll: observe both streams, then publish once if no failure was
/// observed and both streams are ready, handing both buffers to the snapshot.
pub open spec fn indexed_poll_next<C, E>(
    state: IndexedUploadState<C, E>,
    positions: Option<SlotObservation<C, E>>,
    indices: Option<SlotObservation<C, E>>,
) -> IndexedUploadState<C, E> {
    let observed = indexed_observe(state, positions, indices);
    if observed.failure is None && !observed.published && observed.positions
        == RetainedUploadState::Ready && observed.indices == RetainedUploadState::Ready {
        IndexedUploadState {
            positions: RetainedUploadState::Missing,
            indices: RetainedUploadState::Missing,
            failure: None,
            published: true,
        }
    } else {
        observed
    }
}

/// `status` reports `state`: its failure if any, else readiness.
pub open spec fn indexed_status_reports<C: Clone, E: Clone>(
    state: IndexedUploadState<C, E>,
    status: IndexedMeshUploadStatus<C, E>,
) -> bool {
    match state.failure {
        Some(failure) => status matches IndexedMeshUploadStatus::Failed(copy)
            && indexed_failure_cloned(failure, copy),
        None => if state.published {
            status is Ready
        } else {
            status is Pending
        },
    }
}

/// One opt-in, non-blocking indexed-mesh upload operation.
///
/// It is the unique coordinator of both accepted submissions: the caller
/// observes each still pending submission and hands the observation to
/// [`Self::poll`].
pub struct IndexedMeshUpload<C, E> {
    generation: u64,
    position_count: u32,
    index_count: u32,
    position_metadata: Vec<[u32; 3]>,
    index_metadata: Vec<u32>,
    positions: RetainedUploadState,
    indices: RetainedUploadState,
    failure: Option<IndexedMeshUploadFailure<C, E>>,
    snapshot: Option<IndexedMeshSnapshot>,
}

impl<C, E> View for IndexedMeshUpload<C, E> {
    type V = IndexedUploadState<C, E>;

    closed spec fn view(&self) -> IndexedUploadState<C, E> {
        IndexedUploadState {
            positions: self.positions,
            indices: self.indices,
            failure: self.failure,
            published: self.snapshot is Some,
        }
    }
}

impl<C, E> IndexedMeshUpload<C, E> {
    /// The decision state is valid, the counts are those of the metadata,
    /// and a published snapshot carries this generation and its metadata.
    #[verifier::type_invariant]
    pub closed spec fn well_formed(&self) -> bool {
        &&& indexed_state_valid(self@)
        &&& self.position_count == self.position_metadata@.len()
        &&& self.index_count == self.index_metadata@.len()
        &&& self.snapshot matches Some(snapshot) ==> {
            &&& snapshot.spec_generation() == self.generation
            &&& snapshot.spec_position_count() == self.position_count
            &&& snapshot.spec_index_count() == self.index_count
            &&& snapshot.spec_position_metadata() == self.position_metadata@
            &&& snapshot.spec_index_metadata() == self.index_metadata@
        }
    }
}

/// `result` is the owning operation of generation `generation` of
/// `geometry` whose positions were accepted and whose index start had
/// outcome `index_start`.
pub open spec fn indexed_begun<C, E>(
    result: Result<IndexedMeshUpload<C, E>, IndexedMeshUploadStartError<E>>,
    generation: u64,
    geometry: Geometry,
    index_start: Result<(), E>,
) -> bool where C: Clone, E: Clone {
    result matches Ok(upload) && {
        &&& upload.spec_generation() == generation
        &&& upload.spec_position_metadata() == geometry.spec_positions()
        &&& upload.spec_index_metadata() == geometry.spec_indices()
        &&& upload@ == (IndexedUploadState {
            positions: RetainedUploadState::Pending,
            indices: if index_start is Ok {
                RetainedUploadState::Pending
            } else {
                RetainedUploadState::Missing
            },
            failure: match index_start {
                Ok(()) => None,
                Err(error) => Some(IndexedMeshUploadFailure::<C, E>::IndexStartAfterPositionsAccepted(error)),
            },
            published: false,
        })
    }
}

impl<C: Clone, E: Clone> IndexedMeshUpload<C, E> {
    /// The generation identity.
    pub closed spec fn spec_generation(&self) -> u64 {
        self.generation
    }

    /// The original positions.
    pub closed spec fn spec_position_metadata(&self) -> Seq<[u32; 3]> {
        self.position_metadata@
    }

    /// The original indices.
    pub closed spec fn spec_index_metadata(&self) -> Seq<u32> {
        self.index_metadata@
    }

    /// The published snapshot, if any.
    pub closed spec fn spec_snapshot(&self) -> Option<IndexedMeshSnapshot> {
        self.snapshot
    }

    /// Coordinates a new generation of `geometry`: after the same checks as
    /// the payload serialization, `start_positions` starts the position
    /// upload, and only once it was accepted does `start_indices` start the
    /// index upload.
    ///
    /// A rejected position upload is the start error. Once positions were
    /// accepted every outcome yields an owning operation; an index-start
    /// failure is recorded as the generation's failure, and the accepted
    /// position submission stays retained.
    pub fn begin<FP, FI>(
        generation: u64,
        geometry: &Geometry,
        start_positions: FP,
        start_indices: FI,
    ) -> (result: Result<Self, IndexedMeshUploadStartError<E>>) where
        FP: FnOnce() -> Result<(), E>,
        FI: FnOnce() -> Result<(), E>,

        requires
            start_positions.requires(()),
            start_indices.requires(()),
        ensures
            match indexed_payload_error::<E>(*geometry) {
                Some(error) => result == Err::<Self, _>(error),
                None => exists|position_start: Result<(), E>|
                    #[trigger] start_positions.ensures((), position_start) && match position_start {
                        Err(error) => result == Err::<Self, _>(
                            IndexedMeshUploadStartError::PositionUpload(error),
                        ),
                        Ok(()) => exists|index_start: Result<(), E>|
                            #[trigger] start_indices.ensures((), index_start) && indexed_begun(
                                result,
                                generation,
                                *geometry,
                                index_start,
                            ),
                    },
            },
    {
        check_indexed_geometry::<E>(geometry)?;
        let position_start = start_positions();
        if let Err(error) = position_start {
            return Err(IndexedMeshUploadStartError::PositionUpload(error));
        }
        let index_start = start_indices();
        let positions = crate::upload::snapshot::copy_slice(geometry.positions());
        let indices = crate::upload::snapshot::copy_slice(geometry.indices());
        let position_count = positions.len() as u32;
        let index_count = indices.len() as u32;
        let (index_state, failure) = match index_start {
            Ok(()) => (RetainedUploadState::Pending, None),
            Err(error) => (
                RetainedUploadState::Missing,
                Some(IndexedMeshUploadFailure::IndexStartAfterPositionsAccepted(error)),
            ),
        };
        Ok(
            Self {
                generation,
                position_count,
                index_count,
                position_metadata: positions,
                index_metadata: indices,
                positions: RetainedUploadState::Pending,
                indices: index_state,
                failure,
                snapshot: None,
            },
        )
    }

    /// Applies the observations of the pending streams and publishes at most
    /// once. A failure is terminal: the accepted sibling is still observed,
    /// but the generation never turns ready.
    pub fn poll(
        &mut self,
        positions: Option<SlotObservation<C, E>>,
        indices: Option<SlotObservation<C, E>>,
    ) -> (status: IndexedMeshUploadStatus<C, E>)
        ensures
            final(self)@ == indexed_poll_next(old(self)@, positions, indices),
            indexed_state_valid(final(self)@),
            indexed_status_reports(final(self)@, status),
            final(self).spec_generation() == old(self).spec_generation(),
            final(self).spec_position_metadata() == old(self).spec_position_metadata(),
            final(self).spec_index_metadata() == old(self).spec_index_metadata(),
            old(self).spec_snapshot() is Some ==> final(self).spec_snapshot() == old(
                self,
            ).spec_snapshot(),
            (old(self).spec_snapshot() is None && final(self).spec_snapshot() is Some)
                ==> final(self).spec_snapshot()->0.spec_gate()@
                == crate::upload::gate::SnapshotUseState::Ready,
    {
        proof {
            use_type_invariant(&*self);
            lemma_indexed_poll_keeps_validity(self@, positions, indices);
        }
        let ghost before = self@;
        poll_slot(&mut self.positions, true, positions, &mut self.failure);
        poll_slot(&mut self.indices, false, indices, &mut self.failure);
        assert(self@ == indexed_observe(before, positions, indices));
        if let Some(failure) = &self.failure {
            return IndexedMeshUploadStatus::Failed(clone_indexed_failure(failure));
        }
        let publication = SnapshotPublication::new(
            self.positions,
            self.indices,
            self.failure.is_some(),
        );
        if self.snapshot.is_none() && publication.can_publish() {
            proof {
                assert(seq![self.positions, self.indices][0] == self.positions);
                assert(seq![self.positions, self.indices][1] == self.indices);
            }
            self.positions = RetainedUploadState::Missing;
            self.indices = RetainedUploadState::Missing;
            self.snapshot = Some(
                IndexedMeshSnapshot::publish(
                    self.generation,
                    self.position_count,
                    self.index_count,
                    self.position_metadata.as_slice(),
                    self.index_metadata.as_slice(),
                ),
            );
        }
        if self.snapshot.is_some() {
            IndexedMeshUploadStatus::Ready
        } else {
            IndexedMeshUploadStatus::Pending
        }
    }

    /// The immutable ready snapshot, once a poll published it; it carries
    /// this generation and the metadata the upload began with.
    pub fn ready_snapshot(&self) -> (snapshot: Option<&IndexedMeshSnapshot>)
        ensures
            indexed_state_valid(self@),
            snapshot is Some <==> self@.published,
            snapshot matches Some(s) ==> {
                &&& self.spec_snapshot() == Some(*s)
                &&& s.spec_generation() == self.spec_generation()
                &&& s.spec_position_metadata() == self.spec_position_metadata()
                &&& s.spec_index_metadata() == self.spec_index_metadata()
                &&& s.spec_position_count() == self.spec_position_metadata().len()
                &&& s.spec_index_count() == self.spec_index_metadata().len()
            },
    {
        proof {
            use_type_invariant(self);
        }
        self.snapshot.as_ref()
    }
}

/// A failure is monotonic: once recorded, every later poll keeps exactly it.
pub proof fn lemma_indexed_failure_is_monotonic<C, E>(
    state: IndexedUploadState<C, E>,
    positions: Option<SlotObservation<C, E>>,
    indices: Option<SlotObservation<C, E>>,
)
    requires
        state.failure is Some,
    ensures
        indexed_poll_next(state, positions, indices).failure == state.failure,
        indexed_poll_next(state, positions, indices).published == state.published,
{
}

/// A generation that failed never publishes, whatever later completes.
pub proof fn lemma_indexed_failed_never_publishes<C, E>(
    state: IndexedUploadState<C, E>,
    positions: Option<SlotObservation<C, E>>,
    indices: Option<SlotObservation<C, E>>,
)
    requires
        state.failure is Some,
        !state.published,
    ensures
        !indexed_poll_next(state, positions, indices).published,
{
}

/// A partial pair never publishes: a poll publishes only when both streams
/// are ready after its observations and no failure was observed.
pub proof fn lemma_indexed_publishes_only_a_ready_pair<C, E>(
    state: IndexedUploadState<C, E>,
    positions: Option<SlotObservation<C, E>>,
    indices: Option<SlotObservation<C, E>>,
)
    requires
        !state.published,
        indexed_poll_next(state, positions, indices).published,
    ensures
        observed_slot(state.positions, positions) == RetainedUploadState::Ready,
        observed_slot(state.indices, indices) == RetainedUploadState::Ready,
        indexed_observe(state, positions, indices).failure is None,
{
}

/// Readiness is stable: a published generation stays published and never
/// reports a failure.
pub proof fn lemma_indexed_ready_is_stable<C, E>(
    state: IndexedUploadState<C, E>,
    positions: Option<SlotObservation<C, E>>,
    indices: Option<SlotObservation<C, E>>,
)
    requires
        indexed_state_valid(state),
        state.published,
    ensures
        indexed_poll_next(state, positions, indices) == state,
{
}

/// A failed upload never exposes a snapshot: a valid state that recorded a
/// failure has none published, and no later poll publishes one or changes
/// the failure.
pub proof fn lemma_indexed_failed_upload_has_no_snapshot<C, E>(
    state: IndexedUploadState<C, E>,
    positions: Option<SlotObservation<C, E>>,
    indices: Option<SlotObservation<C, E>>,
)
    requires
        indexed_state_valid(state),
        state.failure is Some,
    ensures
        !state.published,
        !indexed_poll_next(state, positions, indices).published,
        indexed_poll_next(state, positions, indices).failure == state.failure,
{
}

/// Every poll keeps the decision state valid.
pub proof fn lemma_indexed_poll_keeps_validity<C, E>(
    state: IndexedUploadState<C, E>,
    positions: Option<SlotObservation<C, E>>,
    indices: Option<SlotObservation<C, E>>,
)
    requires
        indexed_state_valid(state),
    ensures
        indexed_state_valid(indexed_poll_next(state, positions, indices)),
{
}


/// A failure after at least one textured geometry upload was accepted.
#[derive(Clone, Debug, PartialEq, Eq)]
pub enum TexturedIndexedMeshUploadFailure<C, E> {
    /// Position submission completed with a failure.
    PositionCompletion(C),
    /// Index submission completed with a failure.
    IndexCompletion(C),
    /// Texture-coordinate submission completed with a failure.
    TextureCoordinateCompletion(C),
    /// Position completion could no longer be observed.
    PositionObservation(E),
    /// Index completion could no longer be observed.
    IndexObservation(E),
    /// Texture-coordinate completion could no longer be observed.
    TextureCoordinateObservation(E),
    /// Position acceptance was followed by an index start failure.
    IndexStartAfterPositionAccepted(E),
    /// Position and index acceptance were followed by a coordinate start failure.
    TextureCoordinateStartAfterPositionAndIndexAccepted(E),
    /// Position completion was outside the closed upload contract.
    PositionUnknownCompletion,
    /// Index completion was outside the closed upload contract.
    IndexUnknownCompletion,
    /// Texture-coordinate completion was outside the closed upload contract.
    TextureCoordinateUnknownCompletion,
}

/// Why no textured geometry upload was accepted.
#[derive(Clone, Debug, PartialEq, Eq)]
pub enum TexturedIndexedMeshUploadStartError<E> {
    /// Position upload was rejected before native acceptance.
    PositionUpload(E),
}

/// Non-blocking state of a [`TexturedIndexedMeshUpload`].
#[derive(Clone, Debug, PartialEq, Eq)]
pub enum TexturedIndexedMeshUploadStatus<C, E> {
    /// At least one accepted stream remains incomplete.
    Pending,
    /// All three streams completed and a single immutable snapshot was published.
    Ready,
    /// This operation cannot publish a snapshot, but retains accepted siblings.
    Failed(TexturedIndexedMeshUploadFailure<C, E>),
}

/// The start failure of the index or texture-coordinate stream.
pub open spec fn spec_textured_start_failure<C, E>(
    stream: TexturedGeometryStream,
    error: E,
) -> TexturedIndexedMeshUploadFailure<C, E> {
    if stream == TexturedGeometryStream::Index {
        TexturedIndexedMeshUploadFailure::IndexStartAfterPositionAccepted(error)
    } else {
        TexturedIndexedMeshUploadFailure::TextureCoordinateStartAfterPositionAndIndexAccepted(error)
    }
}

/// The terminal completion failure of `stream`.
pub open spec fn spec_textured_completion_failure<C, E>(
    stream: TexturedGeometryStream,
    reason: C,
) -> TexturedIndexedMeshUploadFailure<C, E> {
    match stream {
        TexturedGeometryStream::Position => TexturedIndexedMeshUploadFailure::PositionCompletion(
            reason,
        ),
        TexturedGeometryStream::Index => TexturedIndexedMeshUploadFailure::IndexCompletion(reason),
        TexturedGeometryStream::TextureCoordinate =>
            TexturedIndexedMeshUploadFailure::TextureCoordinateCompletion(reason),
    }
}

/// The observation failure of `stream`.
pub open spec fn spec_textured_observation_failure<C, E>(
    stream: TexturedGeometryStream,
    error: E,
) -> TexturedIndexedMeshUploadFailure<C, E> {
    match stream {
        TexturedGeometryStream::Position => TexturedIndexedMeshUploadFailure::PositionObservation(
            error,
        ),
        TexturedGeometryStream::Index => TexturedIndexedMeshUploadFailure::IndexObservation(error),
        TexturedGeometryStream::TextureCoordinate =>
            TexturedIndexedMeshUploadFailure::TextureCoordinateObservation(error),
    }
}

/// The unknown-completion failure of `stream`.
pub open spec fn spec_textured_unknown_completion_failure<C, E>(
    stream: TexturedGeometryStream,
) -> TexturedIndexedMeshUploadFailure<C, E> {
    match stream {
        TexturedGeometryStream::Position => TexturedIndexedMeshUploadFailure::PositionUnknownCompletion,
        TexturedGeometryStream::Index => TexturedIndexedMeshUploadFailure::IndexUnknownCompletion,
        TexturedGeometryStream::TextureCoordinate =>
            TexturedIndexedMeshUploadFailure::TextureCoordinateUnknownCompletion,
    }
}

/// Maps a start rejection after position acceptance to its failure.
pub fn textured_start_failure<C, E>(rejected_stream: TexturedGeometryStream, error: E) -> (failure:
    TexturedIndexedMeshUploadFailure<C, E>)
    requires
        rejected_stream != TexturedGeometryStream::Position,
    ensures
        failure == spec_textured_start_failure::<C, E>(rejected_stream, error),
{
    match rejected_stream {
        TexturedGeometryStream::Index => TexturedIndexedMeshUploadFailure::IndexStartAfterPositionAccepted(
            error,
        ),
        _ => TexturedIndexedMeshUploadFailure::TextureCoordinateStartAfterPositionAndIndexAccepted(
            error,
        ),
    }
}

/// Maps a position start rejection to the start error.
pub fn textured_position_start_error<E>(error: E) -> (start_error: TexturedIndexedMeshUploadStartError<
    E,
>)
    ensures
        start_error == TexturedIndexedMeshUploadStartError::PositionUpload(error),
{
    TexturedIndexedMeshUploadStartError::PositionUpload(error)
}

/// Maps a terminal completion failure of `stream`.
pub fn textured_completion_failure<C, E>(stream: TexturedGeometryStream, reason: C) -> (failure:
    TexturedIndexedMeshUploadFailure<C, E>)
    ensures
        failure == spec_textured_completion_failure::<C, E>(stream, reason),
    no_unwind
{
    match stream {
        TexturedGeometryStream::Position => TexturedIndexedMeshUploadFailure::PositionCompletion(
            reason,
        ),
        TexturedGeometryStream::Index => TexturedIndexedMeshUploadFailure::IndexCompletion(reason),
        TexturedGeometryStream::TextureCoordinate =>
            TexturedIndexedMeshUploadFailure::TextureCoordinateCompletion(reason),
    }
}

/// Maps an observation failure of `stream`.
pub fn textured_observation_failure<C, E>(stream: TexturedGeometryStream, error: E) -> (failure:
    TexturedIndexedMeshUploadFailure<C, E>)
    ensures
        failure == spec_textured_observation_failure::<C, E>(stream, error),
    no_unwind
{
    match stream {
        TexturedGeometryStream::Position => TexturedIndexedMeshUploadFailure::PositionObservation(
            error,
        ),
        TexturedGeometryStream::Index => TexturedIndexedMeshUploadFailure::IndexObservation(error),
        TexturedGeometryStream::TextureCoordinate =>
            TexturedIndexedMeshUploadFailure::TextureCoordinateObservation(error),
    }
}

/// Maps an unknown completion of `stream`.
pub fn textured_unknown_completion_failure<C, E>(stream: TexturedGeometryStream) -> (failure:
    TexturedIndexedMeshUploadFailure<C, E>)
    ensures
        failure == spec_textured_unknown_completion_failure::<C, E>(stream),
    no_unwind
{
    match stream {
        TexturedGeometryStream::Position => TexturedIndexedMeshUploadFailure::PositionUnknownCompletion,
        TexturedGeometryStream::Index => TexturedIndexedMeshUploadFailure::IndexUnknownCompletion,
        TexturedGeometryStream::TextureCoordinate =>
            TexturedIndexedMeshUploadFailure::TextureCoordinateUnknownCompletion,
    }
}

/// The failure that a reported status of `stream` contributes: a terminal
/// failure, or a status outside the closed contract.
pub open spec fn textured_status_failure<C, E>(
    status: CompletionStatus<C>,
    stream: TexturedGeometryStream,
) -> Option<TexturedIndexedMeshUploadFailure<C, E>> {
    match status {
        CompletionStatus::Failed(reason) => Some(spec_textured_completion_failure(stream, reason)),
        CompletionStatus::Unrecognized => Some(spec_textured_unknown_completion_failure(stream)),
        _ => None,
    }
}

/// The failure that observing `stream` in `state` contributes.
pub open spec fn textured_slot_failure<C, E>(
    state: RetainedUploadState,
    stream: TexturedGeometryStream,
    observation: Option<SlotObservation<C, E>>,
) -> Option<TexturedIndexedMeshUploadFailure<C, E>> {
    if state == RetainedUploadState::Pending {
        match observation {
            Some(SlotObservation::Retained(status)) => textured_status_failure(status, stream),
            Some(SlotObservation::Unobservable(error)) => Some(
                spec_textured_observation_failure(stream, error),
            ),
            _ => None,
        }
    } else {
        None
    }
}

/// Records the failure that `status` carries, unless one was already recorded.
pub fn record_textured_completion<C, E>(
    status: CompletionStatus<C>,
    stream: TexturedGeometryStream,
    failure: &mut Option<TexturedIndexedMeshUploadFailure<C, E>>,
)
    ensures
        *final(failure) == first_failure(*old(failure), textured_status_failure(status, stream)),
    no_unwind
{
    match status {
        CompletionStatus::Pending | CompletionStatus::Complete => {},
        CompletionStatus::Failed(reason) => {
            if let None = failure {
                *failure = Some(textured_completion_failure(stream, reason));
            }
        },
        CompletionStatus::Unrecognized => {
            if let None = failure {
                *failure = Some(textured_unknown_completion_failure(stream));
            }
        },
    }
}

/// Applies one observation to a textured stream: only a pending stream is observed.
pub fn poll_textured_slot<C, E>(
    slot: &mut RetainedUploadState,
    stream: TexturedGeometryStream,
    observation: Option<SlotObservation<C, E>>,
    failure: &mut Option<TexturedIndexedMeshUploadFailure<C, E>>,
)
    ensures
        *final(slot) == observed_slot(*old(slot), observation),
        *final(failure) == first_failure(
            *old(failure),
            textured_slot_failure(*old(slot), stream, observation),
        ),
    no_unwind
{
    if *slot != RetainedUploadState::Pending {
        return ;
    }
    match observation {
        None => {},
        Some(SlotObservation::Finalized) => {
            *slot = RetainedUploadState::Ready;
        },
        Some(SlotObservation::Retained(status)) => {
            record_textured_completion(status, stream, failure);
        },
        Some(SlotObservation::Unobservable(error)) => {
            if let None = failure {
                *failure = Some(textured_observation_failure(stream, error));
            }
        },
    }
}

/// `copy` is a clone of `failure`: the same variant, with a cloned payload.
pub open spec fn textured_failure_cloned<C: Clone, E: Clone>(
    failure: TexturedIndexedMeshUploadFailure<C, E>,
    copy: TexturedIndexedMeshUploadFailure<C, E>,
) -> bool {
    match failure {
        TexturedIndexedMeshUploadFailure::PositionCompletion(a) =>
            copy matches TexturedIndexedMeshUploadFailure::PositionCompletion(b) && cloned(a, b),
        TexturedIndexedMeshUploadFailure::IndexCompletion(a) =>
            copy matches TexturedIndexedMeshUploadFailure::IndexCompletion(b) && cloned(a, b),
        TexturedIndexedMeshUploadFailure::TextureCoordinateCompletion(a) =>
            copy matches TexturedIndexedMeshUploadFailure::TextureCoordinateCompletion(b) && cloned(
                a,
                b,
            ),
        TexturedIndexedMeshUploadFailure::PositionObservation(a) =>
            copy matches TexturedIndexedMeshUploadFailure::PositionObservation(b) && cloned(a, b),
        TexturedIndexedMeshUploadFailure::IndexObservation(a) =>
            copy matches TexturedIndexedMeshUploadFailure::IndexObservation(b) && cloned(a, b),
        TexturedIndexedMeshUploadFailure::TextureCoordinateObservation(a) =>
            copy matches TexturedIndexedMeshUploadFailure::TextureCoordinateObservation(b) && cloned(
                a,
                b,
            ),
        TexturedIndexedMeshUploadFailure::IndexStartAfterPositionAccepted(a) =>
            copy matches TexturedIndexedMeshUploadFailure::IndexStartAfterPositionAccepted(b)
                && cloned(a, b),
        TexturedIndexedMeshUploadFailure::TextureCoordinateStartAfterPositionAndIndexAccepted(a) =>
            copy matches TexturedIndexedMeshUploadFailure::TextureCoordinateStartAfterPositionAndIndexAccepted(
                b,
            ) && cloned(a, b),
        TexturedIndexedMeshUploadFailure::PositionUnknownCompletion => copy == failure,
        TexturedIndexedMeshUploadFailure::IndexUnknownCompletion => copy == failure,
        TexturedIndexedMeshUploadFailure::TextureCoordinateUnknownCompletion => copy == failure,
    }
}

/// Clones a failure variant by variant.
fn clone_textured_failure<C: Clone, E: Clone>(failure: &TexturedIndexedMeshUploadFailure<C, E>) -> (copy:
    TexturedIndexedMeshUploadFailure<C, E>)
    ensures
        textured_failure_cloned(*failure, copy),
{
    match failure {
        TexturedIndexedMeshUploadFailure::PositionCompletion(a) =>
            TexturedIndexedMeshUploadFailure::PositionCompletion(a.clone()),
        TexturedIndexedMeshUploadFailure::IndexCompletion(a) =>
            TexturedIndexedMeshUploadFailure::IndexCompletion(a.clone()),
        TexturedIndexedMeshUploadFailure::TextureCoordinateCompletion(a) =>
            TexturedIndexedMeshUploadFailure::TextureCoordinateCompletion(a.clone()),
        TexturedIndexedMeshUploadFailure::PositionObservation(a) =>
            TexturedIndexedMeshUploadFailure::PositionObservation(a.clone()),
        TexturedIndexedMeshUploadFailure::IndexObservation(a) =>
            TexturedIndexedMeshUploadFailure::IndexObservation(a.clone()),
        TexturedIndexedMeshUploadFailure::TextureCoordinateObservation(a) =>
            TexturedIndexedMeshUploadFailure::TextureCoordinateObservation(a.clone()),
        TexturedIndexedMeshUploadFailure::IndexStartAfterPositionAccepted(a) =>
            TexturedIndexedMeshUploadFailure::IndexStartAfterPositionAccepted(a.clone()),
        TexturedIndexedMeshUploadFailure::TextureCoordinateStartAfterPositionAndIndexAccepted(a) =>
            TexturedIndexedMeshUploadFailure::TextureCoordinateStartAfterPositionAndIndexAccepted(
            a.clone()),
        TexturedIndexedMeshUploadFailure::PositionUnknownCompletion =>
            TexturedIndexedMeshUploadFailure::PositionUnknownCompletion,
        TexturedIndexedMeshUploadFailure::IndexUnknownCompletion =>
            TexturedIndexedMeshUploadFailure::IndexUnknownCompletion,
        TexturedIndexedMeshUploadFailure::TextureCoordinateUnknownCompletion =>
            TexturedIndexedMeshUploadFailure::TextureCoordinateUnknownCompletion,
    }
}

/// The decision state of a textured mesh upload.
pub struct TexturedUploadState<C, E> {
    /// Position stream readiness.
    pub positions: RetainedUploadState,
    /// Index stream readiness.
    pub indices: RetainedUploadState,
    /// Texture-coordinate stream readiness.
    pub texture_coordinates: RetainedUploadState,
    /// The first failure observed, if any.
    pub failure: Option<TexturedIndexedMeshUploadFailure<C, E>>,
    /// Whether the ready snapshot was published.
    pub published: bool,
}

/// A published generation handed its buffers to the snapshot and carries no
/// failure.
pub open spec fn textured_state_valid<C, E>(state: TexturedUploadState<C, E>) -> bool {
    state.published ==> {
        &&& state.positions == RetainedUploadState::Missing
        &&& state.indices == RetainedUploadState::Missing
        &&& state.texture_coordinates == RetainedUploadState::Missing
        &&& state.failure is None
    }
}

/// The state after observing all three streams, in position, index,
/// texture-coordinate order, before publication.
pub open spec fn textured_observe<C, E>(
    state: TexturedUploadState<C, E>,
    positions: Option<SlotObservation<C, E>>,
    indices: Option<SlotObservation<C, E>>,
    texture_coordinates: Option<SlotObservation<C, E>>,
) -> TexturedUploadState<C, E> {
    let f1 = first_failure(
        state.failure,
        textured_slot_failure(state.positions, TexturedGeometryStream::Position, positions),
    );
    let f2 = first_failure(
        f1,
        textured_slot_failure(state.indices, TexturedGeometryStream::Index, indices),
    );
    let f3 = first_failure(
        f2,
        textured_slot_failure(
            state.texture_coordinates,
            TexturedGeometryStream::TextureCoordinate,
            texture_coordinates,
        ),
    );
    TexturedUploadState {
        positions: observed_slot(state.positions, positions),
        indices: observed_slot(state.indices, indices),
        texture_coordinates: observed_slot(state.texture_coordinates, texture_coordinates),
        failure: f3,
        published: state.published,
    }
}

/// One poll: observe all streams, then publish once if no failure was
/// observed and all three streams are ready.
pub open spec fn textured_poll_next<C, E>(
    state: TexturedUploadState<C, E>,
    positions: Option<SlotObservation<C, E>>,
    indices: Option<SlotObservation<C, E>>,
    texture_coordinates: Option<SlotObservation<C, E>>,
) -> TexturedUploadState<C, E> {
    let observed = textured_observe(state, positions, indices, texture_coordinates);
    if observed.failure is None && !observed.published && observed.positions
        == RetainedUploadState::Ready && observed.indices == RetainedUploadState::Ready
        && observed.texture_coordinates == RetainedUploadState::Ready {
        TexturedUploadState {
            positions: RetainedUploadState::Missing,
            indices: RetainedUploadState::Missing,
            texture_coordinates: RetainedUploadState::Missing,
            failure: None,
            published: true,
        }
    } else {
        observed
    }
}

/// `status` reports `state`: its failure if any, else readiness.
pub open spec fn textured_status_reports<C: Clone, E: Clone>(
    state: TexturedUploadState<C, E>,
    status: TexturedIndexedMeshUploadStatus<C, E>,
) -> bool {
    match state.failure {
        Some(failure) => status matches TexturedIndexedMeshUploadStatus::Failed(copy)
            && textured_failure_cloned(failure, copy),
        None => if state.published {
            status is Ready
        } else {
            status is Pending
        },
    }
}

/// How far starting the index and texture-coordinate uploads got after the
/// position upload was accepted. The texture-coordinate upload is started
/// only after the index upload was accepted.
#[derive(Clone, Debug, PartialEq, Eq)]
pub enum TexturedStreamStarts<E> {
    /// The index upload was rejected; no coordinate upload was attempted.
    IndexRejected(E),
    /// The index upload was accepted and the coordinate upload rejected.
    CoordinateRejected(E),
    /// Both uploads were accepted.
    AllAccepted,
}

/// The failure recorded for a start outcome.
pub open spec fn textured_begin_failure<C, E>(starts: TexturedStreamStarts<E>) -> Option<
    TexturedIndexedMeshUploadFailure<C, E>,
> {
    match starts {
        TexturedStreamStarts::IndexRejected(error) => Some(
            spec_textured_start_failure(TexturedGeometryStream::Index, error),
        ),
        TexturedStreamStarts::CoordinateRejected(error) => Some(
            spec_textured_start_failure(TexturedGeometryStream::TextureCoordinate, error),
        ),
        TexturedStreamStarts::AllAccepted => None,
    }
}

/// Coordinates the three accepted immutable buffer uploads without blocking.
pub struct TexturedIndexedMeshUpload<C, E> {
    generation: u64,
    position_count: u32,
    index_count: u32,
    position_metadata: Vec<[u32; 3]>,
    index_metadata: Vec<u32>,
    texture_coordinate_metadata: Vec<[u32; 2]>,
    positions: RetainedUploadState,
    indices: RetainedUploadState,
    texture_coordinates: RetainedUploadState,
    failure: Option<TexturedIndexedMeshUploadFailure<C, E>>,
    snapshot: Option<TexturedIndexedMeshSnapshot>,
}

impl<C, E> View for TexturedIndexedMeshUpload<C, E> {
    type V = TexturedUploadState<C, E>;

    closed spec fn view(&self) -> TexturedUploadState<C, E> {
        TexturedUploadState {
            positions: self.positions,
            indices: self.indices,
            texture_coordinates: self.texture_coordinates,
            failure: self.failure,
            published: self.snapshot is Some,
        }
    }
}

impl<C, E> TexturedIndexedMeshUpload<C, E> {
    /// The decision state is valid, the counts are those of the metadata,
    /// and a published snapshot carries this generation and its metadata.
    #[verifier::type_invariant]
    pub closed spec fn well_formed(&self) -> bool {
        &&& textured_state_valid(self@)
        &&& self.position_count == self.position_metadata@.len()
        &&& self.index_count == self.index_metadata@.len()
        &&& self.snapshot matches Some(snapshot) ==> {
            &&& snapshot.spec_generation() == self.generation
            &&& snapshot.spec_position_count() == self.position_count
            &&& snapshot.spec_index_count() == self.index_count
            &&& snapshot.spec_position_metadata() == self.position_metadata@
            &&& snapshot.spec_index_metadata() == self.index_metadata@
            &&& snapshot.spec_texture_coordinate_metadata() == self.texture_coordinate_metadata@
        }
    }
}

impl<C: Clone, E: Clone> TexturedIndexedMeshUpload<C, E> {
    /// The generation identity.
    pub closed spec fn spec_generation(&self) -> u64 {
        self.generation
    }

    /// The original positions.
    pub closed spec fn spec_position_metadata(&self) -> Seq<[u32; 3]> {
        self.position_metadata@
    }

    /// The original indices.
    pub closed spec fn spec_index_metadata(&self) -> Seq<u32> {
        self.index_metadata@
    }

    /// The original texture coordinates.
    pub closed spec fn spec_texture_coordinate_metadata(&self) -> Seq<[u32; 2]> {
        self.texture_coordinate_metadata@
    }

    /// The published snapshot, if any.
    pub closed spec fn spec_snapshot(&self) -> Option<TexturedIndexedMeshSnapshot> {
        self.snapshot
    }

    /// Coordinates a generation whose position upload was accepted; `starts`
    /// tells how far starting the index and texture-coordinate uploads got.
    /// A start failure after position acceptance is recorded as the
    /// generation's failure, and the accepted submissions stay retained.
    pub fn begin(generation: u64, geometry: &TexturedGeometry, starts: TexturedStreamStarts<E>) -> (upload:
        Self)
        ensures
            upload.spec_generation() == generation,
            upload.spec_position_metadata() == geometry.spec_geometry().spec_positions(),
            upload.spec_index_metadata() == geometry.spec_geometry().spec_indices(),
            upload.spec_texture_coordinate_metadata() == geometry.spec_texture_coordinates(),
            upload@ == (TexturedUploadState {
                positions: RetainedUploadState::Pending,
                indices: if starts is IndexRejected {
                    RetainedUploadState::Missing
                } else {
                    RetainedUploadState::Pending
                },
                texture_coordinates: if starts is AllAccepted {
                    RetainedUploadState::Pending
                } else {
                    RetainedUploadState::Missing
                },
                failure: textured_begin_failure::<C, E>(starts),
                published: false,
            }),
    {
        let mesh = geometry.geometry();
        let coordinates = geometry.texture_coordinates();
        let position_metadata = crate::upload::snapshot::copy_slice(mesh.positions());
        let index_metadata = crate::upload::snapshot::copy_slice(mesh.indices());
        let texture_coordinate_metadata = crate::upload::snapshot::copy_slice(coordinates);
        let position_count = position_metadata.len() as u32;
        let index_count = index_metadata.len() as u32;
        let (indices, texture_coordinates, failure) = match starts {
            TexturedStreamStarts::IndexRejected(error) => (
                RetainedUploadState::Missing,
                RetainedUploadState::Missing,
                Some(textured_start_failure(TexturedGeometryStream::Index, error)),
            ),
            TexturedStreamStarts::CoordinateRejected(error) => (
                RetainedUploadState::Pending,
                RetainedUploadState::Missing,
                Some(textured_start_failure(TexturedGeometryStream::TextureCoordinate, error)),
            ),
            TexturedStreamStarts::AllAccepted => (
                RetainedUploadState::Pending,
                RetainedUploadState::Pending,
                None,
            ),
        };
        Self {
            generation,
            position_count,
            index_count,
            position_metadata,
            index_metadata,
            texture_coordinate_metadata,
            positions: RetainedUploadState::Pending,
            indices,
            texture_coordinates,
            failure,
            snapshot: None,
        }
    }

    /// Applies the observations of the pending streams and publishes only if
    /// all three completed. A failure is terminal.
    pub fn poll(
        &mut self,
        positions: Option<SlotObservation<C, E>>,
        indices: Option<SlotObservation<C, E>>,
        texture_coordinates: Option<SlotObservation<C, E>>,
    ) -> (status: TexturedIndexedMeshUploadStatus<C, E>)
        ensures
            final(self)@ == textured_poll_next(old(self)@, positions, indices, texture_coordinates),
            textured_state_valid(final(self)@),
            textured_status_reports(final(self)@, status),
            final(self).spec_generation() == old(self).spec_generation(),
            final(self).spec_position_metadata() == old(self).spec_position_metadata(),
            final(self).spec_index_metadata() == old(self).spec_index_metadata(),
            final(self).spec_texture_coordinate_metadata() == old(
                self,
            ).spec_texture_coordinate_metadata(),
            old(self).spec_snapshot() is Some ==> final(self).spec_snapshot() == old(
                self,
            ).spec_snapshot(),
            (old(self).spec_snapshot() is None && final(self).spec_snapshot() is Some)
                ==> final(self).spec_snapshot()->0.spec_gate()@
                == crate::upload::gate::SnapshotUseState::Ready,
    {
        proof {
            use_type_invariant(&*self);
            lemma_textured_ready_is_stable(self@, positions, indices, texture_coordinates);
        }
        let ghost before = self@;
        poll_textured_slot(
            &mut self.positions,
            TexturedGeometryStream::Position,
            positions,
            &mut self.failure,
        );
        poll_textured_slot(&mut self.indices, TexturedGeometryStream::Index, indices, &mut self.failure);
        poll_textured_slot(
            &mut self.texture_coordinates,
            TexturedGeometryStream::TextureCoordinate,
            texture_coordinates,
            &mut self.failure,
        );
        assert(self@ == textured_observe(before, positions, indices, texture_coordinates));
        if let Some(failure) = &self.failure {
            return TexturedIndexedMeshUploadStatus::Failed(clone_textured_failure(failure));
        }
        let publication = TexturedSnapshotPublication::new(
            self.positions,
            self.indices,
            self.texture_coordinates,
            self.failure.is_some(),
        );
        if self.snapshot.is_none() && publication.can_publish() {
            proof {
                let states = seq![self.positions, self.indices, self.texture_coordinates];
                assert(states[0] == self.positions);
                assert(states[1] == self.indices);
                assert(states[2] == self.texture_coordinates);
            }
            self.positions = RetainedUploadState::Missing;
            self.indices = RetainedUploadState::Missing;
            self.texture_coordinates = RetainedUploadState::Missing;
            self.snapshot = Some(
                TexturedIndexedMeshSnapshot::publish(
                    self.generation,
                    self.position_count,
                    self.index_count,
                    self.position_metadata.as_slice(),
                    self.index_metadata.as_slice(),
                    self.texture_coordinate_metadata.as_slice(),
                ),
            );
        }
        if self.snapshot.is_some() {
            TexturedIndexedMeshUploadStatus::Ready
        } else {
            TexturedIndexedMeshUploadStatus::Pending
        }
    }

    /// The complete snapshot, once a poll published it; it carries this
    /// generation and the metadata the upload began with.
    pub fn ready_snapshot(&self) -> (snapshot: Option<&TexturedIndexedMeshSnapshot>)
        ensures
            textured_state_valid(self@),
            snapshot is Some <==> self@.published,
            snapshot matches Some(s) ==> {
                &&& self.spec_snapshot() == Some(*s)
                &&& s.spec_generation() == self.spec_generation()
                &&& s.spec_position_metadata() == self.spec_position_metadata()
                &&& s.spec_index_metadata() == self.spec_index_metadata()
                &&& s.spec_texture_coordinate_metadata() == self.spec_texture_coordinate_metadata()
                &&& s.spec_position_count() == self.spec_position_metadata().len()
                &&& s.spec_index_count() == self.spec_index_metadata().len()
            },
    {
        proof {
            use_type_invariant(self);
        }
        self.snapshot.as_ref()
    }
}

/// A textured failure is monotonic: once recorded, every later poll keeps it.
pub proof fn lemma_textured_failure_is_monotonic<C, E>(
    state: TexturedUploadState<C, E>,
    positions: Option<SlotObservation<C, E>>,
    indices: Option<SlotObservation<C, E>>,
    texture_coordinates: Option<SlotObservation<C, E>>,
)
    requires
        state.failure is Some,
    ensures
        textured_poll_next(state, positions, indices, texture_coordinates).failure == state.failure,
        textured_poll_next(state, positions, indices, texture_coordinates).published
            == state.published,
{
}

/// A partial or failed triple never publishes: a poll publishes only when
/// all three streams are ready after its observations and no failure was
/// observed.
pub proof fn lemma_textured_publishes_only_a_ready_triple<C, E>(
    state: TexturedUploadState<C, E>,
    positions: Option<SlotObservation<C, E>>,
    indices: Option<SlotObservation<C, E>>,
    texture_coordinates: Option<SlotObservation<C, E>>,
)
    requires
        !state.published,
        textured_poll_next(state, positions, indices, texture_coordinates).published,
    ensures
        observed_slot(state.positions, positions) == RetainedUploadState::Ready,
        observed_slot(state.indices, indices) == RetainedUploadState::Ready,
        observed_slot(state.texture_coordinates, texture_coordinates) == RetainedUploadState::Ready,
        state.failure is None,
        textured_observe(state, positions, indices, texture_coordinates).failure is None,
{
}

/// A failed textured upload never exposes a snapshot, now or after any
/// later poll, and keeps its first failure.
pub proof fn lemma_textured_failed_upload_has_no_snapshot<C, E>(
    state: TexturedUploadState<C, E>,
    positions: Option<SlotObservation<C, E>>,
    indices: Option<SlotObservation<C, E>>,
    texture_coordinates: Option<SlotObservation<C, E>>,
)
    requires
        textured_state_valid(state),
        state.failure is Some,
    ensures
        !state.published,
        !textured_poll_next(state, positions, indices, texture_coordinates).published,
        textured_poll_next(state, positions, indices, texture_coordinates).failure == state.failure,
{
}

/// Readiness is stable, and every poll keeps the decision state valid.
pub proof fn lemma_textured_ready_is_stable<C, E>(
    state: TexturedUploadState<C, E>,
    positions: Option<SlotObservation<C, E>>,
    indices: Option<SlotObservation<C, E>>,
    texture_coordinates: Option<SlotObservation<C, E>>,
)
    requires
        textured_state_valid(state),
    ensures
        textured_state_valid(textured_poll_next(state, positions, indices, texture_coordinates)),
        state.published ==> textured_poll_next(state, positions, indices, texture_coordinates)
            == state,
{
}

/// Why a base-color texture upload could not start before queue acceptance.
#[derive(Clone, Debug, PartialEq, Eq)]
pub enum BaseColorTextureUploadStartError<E> {
    /// The native immutable texture request was rejected before acceptance.
    Upload(E),
}

/// A terminal or observed failure of an accepted base-color texture upload.
#[derive(Clone, Debug, PartialEq, Eq)]
pub enum BaseColorTextureUploadFailure<C, E> {
    /// The texture submission reached a terminal GPU failure.
    Completion(C),
    /// Completion could no longer be observed safely.
    Observation(E),
    /// The submission reported a status outside the closed upload contract.
    UnknownCompletionStatus,
}

/// The non-blocking observable state of a base-color texture upload.
#[derive(Clone, Debug, PartialEq, Eq)]
pub enum BaseColorTextureUploadStatus<C, E> {
    /// The accepted submission has not completed.
    Pending,
    /// Completion proved the texture is ready for immutable use.
    Ready,
    /// This accepted generation cannot become ready.
    Failed(BaseColorTextureUploadFailure<C, E>),
}

/// The failure that a reported status contributes.
pub open spec fn texture_status_failure<C, E>(status: CompletionStatus<C>) -> Option<
    BaseColorTextureUploadFailure<C, E>,
> {
    match status {
        CompletionStatus::Failed(reason) => Some(BaseColorTextureUploadFailure::Completion(reason)),
        CompletionStatus::Unrecognized => Some(BaseColorTextureUploadFailure::UnknownCompletionStatus),
        _ => None,
    }
}

/// The decision state of a base-color texture upload.
pub struct TextureUploadState<C, E> {
    /// Whether the accepted submission is still retained.
    pub pending: bool,
    /// The first failure observed, if any.
    pub failure: Option<BaseColorTextureUploadFailure<C, E>>,
    /// Whether the ready snapshot was published.
    pub published: bool,
}

/// A published texture generation no longer retains its submission.
pub open spec fn texture_state_valid<C, E>(state: TextureUploadState<C, E>) -> bool {
    state.published ==> !state.pending
}

/// One poll of a base-color texture upload. A retained submission is
/// observed: once finalized it publishes the snapshot and is no longer
/// retained; a failure is recorded only if none was.
pub open spec fn texture_poll_next<C, E>(
    state: TextureUploadState<C, E>,
    observation: Option<SlotObservation<C, E>>,
) -> TextureUploadState<C, E> {
    if !state.pending {
        state
    } else {
        match observation {
            Some(SlotObservation::Finalized) => TextureUploadState {
                pending: false,
                failure: state.failure,
                published: true,
            },
            Some(SlotObservation::Retained(status)) => TextureUploadState {
                failure: first_failure(state.failure, texture_status_failure(status)),
                ..state
            },
            Some(SlotObservation::Unobservable(error)) => TextureUploadState {
                failure: first_failure(
                    state.failure,
                    Some(BaseColorTextureUploadFailure::Observation(error)),
                ),
                ..state
            },
            None => state,
        }
    }
}

/// `copy` is a clone of `failure`: the same variant, with a cloned payload.
pub open spec fn texture_failure_cloned<C: Clone, E: Clone>(
    failure: BaseColorTextureUploadFailure<C, E>,
    copy: BaseColorTextureUploadFailure<C, E>,
) -> bool {
    match failure {
        BaseColorTextureUploadFailure::Completion(a) =>
            copy matches BaseColorTextureUploadFailure::Completion(b) && cloned(a, b),
        BaseColorTextureUploadFailure::Observation(a) =>
            copy matches BaseColorTextureUploadFailure::Observation(b) && cloned(a, b),
        BaseColorTextureUploadFailure::UnknownCompletionStatus => copy == failure,
    }
}

/// `status` reports `state`: its failure if any, else readiness.
pub open spec fn texture_status_reports<C: Clone, E: Clone>(
    state: TextureUploadState<C, E>,
    status: BaseColorTextureUploadStatus<C, E>,
) -> bool {
    match state.failure {
        Some(failure) => status matches BaseColorTextureUploadStatus::Failed(copy)
            && texture_failure_cloned(failure, copy),
        None => if state.published {
            status is Ready
        } else {
            status is Pending
        },
    }
}

/// One owning, non-blocking immutable base-color texture upload.
pub struct BaseColorTextureUpload<C, E> {
    generation: u64,
    extent: [u32; 2],
    pending: bool,
    failure: Option<BaseColorTextureUploadFailure<C, E>>,
    snapshot: Option<BaseColorTextureSnapshot>,
}

impl<C, E> View for BaseColorTextureUpload<C, E> {
    type V = TextureUploadState<C, E>;

    closed spec fn view(&self) -> TextureUploadState<C, E> {
        TextureUploadState {
            pending: self.pending,
            failure: self.failure,
            published: self.snapshot is Some,
        }
    }
}

impl<C, E> BaseColorTextureUpload<C, E> {
    /// A published snapshot carries this generation and extent, and its
    /// submission is no longer retained.
    #[verifier::type_invariant]
    pub closed spec fn well_formed(&self) -> bool {
        &&& texture_state_valid(self@)
        &&& self.snapshot matches Some(snapshot) ==> {
            &&& snapshot.spec_generation() == self.generation
            &&& snapshot.spec_extent() == self.extent
        }
    }
}

impl<C: Clone, E: Clone> BaseColorTextureUpload<C, E> {
    /// The generation identity.
    pub closed spec fn spec_generation(&self) -> u64 {
        self.generation
    }

    /// The texel extent.
    pub closed spec fn spec_extent(&self) -> [u32; 2] {
        self.extent
    }

    /// The published snapshot, if any.
    pub closed spec fn spec_snapshot(&self) -> Option<BaseColorTextureSnapshot> {
        self.snapshot
    }

    /// Coordinates an accepted immutable RGBA8 texture upload of `image`.
    pub fn begin(generation: u64, image: &Rgba8Image) -> (upload: Self)
        ensures
            upload.spec_generation() == generation,
            upload.spec_extent() == image.spec_extent(),
            upload@ == (TextureUploadState::<C, E> {
                pending: true,
                failure: None,
                published: false,
            }),
    {
        Self {
            generation,
            extent: image.extent(),
            pending: true,
            failure: None,
            snapshot: None,
        }
    }

    /// Applies the observation of the retained submission.
    pub fn poll(&mut self, observation: Option<SlotObservation<C, E>>) -> (status:
        BaseColorTextureUploadStatus<C, E>)
        ensures
            final(self)@ == texture_poll_next(old(self)@, observation),
            texture_state_valid(final(self)@),
            texture_status_reports(final(self)@, status),
            final(self).spec_generation() == old(self).spec_generation(),
            final(self).spec_extent() == old(self).spec_extent(),
            old(self).spec_snapshot() is Some ==> final(self).spec_snapshot() == old(
                self,
            ).spec_snapshot(),
            (old(self).spec_snapshot() is None && final(self).spec_snapshot() is Some)
                ==> final(self).spec_snapshot()->0.spec_gate()@
                == crate::upload::gate::SnapshotUseState::Ready,
    {
        proof {
            use_type_invariant(&*self);
            lemma_texture_publication(self@, observation);
        }
        if self.pending {
            match observation {
                None => {},
                Some(SlotObservation::Finalized) => {
                    self.pending = false;
                    self.snapshot = Some(BaseColorTextureSnapshot::publish(self.generation, self.extent));
                },
                Some(SlotObservation::Retained(status)) => {
                    self.record_status(status);
                },
                Some(SlotObservation::Unobservable(error)) => {
                    if self.failure.is_none() {
                        self.failure = Some(BaseColorTextureUploadFailure::Observation(error));
                    }
                },
            }
        }
        match &self.failure {
            Some(failure) => BaseColorTextureUploadStatus::Failed(
                match failure {
                    BaseColorTextureUploadFailure::Completion(a) =>
                        BaseColorTextureUploadFailure::Completion(a.clone()),
                    BaseColorTextureUploadFailure::Observation(a) =>
                        BaseColorTextureUploadFailure::Observation(a.clone()),
                    BaseColorTextureUploadFailure::UnknownCompletionStatus =>
                        BaseColorTextureUploadFailure::UnknownCompletionStatus,
                },
            ),
            None => if self.snapshot.is_some() {
                BaseColorTextureUploadStatus::Ready
            } else {
                BaseColorTextureUploadStatus::Pending
            },
        }
    }

    /// Records the failure that `status` carries, unless one was recorded.
    fn record_status(&mut self, status: CompletionStatus<C>)
        ensures
            final(self).failure == first_failure(old(self).failure, texture_status_failure(status)),
            final(self).generation == old(self).generation,
            final(self).extent == old(self).extent,
            final(self).pending == old(self).pending,
            final(self).snapshot == old(self).snapshot,
    {
        proof {
            use_type_invariant(&*self);
        }
        match status {
            CompletionStatus::Pending | CompletionStatus::Complete => {},
            CompletionStatus::Failed(reason) => {
                if self.failure.is_none() {
                    self.failure = Some(BaseColorTextureUploadFailure::Completion(reason));
                }
            },
            CompletionStatus::Unrecognized => {
                if self.failure.is_none() {
                    self.failure = Some(BaseColorTextureUploadFailure::UnknownCompletionStatus);
                }
            },
        }
    }

    /// The immutable snapshot, once the submission was finalized; it
    /// carries this generation and extent.
    pub fn ready_snapshot(&self) -> (snapshot: Option<&BaseColorTextureSnapshot>)
        ensures
            texture_state_valid(self@),
            snapshot is Some <==> self@.published,
            snapshot matches Some(s) ==> {
                &&& self.spec_snapshot() == Some(*s)
                &&& s.spec_generation() == self.spec_generation()
                &&& s.spec_extent() == self.spec_extent()
            },
    {
        proof {
            use_type_invariant(self);
        }
        self.snapshot.as_ref()
    }
}

/// A texture failure is monotonic, and a failed generation never reports
/// ready: once recorded, every later poll keeps exactly that failure.
pub proof fn lemma_texture_failure_is_monotonic<C, E>(
    state: TextureUploadState<C, E>,
    observation: Option<SlotObservation<C, E>>,
)
    requires
        state.failure is Some,
    ensures
        texture_poll_next(state, observation).failure == state.failure,
{
}

/// A texture generation publishes exactly when its retained submission is
/// finalized, and a published one stays published.
pub proof fn lemma_texture_publication<C, E>(
    state: TextureUploadState<C, E>,
    observation: Option<SlotObservation<C, E>>,
)
    requires
        texture_state_valid(state),
    ensures
        texture_state_valid(texture_poll_next(state, observation)),
        state.published ==> texture_poll_next(state, observation).published,
        (!state.published && texture_poll_next(state, observation).published) <==> (state.pending
            && observation == Some(SlotObservation::<C, E>::Finalized)),
{
}

/// What one observation of a pending stream does to an indexed upload that
/// has no failure yet, for the position stream and, when positions report
/// nothing, for the index stream: a completion that can no longer be
/// observed fails the upload with that stream's completion failure, a
/// terminal GPU failure fails it with that stream's failure, and a finalized
/// submission makes the stream ready without a failure.
pub proof fn lemma_indexed_stream_observations<C, E>(
    state: IndexedUploadState<C, E>,
    positions: Option<SlotObservation<C, E>>,
    indices: Option<SlotObservation<C, E>>,
)
    requires
        state.failure is None,
    ensures
        state.positions == RetainedUploadState::Pending ==> {
            &&& positions matches Some(SlotObservation::Unobservable(error)) ==> indexed_poll_next(
                state,
                positions,
                indices,
            ).failure == Some(IndexedMeshUploadFailure::<C, E>::PositionCompletion(error))
            &&& positions matches Some(SlotObservation::Retained(CompletionStatus::Failed(reason)))
                ==> indexed_poll_next(state, positions, indices).failure == Some(
                IndexedMeshUploadFailure::<C, E>::Positions(reason),
            )
        },
        state.indices == RetainedUploadState::Pending && (positions is None || positions
            == Some(SlotObservation::<C, E>::Finalized)) ==> {
            &&& indices matches Some(SlotObservation::Unobservable(error)) ==> indexed_poll_next(
                state,
                positions,
                indices,
            ).failure == Some(IndexedMeshUploadFailure::<C, E>::IndexCompletion(error))
            &&& indices matches Some(SlotObservation::Retained(CompletionStatus::Failed(reason)))
                ==> indexed_poll_next(state, positions, indices).failure == Some(
                IndexedMeshUploadFailure::<C, E>::Indices(reason),
            )
        },
        state.positions == RetainedUploadState::Pending && state.indices
            == RetainedUploadState::Pending && positions == Some(SlotObservation::<C, E>::Finalized)
            && indices == Some(SlotObservation::<C, E>::Finalized) && !state.published
            ==> indexed_poll_next(state, positions, indices).published
            && indexed_poll_next(state, positions, indices).failure is None,
{
}

/// An indexed upload's status is its failure whenever it has one: a failed
/// upload never reports pending or ready.
pub proof fn lemma_indexed_failure_is_reported<C: Clone, E: Clone>(
    state: IndexedUploadState<C, E>,
    status: IndexedMeshUploadStatus<C, E>,
)
    requires
        indexed_status_reports(state, status),
    ensures
        state.failure is Some <==> status is Failed,
        state.failure matches Some(IndexedMeshUploadFailure::PositionCompletion(_)) ==> status
            matches IndexedMeshUploadStatus::Failed(IndexedMeshUploadFailure::PositionCompletion(_)),
        state.failure matches Some(IndexedMeshUploadFailure::IndexCompletion(_)) ==> status
            matches IndexedMeshUploadStatus::Failed(IndexedMeshUploadFailure::IndexCompletion(_)),
        state.failure matches Some(IndexedMeshUploadFailure::Positions(_)) ==> status
            matches IndexedMeshUploadStatus::Failed(IndexedMeshUploadFailure::Positions(_)),
        state.failure matches Some(IndexedMeshUploadFailure::Indices(_)) ==> status
            matches IndexedMeshUploadStatus::Failed(IndexedMeshUploadFailure::Indices(_)),
{
}

/// What one observation of a pending stream does to a textured upload that
/// has no failure yet, for each stream when the streams observed before it
/// report nothing: a completion that can no longer be observed fails the
/// upload with that stream's observation failure, a terminal GPU failure
/// with that stream's completion failure, and a status outside the contract
/// with that stream's unknown-completion failure. Three finalized pending
/// streams publish the snapshot.
pub proof fn lemma_textured_stream_observations<C, E>(
    state: TexturedUploadState<C, E>,
    positions: Option<SlotObservation<C, E>>,
    indices: Option<SlotObservation<C, E>>,
    texture_coordinates: Option<SlotObservation<C, E>>,
)
    requires
        state.failure is None,
    ensures
        state.positions == RetainedUploadState::Pending ==> {
            &&& positions matches Some(SlotObservation::Unobservable(error)) ==> textured_poll_next(
                state,
                positions,
                indices,
                texture_coordinates,
            ).failure == Some(TexturedIndexedMeshUploadFailure::<C, E>::PositionObservation(error))
            &&& positions matches Some(SlotObservation::Retained(CompletionStatus::Failed(reason)))
                ==> textured_poll_next(state, positions, indices, texture_coordinates).failure
                == Some(TexturedIndexedMeshUploadFailure::<C, E>::PositionCompletion(reason))
            &&& positions == Some(
                SlotObservation::<C, E>::Retained(CompletionStatus::Unrecognized),
            ) ==> textured_poll_next(state, positions, indices, texture_coordinates).failure
                == Some(TexturedIndexedMeshUploadFailure::<C, E>::PositionUnknownCompletion)
        },
        state.indices == RetainedUploadState::Pending && positions is None ==> {
            &&& indices matches Some(SlotObservation::Unobservable(error)) ==> textured_poll_next(
                state,
                positions,
                indices,
                texture_coordinates,
            ).failure == Some(TexturedIndexedMeshUploadFailure::<C, E>::IndexObservation(error))
            &&& indices matches Some(SlotObservation::Retained(CompletionStatus::Failed(reason)))
                ==> textured_poll_next(state, positions, indices, texture_coordinates).failure
                == Some(TexturedIndexedMeshUploadFailure::<C, E>::IndexCompletion(reason))
            &&& indices == Some(SlotObservation::<C, E>::Retained(CompletionStatus::Unrecognized))
                ==> textured_poll_next(state, positions, indices, texture_coordinates).failure
                == Some(TexturedIndexedMeshUploadFailure::<C, E>::IndexUnknownCompletion)
        },
        state.positions == RetainedUploadState::Pending && state.indices
            == RetainedUploadState::Pending && state.texture_coordinates
            == RetainedUploadState::Pending && positions == Some(SlotObservation::<C, E>::Finalized)
            && indices == Some(SlotObservation::<C, E>::Finalized) && texture_coordinates == Some(
            SlotObservation::<C, E>::Finalized,
        ) && !state.published ==> textured_poll_next(
            state,
            positions,
            indices,
            texture_coordinates,
        ).published && textured_poll_next(state, positions, indices, texture_coordinates).failure is None,
        state.texture_coordinates == RetainedUploadState::Pending && positions is None
            && indices is None ==> {
            &&& texture_coordinates matches Some(SlotObservation::Unobservable(error))
                ==> textured_poll_next(state, positions, indices, texture_coordinates).failure
                == Some(TexturedIndexedMeshUploadFailure::<C, E>::TextureCoordinateObservation(error))
            &&& texture_coordinates matches Some(
                SlotObservation::Retained(CompletionStatus::Failed(reason)),
            ) ==> textured_poll_next(state, positions, indices, texture_coordinates).failure
                == Some(TexturedIndexedMeshUploadFailure::<C, E>::TextureCoordinateCompletion(reason))
            &&& texture_coordinates == Some(
                SlotObservation::<C, E>::Retained(CompletionStatus::Unrecognized),
            ) ==> textured_poll_next(state, positions, indices, texture_coordinates).failure
                == Some(TexturedIndexedMeshUploadFailure::<C, E>::TextureCoordinateUnknownCompletion)
        },
{
}

/// What one observation of a still retained texture submission does to an
/// upload with no failure yet: a finalized submission publishes the texture
/// and is no longer retained; a terminal GPU failure, a status outside the
/// contract, or a completion that can no longer be observed is recorded as
/// the matching failure and publishes nothing.
pub proof fn lemma_texture_observations<C, E>(
    state: TextureUploadState<C, E>,
    observation: Option<SlotObservation<C, E>>,
)
    requires
        state.pending,
        state.failure is None,
    ensures
        observation == Some(SlotObservation::<C, E>::Finalized) ==> {
            &&& texture_poll_next(state, observation).published
            &&& !texture_poll_next(state, observation).pending
            &&& texture_poll_next(state, observation).failure is None
        },
        observation matches Some(SlotObservation::Unobservable(error)) ==> texture_poll_next(
            state,
            observation,
        ).failure == Some(BaseColorTextureUploadFailure::<C, E>::Observation(error))
            && texture_poll_next(state, observation).published == state.published,
        observation matches Some(SlotObservation::Retained(CompletionStatus::Failed(reason)))
            ==> texture_poll_next(state, observation).failure == Some(
            BaseColorTextureUploadFailure::<C, E>::Completion(reason),
        ) && texture_poll_next(state, observation).published == state.published,
        observation == Some(SlotObservation::<C, E>::Retained(CompletionStatus::Unrecognized))
            ==> texture_poll_next(state, observation).failure == Some(
            BaseColorTextureUploadFailure::<C, E>::UnknownCompletionStatus,
        ),
{
}

} // verus!
