//! The non-blocking lifecycle of one accepted fixed frame.
//!
//! The caller observes the accepted native submission; each poll hands that
//! observation to the submission, which decides the frame's status and
//! retires the snapshot reservation exactly once: released after a complete
//! frame, poisoned after a failure or an abandoned frame.

use vstd::prelude::*;

use crate::fixed_frame::validation::TextureFormat;
use crate::upload::coordinator::CompletionStatus;
use crate::upload::gate::{gate_next, GateEvent, SnapshotDrawReservation, SnapshotUseState, UseGated};

verus! {

/// Metadata of one completed fixed target.
#[derive(Clone, Copy, Debug, PartialEq, Eq)]
pub struct FrameImage {
    extent: [u32; 2],
    format: TextureFormat,
}

impl FrameImage {
    /// The pixel dimensions.
    pub closed spec fn spec_extent(&self) -> [u32; 2] {
        self.extent
    }

    /// The image format.
    pub closed spec fn spec_format(&self) -> TextureFormat {
        self.format
    }

    /// Describes an exported target of `extent` pixels in `format`.
    pub fn new(extent: [u32; 2], format: TextureFormat) -> (image: Self)
        ensures
            image.spec_extent() == extent,
            image.spec_format() == format,
    {
        Self { extent, format }
    }

    /// Returns the pixel dimensions of this headless image.
    pub fn extent(&self) -> (extent: [u32; 2])
        ensures
            extent == self.spec_extent(),
    {
        self.extent
    }

    /// Returns the fixed image format.
    pub fn format(&self) -> (format: TextureFormat)
        ensures
            format == self.spec_format(),
    {
        self.format
    }
}

/// What one observation of the accepted frame found.
#[derive(Clone, Copy, Debug, PartialEq, Eq)]
pub enum FrameObservation<C> {
    /// The executor is momentarily held by another operation.
    ExecutorBusy,
    /// Completion could no longer be observed.
    Unobservable,
    /// The submission reported this status.
    Status(CompletionStatus<C>),
}

/// Why an accepted uniform upload of a two-phase frame could not be
/// observed safely.
#[derive(Clone, Copy, Debug, PartialEq, Eq)]
pub enum FixedFrameUniformObservationError<C, E> {
    /// Querying native completion failed.
    Status(E),
    /// Finalization observed a non-complete status after completion had been reported.
    Finalize(CompletionStatus<C>),
    /// The backend returned a completion state outside the supported contract.
    UnknownCompletionStatus,
}

/// The observed state of a [`FixedFrameSubmission`].
#[derive(Clone, Copy, Debug, PartialEq, Eq)]
pub enum FixedFrameStatus<C> {
    /// The GPU has not completed the accepted submission.
    Pending,
    /// The executor is held by another operation; poll again.
    Busy,
    /// The frame completed and its image is available.
    Complete(FrameImage),
    /// The GPU did not establish the promised terminal state.
    Failed(C),
}

/// The decision state of a fixed frame submission.
pub struct SubmissionState<C> {
    /// The completed image, once the frame completed.
    pub image: Option<FrameImage>,
    /// The terminal failure, once the frame failed.
    pub failure: Option<C>,
    /// Whether the snapshot reservation is still held.
    pub reserved: bool,
}

/// A terminal frame no longer holds its reservation, and at most one
/// terminal outcome is recorded.
pub open spec fn submission_state_valid<C>(state: SubmissionState<C>) -> bool {
    &&& !(state.image is Some && state.failure is Some)
    &&& (state.image is Some || state.failure is Some) ==> !state.reserved
}

/// The terminal failure an observation yields, if any: a reported failure,
/// or `device_lost` when completion is unobservable or outside the contract.
pub open spec fn observed_failure<C>(observation: FrameObservation<C>, device_lost: C) -> Option<C> {
    match observation {
        FrameObservation::Unobservable => Some(device_lost),
        FrameObservation::Status(CompletionStatus::Failed(failure)) => Some(failure),
        FrameObservation::Status(CompletionStatus::Unrecognized) => Some(device_lost),
        _ => None,
    }
}

/// One poll: a terminal frame keeps its outcome; otherwise completion
/// records the image and failure records the failure, both retiring the
/// reservation.
pub open spec fn submission_poll_next<C>(
    state: SubmissionState<C>,
    observation: FrameObservation<C>,
    target: FrameImage,
    device_lost: C,
) -> SubmissionState<C> {
    if state.image is Some || state.failure is Some {
        state
    } else if observation == FrameObservation::<C>::Status(CompletionStatus::Complete) {
        SubmissionState { image: Some(target), failure: None, reserved: false }
    } else if let Some(failure) = observed_failure(observation, device_lost) {
        SubmissionState { image: None, failure: Some(failure), reserved: false }
    } else {
        state
    }
}

/// The status a poll reports for the state it produced from `observation`.
pub open spec fn submission_status<C>(
    state: SubmissionState<C>,
    observation: FrameObservation<C>,
) -> FixedFrameStatus<C> {
    match state.image {
        Some(image) => FixedFrameStatus::Complete(image),
        None => match state.failure {
            Some(failure) => FixedFrameStatus::Failed(failure),
            None => if observation == FrameObservation::<C>::ExecutorBusy {
                FixedFrameStatus::Busy
            } else {
                FixedFrameStatus::Pending
            },
        },
    }
}

/// A non-blocking accepted fixed frame.
pub struct FixedFrameSubmission<C> {
    generation: u64,
    reservation: Option<SnapshotDrawReservation>,
    target: FrameImage,
    image: Option<FrameImage>,
    failure: Option<C>,
    device_lost: C,
}

impl<C> View for FixedFrameSubmission<C> {
    type V = SubmissionState<C>;

    closed spec fn view(&self) -> SubmissionState<C> {
        SubmissionState {
            image: self.image,
            failure: self.failure,
            reserved: self.reservation matches Some(reservation) && reservation.is_active(),
        }
    }
}

impl<C> FixedFrameSubmission<C> {
    /// The decision state is valid.
    #[verifier::type_invariant]
    pub closed spec fn well_formed(&self) -> bool {
        &&& submission_state_valid(self@)
        &&& self.reservation matches Some(reservation) ==> reservation.spec_generation()
            == self.generation
    }
}

impl<C: Copy> FixedFrameSubmission<C> {
    /// The snapshot generation whose reservation this frame holds.
    pub closed spec fn spec_generation(&self) -> u64 {
        self.generation
    }

    /// The image the frame exports once complete.
    pub closed spec fn spec_target(&self) -> FrameImage {
        self.target
    }

    /// The failure reported when completion is unobservable or outside the
    /// closed contract.
    pub closed spec fn spec_device_lost(&self) -> C {
        self.device_lost
    }

    /// Owns the reservation of an accepted frame that exports `target`.
    pub fn accepted(reservation: SnapshotDrawReservation, target: FrameImage, device_lost: C) -> (submission:
        Self)
        ensures
            submission@ == (SubmissionState::<C> {
                image: None,
                failure: None,
                reserved: reservation.is_active(),
            }),
            submission.spec_generation() == reservation.spec_generation(),
            submission.spec_target() == target,
            submission.spec_device_lost() == device_lost,
    {
        let generation = reservation.generation();
        Self { generation, reservation: Some(reservation), target, image: None, failure: None, device_lost }
    }

    /// Applies one observation of the accepted submission. `snapshot` is the
    /// reserved snapshot generation, in flight while reserved.
    pub fn poll<S: UseGated>(&mut self, observation: FrameObservation<C>, snapshot: &mut S) -> (status:
        FixedFrameStatus<C>)
        requires
            old(snapshot).spec_use_gate().spec_generation() == old(self).spec_generation(),
            old(self)@.reserved ==> old(snapshot).spec_use_gate()@ == SnapshotUseState::InFlight,
        ensures
            submission_state_valid(final(self)@),
            final(self).spec_generation() == old(self).spec_generation(),
            final(snapshot).spec_use_gate().spec_generation() == old(snapshot).spec_use_gate().spec_generation(),
            final(self)@ == submission_poll_next(
                old(self)@,
                observation,
                old(self).spec_target(),
                old(self).spec_device_lost(),
            ),
            status == (if old(self)@.image is Some || old(self)@.failure is Some {
                submission_status(old(self)@, FrameObservation::Status(CompletionStatus::Pending))
            } else {
                submission_status(final(self)@, observation)
            }),
            final(self).spec_target() == old(self).spec_target(),
            final(self).spec_device_lost() == old(self).spec_device_lost(),
            final(self)@.image is Some && old(self)@.reserved ==> final(snapshot).spec_use_gate()@ == gate_next(
                old(snapshot).spec_use_gate()@,
                GateEvent::Release,
            ),
            final(self)@.failure is Some && old(self)@.reserved ==> final(snapshot).spec_use_gate()@ == gate_next(
                old(snapshot).spec_use_gate()@,
                GateEvent::Poison,
            ),
            final(self)@.reserved ==> final(snapshot).spec_use_gate()@ == old(snapshot).spec_use_gate()@,
            !old(self)@.reserved ==> final(snapshot).spec_use_gate()@ == old(snapshot).spec_use_gate()@,
    {
        proof {
            use_type_invariant(&*self);
        }
        if let Some(image) = self.image {
            return FixedFrameStatus::Complete(image);
        }
        if let Some(failure) = self.failure {
            return FixedFrameStatus::Failed(failure);
        }
        match observation {
            FrameObservation::ExecutorBusy => FixedFrameStatus::Busy,
            FrameObservation::Unobservable => {
                let lost = self.device_lost;
                self.finish_failed(lost, snapshot)
            },
            FrameObservation::Status(CompletionStatus::Pending) => FixedFrameStatus::Pending,
            FrameObservation::Status(CompletionStatus::Complete) => {
                let image = self.target;
                let mut held = None;
                std::mem::swap(&mut held, &mut self.reservation);
                if let Some(reservation) = held {
                    snapshot.release_reservation(reservation);
                }
                self.image = Some(image);
                FixedFrameStatus::Complete(image)
            },
            FrameObservation::Status(CompletionStatus::Failed(failure)) => self.finish_failed(
                failure,
                snapshot,
            ),
            FrameObservation::Status(CompletionStatus::Unrecognized) => {
                let lost = self.device_lost;
                self.finish_failed(lost, snapshot)
            },
        }
    }

    /// Records a terminal failure and poisons the held reservation.
    fn finish_failed<S: UseGated>(&mut self, failure: C, snapshot: &mut S) -> (status: FixedFrameStatus<
        C,
    >)
        requires
            old(snapshot).spec_use_gate().spec_generation() == old(self).generation,
            old(self).image is None,
            old(self).failure is None,
        ensures
            final(self).generation == old(self).generation,
            final(snapshot).spec_use_gate().spec_generation() == old(snapshot).spec_use_gate().spec_generation(),
            final(self)@ == (SubmissionState { image: None, failure: Some(failure), reserved: false }),
            final(self).target == old(self).target,
            final(self).device_lost == old(self).device_lost,
            status == FixedFrameStatus::Failed(failure),
            old(self)@.reserved ==> final(snapshot).spec_use_gate()@ == gate_next(old(snapshot).spec_use_gate()@, GateEvent::Poison),
            !old(self)@.reserved ==> final(snapshot).spec_use_gate()@ == old(snapshot).spec_use_gate()@,
    {
        proof {
            use_type_invariant(&*self);
        }
        let mut held = None;
        std::mem::swap(&mut held, &mut self.reservation);
        if let Some(reservation) = held {
            snapshot.poison_reservation(reservation);
        }
        self.failure = Some(failure);
        FixedFrameStatus::Failed(failure)
    }

    /// Ends the submission; a frame abandoned while still reserved poisons
    /// its generation, since its terminal state was never proven.
    pub fn drop<S: UseGated>(self, snapshot: &mut S)
        requires
            old(snapshot).spec_use_gate().spec_generation() == self.spec_generation(),
        ensures
            final(snapshot).spec_use_gate().spec_generation() == old(snapshot).spec_use_gate().spec_generation(),
            self@.reserved ==> final(snapshot).spec_use_gate()@ == gate_next(old(snapshot).spec_use_gate()@, GateEvent::Poison),
            !self@.reserved ==> final(snapshot).spec_use_gate()@ == old(snapshot).spec_use_gate()@,
    {
        proof {
            use_type_invariant(&self);
        }
        if let Some(reservation) = self.reservation {
            snapshot.poison_reservation(reservation);
        }
    }
}

/// A terminal frame is stable: once complete or failed, every later poll
/// reports the same outcome and leaves the state unchanged.
pub proof fn lemma_terminal_frame_is_stable<C>(
    state: SubmissionState<C>,
    observation: FrameObservation<C>,
    target: FrameImage,
    device_lost: C,
)
    requires
        state.image is Some || state.failure is Some,
    ensures
        submission_poll_next(state, observation, target, device_lost) == state,
{
}

/// Every poll keeps the decision state valid, and the reservation is
/// retired exactly when the frame becomes terminal.
pub proof fn lemma_reservation_retired_at_terminal<C>(
    state: SubmissionState<C>,
    observation: FrameObservation<C>,
    target: FrameImage,
    device_lost: C,
)
    requires
        submission_state_valid(state),
        state.image is None,
        state.failure is None,
        state.reserved,
    ensures
        submission_state_valid(submission_poll_next(state, observation, target, device_lost)),
        submission_poll_next(state, observation, target, device_lost).reserved <==> (
        submission_poll_next(state, observation, target, device_lost).image is None
            && submission_poll_next(state, observation, target, device_lost).failure is None),
{
}

/// On a frame that has not finished, each observation decides it: a
/// completed submission completes the frame with its target image; a
/// reported failure fails it with that failure; an unrecognized status or a
/// completion that can no longer be observed fails it as lost with the
/// frame's device-lost failure; in each of these cases the reservation is
/// retired. A busy executor or a pending status changes nothing. The status
/// a poll reports is the outcome.
pub proof fn lemma_unfinished_frame_observations<C>(
    state: SubmissionState<C>,
    observation: FrameObservation<C>,
    target: FrameImage,
    device_lost: C,
)
    requires
        state.image is None,
        state.failure is None,
    ensures
        observation == FrameObservation::<C>::Status(CompletionStatus::Complete) ==> {
            &&& submission_poll_next(state, observation, target, device_lost) == (SubmissionState::<
                C,
            > { image: Some(target), failure: None, reserved: false })
            &&& submission_status(submission_poll_next(state, observation, target, device_lost), observation)
                == FixedFrameStatus::<C>::Complete(target)
        },
        observation matches FrameObservation::Status(CompletionStatus::Failed(failure)) ==> {
            &&& submission_poll_next(state, observation, target, device_lost) == (SubmissionState::<
                C,
            > { image: None, failure: Some(failure), reserved: false })
            &&& submission_status(submission_poll_next(state, observation, target, device_lost), observation)
                == FixedFrameStatus::<C>::Failed(failure)
        },
        (observation == FrameObservation::<C>::Unobservable || observation
            == FrameObservation::<C>::Status(CompletionStatus::Unrecognized)) ==> {
            &&& submission_poll_next(state, observation, target, device_lost) == (SubmissionState::<
                C,
            > { image: None, failure: Some(device_lost), reserved: false })
            &&& submission_status(submission_poll_next(state, observation, target, device_lost), observation)
                == FixedFrameStatus::<C>::Failed(device_lost)
        },
        observation == FrameObservation::<C>::ExecutorBusy ==> {
            &&& submission_poll_next(state, observation, target, device_lost) == state
            &&& submission_status(submission_poll_next(state, observation, target, device_lost), observation)
                == FixedFrameStatus::<C>::Busy
        },
        observation == FrameObservation::<C>::Status(CompletionStatus::Pending) ==> {
            &&& submission_poll_next(state, observation, target, device_lost) == state
            &&& submission_status(submission_poll_next(state, observation, target, device_lost), observation)
                == FixedFrameStatus::<C>::Pending
        },
{
}

} // verus!
