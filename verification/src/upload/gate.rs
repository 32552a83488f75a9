//! Snapshot generation use gate and draw reservations.
//!
//! A gate serializes renderer use of one immutable snapshot generation: a
//! reservation moves it from `Ready` to `InFlight`, a proven completion or a
//! pre-submit rejection releases it back to `Ready`, and an uncertain outcome
//! poisons it permanently.

use vstd::prelude::*;

verus! {

/// Why a ready snapshot cannot start another renderer draw.
#[derive(Clone, Copy, Debug, PartialEq, Eq, Structural)]
pub enum SnapshotUseError {
    /// An accepted draw for this generation has not reached a terminal state.
    InFlight,
    /// A prior accepted draw did not prove that the fixed outgoing states held.
    Poisoned,
}

/// The use state of one snapshot generation.
#[derive(Clone, Copy, Debug, PartialEq, Eq, Structural)]
pub enum SnapshotUseState {
    /// No draw currently uses the generation.
    Ready,
    /// One reserved draw has not reached a terminal state.
    InFlight,
    /// A prior accepted draw ended without proof of its outgoing states.
    Poisoned,
}

/// A gate operation, as seen by the generation's use state.
#[derive(Clone, Copy, Debug, PartialEq, Eq, Structural)]
pub enum GateEvent {
    /// An attempt to reserve the generation for one draw.
    Reserve,
    /// A reservation returned the generation after a known outcome.
    Release,
    /// A reservation ended with an uncertain outcome.
    Poison,
}

/// The state reached from `state` by `event`.
pub open spec fn gate_next(state: SnapshotUseState, event: GateEvent) -> SnapshotUseState {
    match event {
        GateEvent::Reserve => match state {
            SnapshotUseState::Ready => SnapshotUseState::InFlight,
            _ => state,
        },
        GateEvent::Release => match state {
            SnapshotUseState::InFlight => SnapshotUseState::Ready,
            _ => state,
        },
        GateEvent::Poison => SnapshotUseState::Poisoned,
    }
}

/// The state reached from `state` by the events in order.
pub open spec fn gate_run(state: SnapshotUseState, events: Seq<GateEvent>) -> SnapshotUseState
    decreases events.len(),
{
    if events.len() == 0 {
        state
    } else {
        gate_run(gate_next(state, events[0]), events.drop_first())
    }
}

/// The outcome of a reservation attempt from `state`.
pub open spec fn reserve_outcome(state: SnapshotUseState) -> Result<(), SnapshotUseError> {
    match state {
        SnapshotUseState::Ready => Ok(()),
        SnapshotUseState::InFlight => Err(SnapshotUseError::InFlight),
        SnapshotUseState::Poisoned => Err(SnapshotUseError::Poisoned),
    }
}

/// The use gate of one snapshot generation.
#[derive(Debug)]
pub struct SnapshotUseGate {
    generation: u64,
    state: SnapshotUseState,
}

impl View for SnapshotUseGate {
    type V = SnapshotUseState;

    closed spec fn view(&self) -> SnapshotUseState {
        self.state
    }
}

/// One private reservation for a snapshot generation.
///
/// It returns to its generation only through [`UseGated`]: released after a
/// pre-submit rejection or a proven completion, poisoned after an uncertain
/// outcome or when abandoned. A reservation names the generation whose gate
/// it holds, and only that gate accepts it.
#[derive(Debug)]
pub struct SnapshotDrawReservation {
    generation: u64,
    active: bool,
}

impl SnapshotDrawReservation {
    /// Whether this reservation still holds its generation.
    pub closed spec fn is_active(self) -> bool {
        self.active
    }

    /// The generation whose gate this reservation holds.
    pub closed spec fn spec_generation(self) -> u64 {
        self.generation
    }

    /// Returns the generation whose gate this reservation holds.
    pub fn generation(&self) -> (generation: u64)
        ensures
            generation == self.spec_generation(),
    {
        self.generation
    }

    /// Releases a reservation after a complete submission restored known state.
    pub(crate) fn release_complete(&mut self, gate: &mut SnapshotUseGate)
        requires
            old(gate).spec_generation() == old(self).spec_generation(),
            old(self).is_active() ==> old(gate)@ == SnapshotUseState::InFlight,
        ensures
            !final(self).is_active(),
            final(self).spec_generation() == old(self).spec_generation(),
            final(gate).spec_generation() == old(gate).spec_generation(),
            old(self).is_active() ==> final(gate)@ == gate_next(old(gate)@, GateEvent::Release),
            !old(self).is_active() ==> final(gate)@ == old(gate)@,
    {
        if self.active {
            gate.release();
            self.active = false;
        }
    }

    /// Ends this reservation; an accepted reservation that was neither
    /// released nor poisoned poisons its generation.
    pub(crate) fn drop(self, gate: &mut SnapshotUseGate)
        requires
            old(gate).spec_generation() == self.spec_generation(),
        ensures
            final(gate).spec_generation() == old(gate).spec_generation(),
            self.is_active() ==> final(gate)@ == gate_next(old(gate)@, GateEvent::Poison),
            !self.is_active() ==> final(gate)@ == old(gate)@,
    {
        if self.active {
            gate.poison();
        }
    }
}

impl SnapshotUseGate {
    /// The generation this gate serializes.
    pub closed spec fn spec_generation(&self) -> u64 {
        self.generation
    }

    /// A ready gate for the given generation.
    pub(crate) fn new(generation: u64) -> (gate: Self)
        ensures
            gate@ == SnapshotUseState::Ready,
            gate.spec_generation() == generation,
    {
        Self { generation, state: SnapshotUseState::Ready }
    }

    /// Returns the generation this gate serializes.
    pub fn generation(&self) -> (generation: u64)
        ensures
            generation == self.spec_generation(),
    {
        self.generation
    }

    /// Reserves the generation for one draw if no other draw holds it and no
    /// prior draw poisoned it.
    pub(crate) fn reserve(&mut self) -> (result: Result<SnapshotDrawReservation, SnapshotUseError>)
        ensures
            final(self)@ == gate_next(old(self)@, GateEvent::Reserve),
            final(self).spec_generation() == old(self).spec_generation(),
            result is Ok <==> reserve_outcome(old(self)@) is Ok,
            result matches Ok(reservation) ==> reservation.is_active()
                && reservation.spec_generation() == old(self).spec_generation(),
            result matches Err(error) ==> reserve_outcome(old(self)@) == Err::<(), _>(error),
    {
        match self.state {
            SnapshotUseState::Ready => {
                self.state = SnapshotUseState::InFlight;
                Ok(SnapshotDrawReservation { generation: self.generation, active: true })
            },
            SnapshotUseState::InFlight => Err(SnapshotUseError::InFlight),
            SnapshotUseState::Poisoned => Err(SnapshotUseError::Poisoned),
        }
    }

    /// Returns an in-flight generation to `Ready`.
    fn release(&mut self)
        requires
            old(self)@ == SnapshotUseState::InFlight,
        ensures
            final(self)@ == gate_next(old(self)@, GateEvent::Release),
            final(self).spec_generation() == old(self).spec_generation(),
    {
        self.state = SnapshotUseState::Ready;
    }

    /// Makes the generation permanently unusable.
    fn poison(&mut self)
        ensures
            final(self)@ == gate_next(old(self)@, GateEvent::Poison),
            final(self).spec_generation() == old(self).spec_generation(),
    {
        self.state = SnapshotUseState::Poisoned;
    }
}

/// A published generation whose use gate serializes renderer draws. Its gate
/// is never handed out: a reservation taken from it returns to it only
/// through these methods, each of which names the reservation's generation.
pub trait UseGated {
    /// The generation's use gate.
    spec fn spec_use_gate(&self) -> SnapshotUseGate;

    /// Returns a reservation whose draw was rejected before submit, or whose
    /// complete submission restored known state: an in-flight generation is
    /// ready again.
    fn release_reservation(&mut self, reservation: SnapshotDrawReservation)
        requires
            old(self).spec_use_gate().spec_generation() == reservation.spec_generation(),
            reservation.is_active() ==> old(self).spec_use_gate()@ == SnapshotUseState::InFlight,
        ensures
            final(self).spec_use_gate().spec_generation() == old(self).spec_use_gate().spec_generation(),
            reservation.is_active() ==> final(self).spec_use_gate()@ == gate_next(
                old(self).spec_use_gate()@,
                GateEvent::Release,
            ),
            !reservation.is_active() ==> final(self).spec_use_gate()@ == old(self).spec_use_gate()@,
    ;

    /// Ends a reservation whose outcome is uncertain, or that is abandoned
    /// while still held: the generation becomes permanently unusable.
    fn poison_reservation(&mut self, reservation: SnapshotDrawReservation)
        requires
            old(self).spec_use_gate().spec_generation() == reservation.spec_generation(),
        ensures
            final(self).spec_use_gate().spec_generation() == old(self).spec_use_gate().spec_generation(),
            reservation.is_active() ==> final(self).spec_use_gate()@ == gate_next(
                old(self).spec_use_gate()@,
                GateEvent::Poison,
            ),
            !reservation.is_active() ==> final(self).spec_use_gate()@ == old(self).spec_use_gate()@,
    ;
}

/// Poison is monotonic: once a generation is poisoned, no sequence of gate
/// events makes it usable again.
pub proof fn lemma_poison_is_absorbing(events: Seq<GateEvent>)
    ensures
        gate_run(SnapshotUseState::Poisoned, events) == SnapshotUseState::Poisoned,
        reserve_outcome(gate_run(SnapshotUseState::Poisoned, events)) == Err::<(), _>(
            SnapshotUseError::Poisoned,
        ),
    decreases events.len(),
{
    if events.len() > 0 {
        lemma_poison_is_absorbing(events.drop_first());
    }
}

/// Reservations are serialized: after one successful reservation, another
/// reservation fails with `InFlight` until a release or poison intervenes.
pub proof fn lemma_reservations_are_serialized(state: SnapshotUseState)
    ensures
        reserve_outcome(state) is Ok ==> reserve_outcome(gate_next(state, GateEvent::Reserve))
            == Err::<(), _>(SnapshotUseError::InFlight),
        reserve_outcome(gate_next(
            gate_next(state, GateEvent::Reserve),
            GateEvent::Release,
        )) is Ok <==> (state == SnapshotUseState::Ready || state == SnapshotUseState::InFlight),
{
}

/// How the use state moves: a ready gate accepts a reservation and is then
/// in flight; an in-flight or poisoned gate refuses it with its own error
/// and stays as it was; a release makes an in-flight gate ready and leaves
/// any other unchanged; a poison makes every gate poisoned.
pub proof fn lemma_gate_transitions(state: SnapshotUseState)
    ensures
        reserve_outcome(state) is Ok <==> state == SnapshotUseState::Ready,
        state == SnapshotUseState::Ready ==> gate_next(state, GateEvent::Reserve)
            == SnapshotUseState::InFlight,
        state == SnapshotUseState::InFlight ==> reserve_outcome(state) == Err::<(), _>(
            SnapshotUseError::InFlight,
        ) && gate_next(state, GateEvent::Reserve) == state,
        state == SnapshotUseState::Poisoned ==> reserve_outcome(state) == Err::<(), _>(
            SnapshotUseError::Poisoned,
        ) && gate_next(state, GateEvent::Reserve) == state,
        state == SnapshotUseState::InFlight ==> gate_next(state, GateEvent::Release)
            == SnapshotUseState::Ready,
        state != SnapshotUseState::InFlight ==> gate_next(state, GateEvent::Release) == state,
        gate_next(state, GateEvent::Poison) == SnapshotUseState::Poisoned,
{
}

} // verus!
