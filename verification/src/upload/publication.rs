//! Publication policy for multi-stream mesh uploads.
//!
//! The state-only coordinator keeps the atomic renderer contract independent
//! of native completion: a partially ready set never publishes, and an
//! observed failure stays terminal even while an accepted sibling is retained.

use vstd::prelude::*;

verus! {

/// Readiness retained by one stream of a closed multi-stream mesh upload.
#[derive(Clone, Copy, Debug, PartialEq, Eq, Structural)]
pub enum RetainedUploadState {
    /// The stream's upload was never accepted.
    Missing,
    /// The stream's accepted upload has not completed.
    Pending,
    /// The stream's upload completed and its buffer is ready.
    Ready,
}

/// Publication state of a position/index upload pair.
#[derive(Clone, Copy, Debug, PartialEq, Eq, Structural)]
pub struct SnapshotPublication {
    /// Position stream readiness.
    pub positions: RetainedUploadState,
    /// Index stream readiness.
    pub indices: RetainedUploadState,
    /// Whether any failure was observed for this generation.
    pub failed: bool,
}

/// A snapshot may publish exactly when no failure was observed and every
/// stream is ready.
pub open spec fn publishable(states: Seq<RetainedUploadState>, failed: bool) -> bool {
    !failed && forall|i: int| 0 <= i < states.len() ==> states[i] == RetainedUploadState::Ready
}

impl SnapshotPublication {
    /// Records the retained stream states and the failure flag.
    pub fn new(
        positions: RetainedUploadState,
        indices: RetainedUploadState,
        failed: bool,
    ) -> (publication: Self)
        ensures
            publication == (SnapshotPublication { positions, indices, failed }),
    {
        Self { positions, indices, failed }
    }

    /// Whether the pair may publish one immutable snapshot.
    pub fn can_publish(self) -> (publish: bool)
        ensures
            publish == publishable(seq![self.positions, self.indices], self.failed),
    {
        let ready = match (self.positions, self.indices) {
            (RetainedUploadState::Ready, RetainedUploadState::Ready) => true,
            _ => false,
        };
        assert(ready <==> forall|i: int|
            0 <= i < 2 ==> seq![self.positions, self.indices][i] == RetainedUploadState::Ready) by {
            if !ready {
                if self.positions != RetainedUploadState::Ready {
                    assert(seq![self.positions, self.indices][0] == self.positions);
                } else {
                    assert(seq![self.positions, self.indices][1] == self.indices);
                }
            }
        }
        !self.failed && ready
    }
}

/// Publication state of a position/index/texture-coordinate upload triple.
#[derive(Clone, Copy, Debug, PartialEq, Eq, Structural)]
pub struct TexturedSnapshotPublication {
    /// Position stream readiness.
    pub positions: RetainedUploadState,
    /// Index stream readiness.
    pub indices: RetainedUploadState,
    /// Texture-coordinate stream readiness.
    pub texture_coordinates: RetainedUploadState,
    /// Whether any failure was observed for this generation.
    pub failed: bool,
}

impl TexturedSnapshotPublication {
    /// Records the retained stream states and the failure flag.
    pub fn new(
        positions: RetainedUploadState,
        indices: RetainedUploadState,
        texture_coordinates: RetainedUploadState,
        failed: bool,
    ) -> (publication: Self)
        ensures
            publication == (TexturedSnapshotPublication {
                positions,
                indices,
                texture_coordinates,
                failed,
            }),
    {
        Self { positions, indices, texture_coordinates, failed }
    }

    /// Whether the triple may publish one immutable snapshot.
    pub fn can_publish(self) -> (publish: bool)
        ensures
            publish == publishable(
                seq![self.positions, self.indices, self.texture_coordinates],
                self.failed,
            ),
    {
        let ready = match (self.positions, self.indices, self.texture_coordinates) {
            (
                RetainedUploadState::Ready,
                RetainedUploadState::Ready,
                RetainedUploadState::Ready,
            ) => true,
            _ => false,
        };
        let ghost s = seq![self.positions, self.indices, self.texture_coordinates];
        assert(ready <==> forall|i: int| 0 <= i < 3 ==> s[i] == RetainedUploadState::Ready) by {
            if !ready {
                if self.positions != RetainedUploadState::Ready {
                    assert(s[0] == self.positions);
                } else if self.indices != RetainedUploadState::Ready {
                    assert(s[1] == self.indices);
                } else {
                    assert(s[2] == self.texture_coordinates);
                }
            }
        }
        !self.failed && ready
    }
}

/// A failed generation never publishes, whatever its streams later reach;
/// and a fully ready, unfailed set always publishes.
pub proof fn lemma_failure_never_publishes(states: Seq<RetainedUploadState>)
    ensures
        !publishable(states, true),
        (forall|i: int| 0 <= i < states.len() ==> states[i] == RetainedUploadState::Ready)
            ==> publishable(states, false),
{
}

/// A set with any stream that is not ready never publishes.
pub proof fn lemma_partial_never_publishes(states: Seq<RetainedUploadState>, i: int, failed: bool)
    requires
        0 <= i < states.len(),
        states[i] != RetainedUploadState::Ready,
    ensures
        !publishable(states, failed),
{
}

} // verus!
