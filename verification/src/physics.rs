//! What crosses the boundary to the physics engine: body names, the launch
//! impulse, and contact-force events.

use vstd::prelude::*;
use crate::constants::TARGET_FORCE_THRESH;
use crate::geometry::WorldPos;

verus! {

/// Names a simulated body. Bodies of a level carry the number of the attempt
/// that created them, so a body of an earlier attempt is never mistaken for
/// one of the current attempt.
#[derive(Clone, Copy, Debug, PartialEq, Eq, Hash, Structural)]
pub enum BodyId {
    /// The ground slab, which outlives every level.
    Ground,
    /// The ball of an attempt.
    Ball { attempt: u64 },
    /// A tower block, by its index in the level definition.
    Block { attempt: u64, index: usize },
    /// A target, by its index in the level definition.
    Target { attempt: u64, index: usize },
}

/// An instantaneous push on the ball: `magnitude` along the unit vector that
/// points from `origin` to `toward`. The two points always differ.
#[derive(Clone, Copy, Debug, PartialEq, Eq, Structural)]
pub struct Impulse {
    pub origin: WorldPos,
    pub toward: WorldPos,
    pub magnitude: u64,
}

/// What to do to the ball's impulse after the launch step of a tick.
#[derive(Clone, Copy, Debug, PartialEq, Eq, Structural)]
pub enum LaunchOutcome {
    /// Leave the ball alone.
    Ignored,
    /// Hold the ball's impulse at zero.
    Rest,
    /// Apply the impulse, and switch on contact-force reporting for every
    /// live target.
    Launched(Impulse),
}

/// The engine's report of the force between two bodies in contact during one
/// simulation step.
#[derive(Clone, Copy, Debug, PartialEq, Eq, Structural)]
pub struct ContactForceEvent {
    pub body_a: BodyId,
    pub body_b: BodyId,
    /// Sum of the magnitudes of the contact forces.
    pub force: u64,
}

impl ContactForceEvent {
    /// Whether `body` is one of the two bodies in contact.
    pub open spec fn involves(self, body: BodyId) -> bool {
        self.body_a == body || self.body_b == body
    }

    /// Whether this event destroys `body`, should it be a live target: the
    /// body takes part in the contact and the force is above the threshold.
    pub open spec fn destroys(self, body: BodyId) -> bool {
        self.force > TARGET_FORCE_THRESH && self.involves(body)
    }

    /// Whether the reported force is above the threshold.
    pub fn is_forceful(&self) -> (b: bool)
        ensures
            b == (self.force > TARGET_FORCE_THRESH),
    {
        self.force > TARGET_FORCE_THRESH
    }
}

/// Whether some event of the batch destroys `body`.
pub open spec fn struck(events: Seq<ContactForceEvent>, body: BodyId) -> bool {
    exists|k: int| 0 <= k < events.len() && (#[trigger] events[k]).destroys(body)
}

/// Position, at or after `from`, of the first event that destroys `body`;
/// the length of the batch if there is none.
pub open spec fn first_strike(events: Seq<ContactForceEvent>, body: BodyId, from: int) -> int
    decreases events.len() - from,
{
    if from < 0 || from >= events.len() {
        events.len() as int
    } else if events[from].destroys(body) {
        from
    } else {
        first_strike(events, body, from + 1)
    }
}

/// Where `body` stands among the bodies that a batch destroys: bodies
/// destroyed by an earlier event come first, and of the two bodies of one
/// event the first comes first.
pub open spec fn strike_rank(events: Seq<ContactForceEvent>, body: BodyId) -> int {
    let k = first_strike(events, body, 0);
    if 0 <= k < events.len() && events[k].body_a != body {
        2 * k + 1
    } else {
        2 * k
    }
}

/// A batch of one event destroys exactly what the event destroys.
pub proof fn lemma_struck_one(event: ContactForceEvent, body: BodyId)
    ensures
        struck(seq![event], body) <==> event.destroys(body),
{
    let batch = seq![event];
    if event.destroys(body) {
        assert(batch[0].destroys(body));
    }
}

/// Two batches in a row destroy what either destroys.
pub proof fn lemma_struck_concat(
    first: Seq<ContactForceEvent>,
    second: Seq<ContactForceEvent>,
    body: BodyId,
)
    ensures
        struck(first + second, body) <==> struck(first, body) || struck(second, body),
{
    let both = first + second;
    if struck(both, body) {
        let k = choose|k: int| 0 <= k < both.len() && (#[trigger] both[k]).destroys(body);
        if k < first.len() {
            assert(first[k].destroys(body));
        } else {
            assert(second[k - first.len()].destroys(body));
        }
    }
    if struck(first, body) {
        let k = choose|k: int| 0 <= k < first.len() && (#[trigger] first[k]).destroys(body);
        assert(both[k].destroys(body));
    }
    if struck(second, body) {
        let k = choose|k: int| 0 <= k < second.len() && (#[trigger] second[k]).destroys(body);
        assert(both[first.len() + k].destroys(body));
    }
}

/// If no event before `at` destroys `body` and the one at `at` does, then
/// searching from any earlier position finds `at`.
pub proof fn lemma_first_strike_at(
    events: Seq<ContactForceEvent>,
    body: BodyId,
    from: int,
    at: int,
)
    requires
        0 <= from <= at < events.len(),
        forall|k: int| from <= k < at ==> !(#[trigger] events[k]).destroys(body),
        events[at].destroys(body),
    ensures
        first_strike(events, body, from) == at,
    decreases at - from,
{
    if from < at {
        lemma_first_strike_at(events, body, from + 1, at);
    }
}

} // verus!
