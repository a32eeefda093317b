//! Clip registry: the six loaded animation clips, indexed by role.

use vstd::prelude::*;

verus! {

/// Registry index of the angled standing clip.
pub const STAND_ANGLED: usize = 0;

/// Registry index of the upward-facing standing clip.
pub const STAND_UP: usize = 1;

/// Registry index of the forward walking clip.
pub const WALK_FORWARD: usize = 2;

/// Registry index of the angled walking clip.
pub const WALK_ANGLED: usize = 3;

/// Registry index of the upward-facing walking clip.
pub const WALK_UP: usize = 4;

/// Registry index of the forward standing clip.
pub const STAND_FORWARD: usize = 5;

/// Number of clips the registry holds: one per role.
pub const CLIP_COUNT: usize = 6;

/// Ordered registry of loaded animation clips. Each entry is an opaque clip
/// identifier chosen by the asset-loading collaborator, which keeps the
/// mapping from identifier to its own playable asset. Populated once at
/// startup and read-only afterwards.
#[derive(Clone, Debug, PartialEq, Eq)]
pub struct Animations(pub Vec<u64>);

impl Animations {
    /// Fully populated: one clip per role.
    pub open spec fn wf(self) -> bool {
        self.0@.len() == CLIP_COUNT
    }

    /// Build the registry from the six loaded clips, in role order.
    pub fn new(clips: Vec<u64>) -> (a: Animations)
        requires
            clips@.len() == CLIP_COUNT,
        ensures
            a.wf(),
            a.0@ == clips@,
    {
        Animations(clips)
    }

    /// The clip registered for a role.
    pub fn clip_for(&self, role: usize) -> (clip: u64)
        requires
            self.wf(),
            role < CLIP_COUNT,
        ensures
            clip == self.0@[role as int],
    {
        self.0[role]
    }
}

/// The clip role the animation stage resolves for a horizontal intent: any
/// nonzero intent walks forward, a zero intent stands forward.
pub open spec fn spec_target_role(x: int) -> usize {
    if x != 0 {
        WALK_FORWARD
    } else {
        STAND_FORWARD
    }
}

/// Resolve the target clip role for a horizontal intent.
pub fn target_role(x: i8) -> (role: usize)
    ensures
        role == spec_target_role(x as int),
        role < CLIP_COUNT,
{
    if x != 0 {
        WALK_FORWARD
    } else {
        STAND_FORWARD
    }
}

} // verus!
