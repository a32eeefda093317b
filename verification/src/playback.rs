//! Playback sink model: the one animator the animation stage commands.
//!
//! The stage issues "play this clip, looping" commands unconditionally every
//! frame, so the sink's contract must make repeated identical commands
//! idempotent: a command naming the clip already playing leaves the playback
//! position alone instead of restarting the clip. That contract is modelled
//! and proved here.

use vstd::prelude::*;

verus! {

/// The playback sink: which clip is loaded, how far it has played, and
/// whether it loops. Exactly one instance exists in a scene once the engine
/// has attached it.
#[derive(Clone, Copy, Debug, PartialEq, Eq)]
pub struct Player {
    /// The clip a play command last selected, if any.
    pub clip: Option<u64>,
    /// Playback position, in ticks of the surrounding engine's clock.
    pub elapsed: u64,
    /// Whether the selected clip loops indefinitely.
    pub repeating: bool,
}

/// The sink after a "play this clip, looping" command. A command that names
/// the clip already playing only keeps it looping; the playback position is
/// untouched. A command naming a different clip starts it from position zero.
pub open spec fn played(p: Player, clip: u64) -> Player {
    if p.clip == Some(clip) {
        Player { repeating: true, ..p }
    } else {
        Player { clip: Some(clip), elapsed: 0, repeating: true }
    }
}

/// The sink after playback has advanced by `ticks`: the position grows,
/// saturating rather than wrapping.
pub open spec fn advanced(p: Player, ticks: u64) -> Player {
    Player {
        elapsed: if p.elapsed + ticks <= u64::MAX {
            (p.elapsed + ticks) as u64
        } else {
            u64::MAX
        },
        ..p
    }
}

impl Player {
    /// A sink fresh from the engine: nothing selected, nothing played.
    pub fn new() -> (p: Player)
        ensures
            p == (Player { clip: None, elapsed: 0, repeating: false }),
    {
        Player { clip: None, elapsed: 0, repeating: false }
    }

    /// Command the sink to play a clip, looping indefinitely.
    pub fn play_repeat(&mut self, clip: u64)
        ensures
            *final(self) == played(*old(self), clip),
    {
        let same: bool = match self.clip {
            Some(c) => c == clip,
            None => false,
        };
        if !same {
            self.clip = Some(clip);
            self.elapsed = 0;
        }
        self.repeating = true;
    }

    /// Let playback advance by `ticks` of the engine clock.
    pub fn advance(&mut self, ticks: u64)
        ensures
            *final(self) == advanced(*old(self), ticks),
    {
        if ticks <= u64::MAX - self.elapsed {
            self.elapsed = self.elapsed + ticks;
        } else {
            self.elapsed = u64::MAX;
        }
    }
}

/// Issuing the same play command twice in a row is idempotent: the second
/// command changes nothing at all.
pub proof fn lemma_play_idempotent(p: Player, clip: u64)
    ensures
        played(played(p, clip), clip) == played(p, clip),
{
}

/// A repeated identical play command never restarts the clip: however far
/// playback has advanced since the first command, re-issuing the command
/// keeps the position, and the position only ever grows between the two.
pub proof fn lemma_replay_no_restart(p: Player, clip: u64, ticks: u64)
    ensures
        played(advanced(played(p, clip), ticks), clip).elapsed == advanced(
            played(p, clip),
            ticks,
        ).elapsed,
        advanced(played(p, clip), ticks).elapsed >= played(p, clip).elapsed,
{
}

} // verus!
