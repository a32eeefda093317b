//! Input stage: directional key edge events become movement intent.

use vstd::prelude::*;

verus! {

/// One frame's edge-transition input: "just pressed" / "just released"
/// signals for the directional keys. These are one-frame transitions, not
/// continuous "held" state, so a key already held when the process starts
/// produces no intent until it is released and pressed again. The UP signals
/// are read only by the direct-control variant of the animation logic.
#[derive(Clone, Copy, Debug, PartialEq, Eq, Structural)]
pub struct KeyEdges {
    pub left_pressed: bool,
    pub left_released: bool,
    pub right_pressed: bool,
    pub right_released: bool,
    pub up_pressed: bool,
    pub up_released: bool,
}

/// The actor's 2D look/intent vector. Only the horizontal component drives
/// the current logic; the vertical component is reserved.
#[derive(Clone, Copy, Debug, PartialEq, Eq, Structural)]
pub struct Look {
    pub x: i8,
    pub y: i8,
}

/// Per-actor movement intent. Written exclusively by the input stage and read
/// exclusively by the animation stage, in that order within a frame.
#[derive(Clone, Copy, Debug, PartialEq, Eq, Structural)]
pub struct Movement {
    pub look: Look,
}

impl Movement {
    /// The horizontal intent only ever holds a direction or rest.
    pub open spec fn wf(self) -> bool {
        -1 <= self.look.x <= 1
    }

    /// The intent a freshly spawned actor starts with: none.
    pub fn new() -> (m: Movement)
        ensures
            m == (Movement { look: Look { x: 0, y: 0 } }),
    {
        Movement { look: Look { x: 0, y: 0 } }
    }
}

/// The horizontal intent after one frame of edge events. LEFT's effect is
/// applied before RIGHT's, so RIGHT wins a simultaneous press. Within one
/// key, a press outranks a release reported in the same frame. Releasing
/// either key zeroes the intent even while the other key is still held: the
/// checks are independent edge checks, not a held-key precedence stack.
pub open spec fn look_x_after(x: int, e: KeyEdges) -> int {
    let after_left: int = if e.left_pressed {
        -1
    } else if e.left_released {
        0
    } else {
        x
    };
    if e.right_pressed {
        1
    } else if e.right_released {
        0
    } else {
        after_left
    }
}

/// The horizontal intent after a whole run of frames, starting from the
/// spawn value of zero.
pub open spec fn look_x_after_seq(es: Seq<KeyEdges>) -> int
    decreases es.len(),
{
    if es.len() == 0 {
        0
    } else {
        look_x_after(look_x_after_seq(es.drop_last()), es.last())
    }
}

/// For every sequence of LEFT/RIGHT press/release events, the horizontal
/// intent stays in {-1, 0, +1}.
pub proof fn lemma_look_x_in_range(es: Seq<KeyEdges>)
    ensures
        -1 <= look_x_after_seq(es) <= 1,
    decreases es.len(),
{
    if es.len() > 0 {
        lemma_look_x_in_range(es.drop_last());
    }
}

/// Fold one frame's LEFT/RIGHT edge events into a movement record.
pub fn apply_edges(m: &mut Movement, e: KeyEdges)
    ensures
        final(m).look.x as int == look_x_after(old(m).look.x as int, e),
        final(m).look.y == old(m).look.y,
        old(m).wf() ==> final(m).wf(),
{
    if e.left_pressed {
        m.look.x = -1;
    } else if e.left_released {
        m.look.x = 0;
    }
    if e.right_pressed {
        m.look.x = 1;
    } else if e.right_released {
        m.look.x = 0;
    }
}

} // verus!
