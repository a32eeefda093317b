//! The per-frame stages over one scene: seeding, input, animation.
//!
//! A `Scene` holds exactly what the stages read and write: the clip registry,
//! the controllable actor (absent until the engine spawns it), the playback
//! sink (absent until the engine attaches it), and the one-time seeding mark.
//! Each stage is a total function of this state, so the engine's only jobs
//! are to hand in the frame's key edge events and to apply the resulting
//! state to its own entities — in particular the happens-before edge the
//! design needs (input stage strictly before animation stage, every frame)
//! is fixed here once, inside `frame`, instead of being left to scheduler
//! registration order.

use vstd::prelude::*;

use crate::input::{apply_edges, look_x_after, KeyEdges, Look, Movement};
use crate::playback::{played, Player};
use crate::registry::{
    spec_target_role, target_role, Animations, CLIP_COUNT, STAND_ANGLED, STAND_FORWARD, STAND_UP,
    WALK_FORWARD,
};

verus! {

/// Which way the actor faces. `Spawn` is the engine's default pose, kept
/// until a nonzero intent first resolves a direction.
#[derive(Clone, Copy, Debug, PartialEq, Eq, Structural)]
pub enum Facing {
    Spawn,
    TowardPosX,
    TowardNegX,
}

/// The controllable actor: its movement intent and its facing. The facing is
/// a derived output, written only by the animation stage, never by the input
/// stage, so "what should currently play and face where" has a single source
/// of truth.
#[derive(Clone, Copy, Debug, PartialEq, Eq, Structural)]
pub struct Hero {
    pub movement: Movement,
    pub facing: Facing,
}

impl Hero {
    /// The actor as the engine spawns it: no intent, default facing.
    pub fn new() -> (h: Hero)
        ensures
            h == (Hero { movement: Movement { look: Look { x: 0, y: 0 } }, facing: Facing::Spawn }),
    {
        Hero { movement: Movement::new(), facing: Facing::Spawn }
    }
}

/// Everything the per-frame stages touch. The actor and the sink are
/// optional because the surrounding engine loads assets asynchronously: the
/// stages must tolerate "not yet there" by doing nothing, never by faulting.
pub struct Scene {
    pub animations: Animations,
    pub hero: Option<Hero>,
    pub player: Option<Player>,
    /// Whether the one-time seeding of the sink has happened.
    pub seeded: bool,
}

/// The facing resolved from a horizontal intent: positive faces +X, negative
/// faces -X, zero leaves the current facing unchanged.
pub open spec fn spec_face(x: int, current: Facing) -> Facing {
    if x > 0 {
        Facing::TowardPosX
    } else if x < 0 {
        Facing::TowardNegX
    } else {
        current
    }
}

impl Scene {
    /// The registry is fully populated and the actor's intent, if the actor
    /// has spawned, holds a direction or rest.
    pub open spec fn wf(self) -> bool {
        &&& self.animations.wf()
        &&& (self.hero matches Some(h) ==> h.movement.wf())
    }

    /// Decide well-formedness at run time, for callers outside verified
    /// code that must test `wf` before handing the scene to a stage.
    pub fn well_formed(&self) -> (b: bool)
        ensures
            b == self.wf(),
    {
        let registry_full: bool = self.animations.0.len() == CLIP_COUNT;
        let intent_in_range: bool = match self.hero {
            Some(h) => -1 <= h.movement.look.x && h.movement.look.x <= 1,
            None => true,
        };
        registry_full && intent_in_range
    }

    /// One-time seeding: in the first frame that finds the sink attached,
    /// play the registry's first clip, looping, to establish a deterministic
    /// idle pose; afterwards never again. Index 0 carries the name
    /// `STAND_ANGLED` in the inherited role naming, though the seeding keeps
    /// the actor in its idle pose either way.
    pub open spec fn init_step(self) -> Scene {
        if !self.seeded && self.player is Some {
            Scene {
                player: Some(played(self.player->Some_0, self.animations.0@[STAND_ANGLED as int])),
                seeded: true,
                ..self
            }
        } else {
            self
        }
    }

    /// Input stage: a safe no-op while the actor has not spawned, otherwise
    /// one frame of edge events folded into the actor's horizontal intent.
    pub open spec fn input_step(self, e: KeyEdges) -> Scene {
        match self.hero {
            None => self,
            Some(h) => Scene {
                hero: Some(
                    Hero {
                        movement: Movement {
                            look: Look {
                                x: look_x_after(h.movement.look.x as int, e) as i8,
                                y: h.movement.look.y,
                            },
                        },
                        ..h
                    },
                ),
                ..self
            },
        }
    }

    /// Animation stage: a no-op unless both the sink and the actor are
    /// present; otherwise command the sink to play the clip of the resolved
    /// role, looping, and face the intent's direction, leaving the facing
    /// alone while the intent is zero.
    pub open spec fn anim_step(self) -> Scene {
        if self.player is Some && self.hero is Some {
            let h = self.hero->Some_0;
            let p = self.player->Some_0;
            Scene {
                player: Some(
                    played(p, self.animations.0@[spec_target_role(h.movement.look.x as int) as int]),
                ),
                hero: Some(Hero { facing: spec_face(h.movement.look.x as int, h.facing), ..h }),
                ..self
            }
        } else {
            self
        }
    }

    /// The direct-control variant's LEFT handling: a press faces -X, plays
    /// the forward walking clip and sets a leftward intent; a release plays
    /// the forward standing clip and zeroes the intent.
    pub open spec fn direct_left(self, e: KeyEdges) -> Scene
        recommends
            self.hero is Some,
            self.player is Some,
    {
        let h = self.hero->Some_0;
        let p = self.player->Some_0;
        if e.left_pressed {
            Scene {
                hero: Some(
                    Hero {
                        movement: Movement { look: Look { x: -1i8, y: h.movement.look.y } },
                        facing: Facing::TowardNegX,
                    },
                ),
                player: Some(played(p, self.animations.0@[WALK_FORWARD as int])),
                ..self
            }
        } else if e.left_released {
            Scene {
                hero: Some(
                    Hero {
                        movement: Movement { look: Look { x: 0, y: h.movement.look.y } },
                        ..h
                    },
                ),
                player: Some(played(p, self.animations.0@[STAND_FORWARD as int])),
                ..self
            }
        } else {
            self
        }
    }

    /// The direct-control variant's RIGHT handling: a press faces +X, sets a
    /// rightward intent and plays the forward walking clip; a release plays
    /// the forward standing clip and zeroes the intent.
    pub open spec fn direct_right(self, e: KeyEdges) -> Scene
        recommends
            self.hero is Some,
            self.player is Some,
    {
        let h = self.hero->Some_0;
        let p = self.player->Some_0;
        if e.right_pressed {
            Scene {
                hero: Some(
                    Hero {
                        movement: Movement { look: Look { x: 1, y: h.movement.look.y } },
                        facing: Facing::TowardPosX,
                    },
                ),
                player: Some(played(p, self.animations.0@[WALK_FORWARD as int])),
                ..self
            }
        } else if e.right_released {
            Scene {
                hero: Some(
                    Hero {
                        movement: Movement { look: Look { x: 0, y: h.movement.look.y } },
                        ..h
                    },
                ),
                player: Some(played(p, self.animations.0@[STAND_FORWARD as int])),
                ..self
            }
        } else {
            self
        }
    }

    /// The direct-control variant's UP handling: a press plays the
    /// upward-facing standing clip, a release the forward standing clip;
    /// intent and facing stay as they are.
    pub open spec fn direct_up(self, e: KeyEdges) -> Scene
        recommends
            self.player is Some,
    {
        let p = self.player->Some_0;
        if e.up_pressed {
            Scene { player: Some(played(p, self.animations.0@[STAND_UP as int])), ..self }
        } else if e.up_released {
            Scene { player: Some(played(p, self.animations.0@[STAND_FORWARD as int])), ..self }
        } else {
            self
        }
    }

    /// The direct-control variant's whole frame: LEFT's effect, then
    /// RIGHT's, then UP's; a no-op while the sink is not attached.
    pub open spec fn direct_step(self, e: KeyEdges) -> Scene {
        if self.player is Some && self.hero is Some {
            self.direct_left(e).direct_right(e).direct_up(e)
        } else {
            self
        }
    }

    /// One whole frame: seeding first, then the input stage, then — strictly
    /// after it — the animation stage.
    pub open spec fn frame_step(self, e: KeyEdges) -> Scene {
        self.init_step().input_step(e).anim_step()
    }

    /// The scene after a run of frames, one per element of `es`.
    pub open spec fn frames(self, es: Seq<KeyEdges>) -> Scene
        decreases es.len(),
    {
        if es.len() == 0 {
            self
        } else {
            self.frames(es.drop_last()).frame_step(es.last())
        }
    }

    /// A scene as it stands at process start: the registry loaded, nothing
    /// spawned, nothing attached, nothing seeded.
    pub fn new(animations: Animations) -> (s: Scene)
        requires
            animations.wf(),
        ensures
            s == (Scene { animations, hero: None, player: None, seeded: false }),
    {
        Scene { animations, hero: None, player: None, seeded: false }
    }

    /// The engine spawned the actor: default intent, default facing.
    pub fn spawn_hero(&mut self)
        ensures
            *final(self) == (Scene {
                hero: Some(
                    Hero {
                        movement: Movement { look: Look { x: 0, y: 0 } },
                        facing: Facing::Spawn,
                    },
                ),
                ..*old(self)
            }),
    {
        self.hero = Some(Hero::new());
    }

    /// The engine attached the playback sink to the scene.
    pub fn attach_player(&mut self)
        ensures
            *final(self) == (Scene {
                player: Some(Player { clip: None, elapsed: 0, repeating: false }),
                ..*old(self)
            }),
    {
        self.player = Some(Player::new());
    }

    /// Run the one-time seeding if the sink is attached and it has not
    /// happened yet; otherwise do nothing and try again next frame.
    pub fn init_animation(&mut self)
        requires
            old(self).wf(),
        ensures
            *final(self) == old(self).init_step(),
            final(self).wf(),
    {
        if !self.seeded {
            match self.player {
                Some(mut p) => {
                    let clip: u64 = self.animations.clip_for(STAND_ANGLED);
                    p.play_repeat(clip);
                    self.player = Some(p);
                    self.seeded = true;
                },
                None => {},
            }
        }
    }

    /// Input stage over the scene: fold the frame's edge events into the
    /// actor's intent; a safe no-op while no actor exists.
    pub fn keyboard_controls_look(&mut self, e: KeyEdges)
        requires
            old(self).wf(),
        ensures
            *final(self) == old(self).input_step(e),
            final(self).wf(),
    {
        match self.hero {
            Some(mut h) => {
                apply_edges(&mut h.movement, e);
                self.hero = Some(h);
            },
            None => {},
        }
    }

    /// Animation stage over the scene: resolve the intent to a clip role,
    /// command the sink to play that clip, looping, and update the facing.
    /// A no-op while the sink or the actor is missing.
    pub fn set_animation_direction(&mut self)
        requires
            old(self).wf(),
        ensures
            *final(self) == old(self).anim_step(),
            final(self).wf(),
    {
        match self.player {
            Some(mut p) => {
                match self.hero {
                    Some(mut h) => {
                        let role: usize = target_role(h.movement.look.x);
                        let clip: u64 = self.animations.clip_for(role);
                        p.play_repeat(clip);
                        if h.movement.look.x > 0 {
                            h.facing = Facing::TowardPosX;
                        } else if h.movement.look.x < 0 {
                            h.facing = Facing::TowardNegX;
                        }
                        self.player = Some(p);
                        self.hero = Some(h);
                    },
                    None => {},
                }
            },
            None => {},
        }
    }

    /// Direct-control variant: one fused task that updates the intent, the
    /// facing and the playing clip together on each key edge, with the UP
    /// key selecting the upward-facing clip. It treats a missing actor as a
    /// fatal precondition violation whenever the sink is attached, so its
    /// contract demands the actor then; the decoupled two-stage path in
    /// `frame` tolerates the absence instead.
    pub fn keyboard_directly_controls_animation(&mut self, e: KeyEdges)
        requires
            old(self).wf(),
            old(self).player is Some ==> old(self).hero is Some,
        ensures
            *final(self) == old(self).direct_step(e),
            final(self).wf(),
    {
        match self.player {
            Some(mut p) => {
                match self.hero {
                    Some(mut h) => {
                        if e.left_pressed {
                            h.facing = Facing::TowardNegX;
                            p.play_repeat(self.animations.clip_for(WALK_FORWARD));
                            h.movement.look.x = -1;
                        } else if e.left_released {
                            p.play_repeat(self.animations.clip_for(STAND_FORWARD));
                            h.movement.look.x = 0;
                        }
                        if e.right_pressed {
                            h.facing = Facing::TowardPosX;
                            h.movement.look.x = 1;
                            p.play_repeat(self.animations.clip_for(WALK_FORWARD));
                        } else if e.right_released {
                            p.play_repeat(self.animations.clip_for(STAND_FORWARD));
                            h.movement.look.x = 0;
                        }
                        if e.up_pressed {
                            p.play_repeat(self.animations.clip_for(STAND_UP));
                        } else if e.up_released {
                            p.play_repeat(self.animations.clip_for(STAND_FORWARD));
                        }
                        self.player = Some(p);
                        self.hero = Some(h);
                    },
                    None => {
                        assert(false);
                    },
                }
            },
            None => {},
        }
    }

    /// One whole frame tick: seeding, then the input stage, then the
    /// animation stage, in that fixed order, so the animation stage always
    /// sees this frame's intent, never last frame's.
    pub fn frame(&mut self, e: KeyEdges)
        requires
            old(self).wf(),
        ensures
            *final(self) == old(self).frame_step(e),
            final(self).wf(),
    {
        self.init_animation();
        self.keyboard_controls_look(e);
        self.set_animation_direction();
    }
}

/// With a zero horizontal intent the animation stage never touches the
/// actor's facing, whatever earlier frames resolved.
pub proof fn lemma_zero_intent_keeps_facing(s: Scene)
    requires
        s.hero matches Some(h) && h.movement.look.x == 0,
    ensures
        s.anim_step().hero->Some_0.facing == s.hero->Some_0.facing,
{
}

/// The facing follows the last resolved nonzero direction: whenever the
/// animation stage runs over a positive intent the actor faces +X, and
/// whenever it runs over a negative intent the actor faces -X — whatever any
/// earlier frame resolved, with no blending between the two.
pub proof fn lemma_last_direction_wins(s1: Scene, s2: Scene)
    requires
        s1.player is Some,
        s1.hero matches Some(h1) && h1.movement.look.x > 0,
        s2.player is Some,
        s2.hero matches Some(h2) && h2.movement.look.x < 0,
    ensures
        s1.anim_step().hero->Some_0.facing == Facing::TowardPosX,
        s2.anim_step().hero->Some_0.facing == Facing::TowardNegX,
{
}

/// Seeding happens at most once: running the seeding step again changes
/// nothing.
pub proof fn lemma_init_step_idempotent(s: Scene)
    ensures
        s.init_step().init_step() == s.init_step(),
{
}

/// While the actor has not spawned, a frame's only possible effect is the
/// one-time seeding of the sink.
pub proof fn lemma_frame_without_hero(s: Scene, e: KeyEdges)
    requires
        s.hero is None,
    ensures
        s.frame_step(e) == s.init_step(),
{
}

/// Startup-race tolerance: for any number of frames during which the actor
/// has not spawned, whatever their input, the input and animation stages
/// have no effect at all — the scene stays exactly as the one-time seeding
/// left it, and no stage faults.
pub proof fn lemma_startup_race(s: Scene, es: Seq<KeyEdges>)
    requires
        s.hero is None,
    ensures
        es.len() > 0 ==> s.frames(es) == s.init_step(),
        s.frames(es).hero is None,
    decreases es.len(),
{
    if es.len() > 0 {
        lemma_startup_race(s, es.drop_last());
        if es.len() == 1 {
            lemma_frame_without_hero(s, es.last());
        } else {
            lemma_frame_without_hero(s.init_step(), es.last());
            lemma_init_step_idempotent(s);
        }
    }
}

/// Every frame preserves well-formedness.
pub proof fn lemma_frame_step_wf(s: Scene, e: KeyEdges)
    requires
        s.wf(),
    ensures
        s.frame_step(e).wf(),
{
}

/// Any run of frames preserves well-formedness; in particular the actor's
/// horizontal intent stays in {-1, 0, +1} forever.
pub proof fn lemma_frames_wf(s: Scene, es: Seq<KeyEdges>)
    requires
        s.wf(),
    ensures
        s.frames(es).wf(),
    decreases es.len(),
{
    if es.len() > 0 {
        lemma_frames_wf(s, es.drop_last());
        lemma_frame_step_wf(s.frames(es.drop_last()), es.last());
    }
}

} // verus!
