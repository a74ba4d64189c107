//! The simulation context and the per-tick state machine: input
//! handling, collision detection and the fixed-tick pipeline that
//! prunes, scrolls, integrates, checks, spawns and advances.
//!
//! The surrounding binary owns the clock and the event channel; it
//! forwards normalized key and resize events here and calls `on_tick`
//! at the fixed tick rate while the game is running.
use vstd::prelude::*;
use crate::constants::{GameState, GROUND_SHIFT, MAX_FRAME_HEIGHT, MAX_FRAME_WIDTH, SPAWN_CADENCE};
use crate::rect::{get_default_frame_rect, overlaps, Rect};
use crate::ground::Ground;
use crate::rabbit::{physics_step, top_y_spec, Rabbit, RABBIT_HEIGHT, RABBIT_WIDTH};
use crate::cactus::{
    live_pred, obstacle_from_byte, random_byte, spawn_spec, spec_advance, CactusType, ObstacleVec,
    TALL_CACTUS_WIDTH,
};

verus! {

/// A normalized key event: the character of the key, if it has one,
/// and whether this is the press (rather than release or repeat) of
/// the key.
#[derive(Debug, Clone, Copy)]
pub struct KeyEvent {
    pub code: Option<char>,
    pub pressed: bool,
}

/// The whole simulation state for one round.
pub struct App {
    pub frame_rect: Rect,
    pub state: GameState,
    pub ground: Ground,
    pub rabbit: Rabbit,
    pub obstacles: ObstacleVec,
}

/// The screen row of the ground line inside a frame: `GROUND_SHIFT`
/// rows above the bottom edge, clamped at the top.
pub open spec fn ground_base_y(frame: Rect) -> u16 {
    if frame.height >= GROUND_SHIFT {
        (frame.height - GROUND_SHIFT) as u16
    } else {
        0u16
    }
}

/// The rabbit's screen-space bounding rectangle inside a frame.
pub open spec fn rabbit_rect(r: Rabbit, frame: Rect) -> Rect {
    Rect {
        x: r.x,
        y: top_y_spec(r, ground_base_y(frame)),
        width: RABBIT_WIDTH,
        height: RABBIT_HEIGHT,
    }
}

/// The obstacle's collision rectangle: its screen rectangle shifted
/// one cell right and one cell up — a deliberate one-unit forgiveness
/// inset so adjacent-cell rendering artifacts do not read as hits.
pub open spec fn inset_obstacle_rect(c: CactusType, frame: Rect) -> Rect {
    Rect {
        x: (c.spec_x() + 1) as u16,
        y: (ground_base_y(frame) - c.spec_height() - 1) as u16,
        width: c.spec_width(),
        height: c.spec_height(),
    }
}

/// True when the rabbit's rectangle overlaps the collision rectangle
/// of the nearest obstacle.  Only the nearest (oldest surviving)
/// obstacle is tested: it is the only one that can plausibly reach
/// the stationary character.
pub open spec fn collision(app: App) -> bool {
    app.obstacles@.len() > 0 && overlaps(
        rabbit_rect(app.rabbit, app.frame_rect),
        inset_obstacle_rect(app.obstacles@[0], app.frame_rect),
    )
}

impl App {
    /// Both moving parts of the state are well formed.
    pub open spec fn wf(self) -> bool {
        &&& self.rabbit.wf()
        &&& self.obstacles.wf()
    }
}

/// The geometry a running tick relies on: the scroll counter can still
/// step, a frame due to spawn is wide enough to hold the widest
/// obstacle, and if an obstacle survives pruning the frame is tall
/// enough to place its collision rectangle.
pub open spec fn tick_enabled(app: App) -> bool {
    &&& app.ground.offset < usize::MAX
    &&& ((app.ground.offset + 1) % (SPAWN_CADENCE as int) == 0 ==> app.frame_rect.width
        >= TALL_CACTUS_WIDTH)
    &&& (app.obstacles@.filter(live_pred()).len() > 0 ==> ground_base_y(app.frame_rect)
        >= app.obstacles@.filter(live_pred())[0].spec_height() + 1)
}

/// The obstacle sequence after every member advances `delta` cells
/// left (saturating).
pub open spec fn advanced_seq(s: Seq<CactusType>, delta: int) -> Seq<CactusType> {
    Seq::new(s.len(), |i: int| spec_advance(s[i], delta))
}

/// How one running tick takes the state `pre` to the state `post`,
/// given the byte `byte` drawn for a possible spawn: prune, scroll by
/// one, integrate physics, test the nearest obstacle for collision
/// (moving to `GameOver` on a hit), spawn one obstacle if the new
/// scroll offset is a cadence multiple, then advance every obstacle
/// one cell left.
pub open spec fn tick_rel(pre: App, post: App, byte: u8) -> bool {
    let pruned = pre.obstacles@.filter(live_pred());
    let moved_rabbit = physics_step(pre.rabbit);
    let hit = pruned.len() > 0 && overlaps(
        rabbit_rect(moved_rabbit, pre.frame_rect),
        inset_obstacle_rect(pruned[0], pre.frame_rect),
    );
    let new_offset = pre.ground.offset + 1;
    let with_spawn = if new_offset % (SPAWN_CADENCE as int) == 0 {
        pruned.push(spawn_spec(byte, pre.frame_rect.width))
    } else {
        pruned
    };
    &&& post.frame_rect == pre.frame_rect
    &&& post.ground.pattern_chars@ == pre.ground.pattern_chars@
    &&& post.ground.offset == new_offset
    &&& post.rabbit == moved_rabbit
    &&& post.state == (if hit {
        GameState::GameOver
    } else {
        pre.state
    })
    &&& post.obstacles@ == advanced_seq(with_spawn, 1)
}

impl App {
    /// A fresh round: running, grounded rabbit, empty obstacle set,
    /// scroll at zero.
    pub fn new(frame_rect: Rect, pattern: String) -> (app: App)
        ensures
            app.frame_rect == frame_rect,
            app.state == GameState::Running,
            app.ground.pattern_chars@ == pattern@,
            app.ground.offset == 0,
            app.rabbit == (Rabbit { x: crate::rabbit::RABBIT_X_POS, y: 0u32, velocity: 0i32 }),
            app.obstacles@ == Seq::<CactusType>::empty(),
            app.wf(),
    {
        App {
            frame_rect,
            state: GameState::Running,
            ground: Ground::new(pattern),
            rabbit: Rabbit::new(),
            obstacles: ObstacleVec::new(),
        }
    }

    /// Applies one normalized key event: the quit key moves to `Quit`
    /// from any state; the jump key is forwarded to the rabbit only
    /// while running; everything else is ignored.
    pub fn handle_key_event(&mut self, key_event: KeyEvent)
        requires
            old(self).wf(),
        ensures
            final(self).wf(),
            final(self).frame_rect == old(self).frame_rect,
            final(self).ground == old(self).ground,
            final(self).obstacles == old(self).obstacles,
            (key_event.pressed && key_event.code == Some('q')) ==> final(self).state
                == GameState::Quit && final(self).rabbit == old(self).rabbit,
            (key_event.pressed && key_event.code == Some(' ')) ==> final(self).state == old(
                self,
            ).state && final(self).rabbit == (if old(self).state == GameState::Running {
                crate::rabbit::jump_spec(old(self).rabbit)
            } else {
                old(self).rabbit
            }),
            !(key_event.pressed && (key_event.code == Some('q') || key_event.code == Some(' ')))
                ==> final(self).state == old(self).state && final(self).rabbit == old(
                self,
            ).rabbit,
    {
        if key_event.pressed {
            match key_event.code {
                Some(c) => {
                    if c == 'q' {
                        self.state = GameState::Quit;
                    } else if c == ' ' {
                        if self.state == GameState::Running {
                            self.rabbit.jump();
                        }
                    }
                },
                None => {},
            }
        }
    }

    /// Applies a terminal resize: the frame is reset to the new size
    /// at the origin, clamped to the fixed viewport maximum.
    pub fn handle_resize(&mut self, width: u16, height: u16)
        ensures
            final(self).frame_rect == (Rect {
                x: 0u16,
                y: 0u16,
                width: if width > MAX_FRAME_WIDTH {
                    MAX_FRAME_WIDTH
                } else {
                    width
                },
                height: if height > MAX_FRAME_HEIGHT {
                    MAX_FRAME_HEIGHT
                } else {
                    height
                },
            }),
            final(self).state == old(self).state,
            final(self).ground == old(self).ground,
            final(self).rabbit == old(self).rabbit,
            final(self).obstacles == old(self).obstacles,
            old(self).wf() ==> final(self).wf(),
    {
        self.frame_rect = get_default_frame_rect(width, height);
    }

    /// Tests the rabbit against the nearest obstacle's inset collision
    /// rectangle; a hit ends the round with `GameOver`, anything else
    /// leaves the state alone.
    pub fn check_collisions(&mut self)
        requires
            old(self).wf(),
            old(self).obstacles@.len() > 0 ==> ground_base_y(old(self).frame_rect) >= old(
                self,
            ).obstacles@[0].spec_height() + 1,
        ensures
            final(self).wf(),
            final(self).frame_rect == old(self).frame_rect,
            final(self).ground == old(self).ground,
            final(self).rabbit == old(self).rabbit,
            final(self).obstacles == old(self).obstacles,
            final(self).state == (if collision(*old(self)) {
                GameState::GameOver
            } else {
                old(self).state
            }),
    {
        let ground_base = self.frame_rect.height.saturating_sub(GROUND_SHIFT);
        let rabbit_top_y = self.rabbit.get_top_y(ground_base);
        let rabbit_area = Rect::new(self.rabbit.x, rabbit_top_y, RABBIT_WIDTH, RABBIT_HEIGHT);

        match self.obstacles.nearest() {
            Some(cactus) => {
                let (x, width, height, _) = cactus.get_all_attr();
                let cactus_area = Rect::new(x + 1, ground_base - height - 1, width, height);
                if rabbit_area.intersects(cactus_area) {
                    self.state = GameState::GameOver;
                }
            },
            None => {},
        }
    }

    /// One running tick with the spawn draw fixed to `byte`: prune,
    /// scroll, integrate, check collision, spawn on cadence, advance.
    /// In any state other than `Running` the tick is skipped entirely.
    pub fn tick_with_byte(&mut self, byte: u8)
        requires
            old(self).wf(),
            old(self).state == GameState::Running ==> tick_enabled(*old(self)),
        ensures
            final(self).wf(),
            old(self).state == GameState::Running ==> tick_rel(*old(self), *final(self), byte),
            old(self).state != GameState::Running ==> *final(self) == *old(self),
    {
        if !(self.state == GameState::Running) {
            return ;
        }
        self.obstacles.remove_obstacle();
        self.ground.scroll(None);
        self.rabbit.update_physics();
        self.check_collisions();
        if self.ground.offset() % SPAWN_CADENCE == 0 {
            let new_obstacle = obstacle_from_byte(byte, self.frame_rect.width);
            self.obstacles.push_obstacle(new_obstacle);
        }
        self.obstacles.update_obstacles(None);
        proof {
            let pruned = old(self).obstacles@.filter(live_pred());
            let new_offset = old(self).ground.offset + 1;
            let with_spawn = if new_offset % (SPAWN_CADENCE as int) == 0 {
                pruned.push(spawn_spec(byte, old(self).frame_rect.width))
            } else {
                pruned
            };
            assert(self.obstacles@ =~= advanced_seq(with_spawn, 1));
        }
    }

    /// One running tick: as `tick_with_byte`, with the spawn kind
    /// drawn uniformly at random.
    pub fn on_tick(&mut self)
        requires
            old(self).wf(),
            old(self).state == GameState::Running ==> tick_enabled(*old(self)),
        ensures
            final(self).wf(),
            old(self).state == GameState::Running ==> exists|b: u8|
                tick_rel(*old(self), *final(self), b),
            old(self).state != GameState::Running ==> *final(self) == *old(self),
    {
        let byte = random_byte();
        self.tick_with_byte(byte);
        proof {
            if old(self).state == GameState::Running {
                assert(tick_rel(*old(self), *self, byte));
            }
        }
    }
}

} // verus!
