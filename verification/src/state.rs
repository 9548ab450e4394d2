use vstd::prelude::*;

use crate::obstacle::{size_for_score, Obstacle, ObstacleV, GAP_MAX, GAP_MIN};
use crate::player::{Player, PlayerV};
use crate::{FRAME_DURATION_MS, SCREEN_HEIGHT, SCREEN_WIDTH};

verus! {

/// The three screens of the game; exactly one is active at a time.
#[derive(Clone, Copy, PartialEq, Eq, Structural, Debug)]
pub enum GameMode {
    Menu,
    Playing,
    GameOver,
}

/// The keys the game recognises; every other key is ignored and is handed
/// in as no key at all.
#[derive(Clone, Copy, PartialEq, Eq, Structural, Debug)]
pub enum GameKey {
    Enter,
    Escape,
    Space,
}

/// The whole game: the player, the one live obstacle, the active screen,
/// the score, and the accumulator that gates simulation ticks.
pub struct State {
    pub player: Player,
    pub frame_time: u32,
    pub mode: GameMode,
    pub obstacle: Obstacle,
    pub score: i32,
}

/// Mathematical model of the game state, over unbounded integers.
pub ghost struct StateV {
    pub player: PlayerV,
    pub frame_time: int,
    pub mode: GameMode,
    pub obstacle: ObstacleV,
    pub score: int,
}

impl View for State {
    type V = StateV;

    open spec fn view(&self) -> StateV {
        StateV {
            player: self.player@,
            frame_time: self.frame_time as int,
            mode: self.mode,
            obstacle: self.obstacle@,
            score: self.score as int,
        }
    }
}

impl StateV {
    /// Validity: player and obstacle are valid, the score never goes
    /// negative, and the tick accumulator never rests above the frame
    /// duration (a frame either leaves it there or resets it).
    pub open spec fn wf(self) -> bool {
        &&& self.player.wf()
        &&& self.obstacle.wf()
        &&& 0 <= self.score
        &&& 0 <= self.frame_time <= FRAME_DURATION_MS
    }

    /// What a restart establishes: the fixed starting position, a zeroed
    /// accumulator and score, the playing screen, and a fresh obstacle one
    /// screen ahead — everything but the obstacle's randomly drawn gap row.
    pub open spec fn restarted(self) -> bool {
        &&& self.player == (PlayerV { x: 5, y: 25, velocity: 0 })
        &&& self.frame_time == 0
        &&& self.mode == GameMode::Playing
        &&& self.score == 0
        &&& self.obstacle.x == SCREEN_WIDTH
        &&& self.obstacle.size == size_for_score(0)
        &&& GAP_MIN <= self.obstacle.gap_y < GAP_MAX
    }

    /// Whether this frame's elapsed time pushes the accumulator past the
    /// frame duration, releasing one simulation tick.
    pub open spec fn tick_due(self, elapsed_ms: int) -> bool {
        self.frame_time + elapsed_ms > FRAME_DURATION_MS
    }

    /// The player after one playing frame: one gravity tick if it was due,
    /// then the flap impulse if the flap key was pressed this frame.
    pub open spec fn player_after_frame(self, key: Option<GameKey>, elapsed_ms: int) -> PlayerV {
        let moved = if self.tick_due(elapsed_ms) {
            self.player.gravity_step()
        } else {
            self.player
        };
        if key == Some(GameKey::Space) {
            moved.flapped()
        } else {
            moved
        }
    }

    /// Whether this frame carries the player past the live obstacle's column.
    pub open spec fn passes_obstacle(self, key: Option<GameKey>, elapsed_ms: int) -> bool {
        self.player_after_frame(key, elapsed_ms).x > self.obstacle.x
    }

    /// Whether this frame ends the run: the player has fallen off the screen
    /// or collides with the obstacle live at the end of the frame.
    pub open spec fn frame_over(self, key: Option<GameKey>, elapsed_ms: int, ob: ObstacleV) -> bool {
        let p = self.player_after_frame(key, elapsed_ms);
        p.y > SCREEN_HEIGHT || ob.hits(p)
    }

    /// The full relation one playing frame establishes between the state
    /// before (`self`) and after (`post`), exact up to the fresh obstacle's
    /// randomly drawn gap row.
    pub open spec fn play_frame_ok(self, post: StateV, key: Option<GameKey>, elapsed_ms: int) -> bool {
        let p = self.player_after_frame(key, elapsed_ms);
        &&& post.player == p
        &&& post.frame_time == (if self.tick_due(elapsed_ms) {
            0int
        } else {
            self.frame_time + elapsed_ms
        })
        &&& (self.passes_obstacle(key, elapsed_ms) ==> {
            &&& post.score == self.score + 1
            &&& post.obstacle.x == p.x + SCREEN_WIDTH
            &&& post.obstacle.size == size_for_score(self.score + 1)
            &&& GAP_MIN <= post.obstacle.gap_y < GAP_MAX
        })
        &&& (!self.passes_obstacle(key, elapsed_ms) ==> post.score == self.score
            && post.obstacle == self.obstacle)
        &&& post.mode == (if self.frame_over(key, elapsed_ms, post.obstacle) {
            GameMode::GameOver
        } else {
            self.mode
        })
    }

    /// The relation a menu-style screen (main menu or game over) establishes:
    /// Enter restarts, Escape asks to quit and leaves the state alone, and
    /// anything else leaves everything alone.
    pub open spec fn menu_step_ok(self, post: StateV, key: Option<GameKey>, quit: bool) -> bool {
        match key {
            Some(GameKey::Enter) => post.restarted() && !quit,
            Some(GameKey::Escape) => post == self && quit,
            _ => post == self && !quit,
        }
    }
}

impl State {
    /// Validity of the executable state, stated on its model.
    pub open spec fn wf(self) -> bool {
        self@.wf()
    }

    /// The initial game: the menu screen, the fixed starting player, a zero
    /// score, and a first obstacle one screen ahead.
    pub fn new(rng: &mut bracket_lib::random::RandomNumberGenerator) -> (s: State)
        ensures
            s.wf(),
            s.mode == GameMode::Menu,
            s@.player == (PlayerV { x: 5, y: 25, velocity: 0 }),
            s.frame_time == 0,
            s.score == 0,
            s.obstacle.x == SCREEN_WIDTH,
            s.obstacle.size == size_for_score(0),
            GAP_MIN <= s.obstacle.gap_y < GAP_MAX,
    {
        State {
            player: Player::new(5, 25),
            frame_time: 0,
            mode: GameMode::Menu,
            obstacle: Obstacle::new(SCREEN_WIDTH, 0, rng),
            score: 0,
        }
    }

    /// Resets the run: the fixed starting player, zeroed accumulator and
    /// score, the playing screen, and a fresh obstacle one screen ahead.
    pub fn restart(&mut self, rng: &mut bracket_lib::random::RandomNumberGenerator)
        ensures
            final(self)@.restarted(),
            final(self).wf(),
    {
        self.player = Player::new(5, 25);
        self.frame_time = 0;
        self.mode = GameMode::Playing;
        self.obstacle = Obstacle::new(SCREEN_WIDTH, 0, rng);
        self.score = 0;
    }

    /// The main menu's input handling: Enter restarts, Escape asks to quit,
    /// anything else changes nothing.
    pub fn main_menu(&mut self, key: Option<GameKey>, rng: &mut bracket_lib::random::RandomNumberGenerator) -> (quit: bool)
        ensures
            old(self)@.menu_step_ok(final(self)@, key, quit),
            old(self).wf() ==> final(self).wf(),
    {
        match key {
            Some(GameKey::Enter) => {
                self.restart(rng);
                false
            },
            Some(GameKey::Escape) => true,
            _ => false,
        }
    }

    /// The game-over screen's input handling: the same vocabulary as the
    /// main menu.
    pub fn game_over(&mut self, key: Option<GameKey>, rng: &mut bracket_lib::random::RandomNumberGenerator) -> (quit: bool)
        ensures
            old(self)@.menu_step_ok(final(self)@, key, quit),
            old(self).wf() ==> final(self).wf(),
    {
        match key {
            Some(GameKey::Enter) => {
                self.restart(rng);
                false
            },
            Some(GameKey::Escape) => true,
            _ => false,
        }
    }

    /// One playing frame: accumulate elapsed time and tick the simulation
    /// when it passes the frame duration, apply a flap independently of that
    /// gating, score and replace the obstacle once the player passes it, and
    /// end the run when the player is off screen or collides.
    pub fn play(&mut self, key: Option<GameKey>, elapsed_ms: u32, rng: &mut bracket_lib::random::RandomNumberGenerator)
        requires
            old(self).wf(),
            old(self).score < i32::MAX,
            old(self).player.x + 1 + SCREEN_WIDTH <= i32::MAX,
            old(self).player.y + 2 <= i32::MAX,
            elapsed_ms + FRAME_DURATION_MS <= u32::MAX,
        ensures
            old(self)@.play_frame_ok(final(self)@, key, elapsed_ms as int),
            final(self).wf(),
    {
        self.frame_time = self.frame_time + elapsed_ms;
        if self.frame_time > FRAME_DURATION_MS {
            self.frame_time = 0;
            self.player.gravity_and_move();
        }
        if key == Some(GameKey::Space) {
            self.player.flap();
        }
        if self.player.x > self.obstacle.x {
            self.score = self.score + 1;
            self.obstacle = Obstacle::new(self.player.x + SCREEN_WIDTH, self.score, rng);
        }
        if self.player.y > SCREEN_HEIGHT || self.obstacle.hit_obstacle(&self.player) {
            self.mode = GameMode::GameOver;
        }
    }

    /// One frame of the whole game: dispatch on the active screen. The menu
    /// screens follow `menu_step_ok`; a playing frame follows
    /// `play_frame_ok` and never asks to quit.
    pub fn tick(&mut self, key: Option<GameKey>, elapsed_ms: u32, rng: &mut bracket_lib::random::RandomNumberGenerator) -> (quit: bool)
        requires
            old(self).wf(),
            elapsed_ms + FRAME_DURATION_MS <= u32::MAX,
            old(self).mode == GameMode::Playing ==> old(self).score < i32::MAX && old(
                self,
            ).player.x + 1 + SCREEN_WIDTH <= i32::MAX && old(self).player.y + 2 <= i32::MAX,
        ensures
            final(self).wf(),
            old(self).mode == GameMode::Menu ==> old(self)@.menu_step_ok(final(self)@, key, quit),
            old(self).mode == GameMode::GameOver ==> old(self)@.menu_step_ok(
                final(self)@,
                key,
                quit,
            ),
            old(self).mode == GameMode::Playing ==> old(self)@.play_frame_ok(
                final(self)@,
                key,
                elapsed_ms as int,
            ) && !quit,
    {
        match self.mode {
            GameMode::Menu => self.main_menu(key, rng),
            GameMode::Playing => {
                self.play(key, elapsed_ms, rng);
                false
            },
            GameMode::GameOver => self.game_over(key, rng),
        }
    }
}

/// Restarting is idempotent: any two states that satisfy the restart
/// postcondition agree on every field except the obstacle's randomly drawn
/// gap row, so restarting twice in a row yields the same state both times,
/// up to that draw.
pub proof fn lemma_restart_idempotent(a: StateV, b: StateV)
    requires
        a.restarted(),
        b.restarted(),
    ensures
        a.player == b.player,
        a.frame_time == b.frame_time,
        a.mode == b.mode,
        a.score == b.score,
        a.obstacle.x == b.obstacle.x,
        a.obstacle.size == b.obstacle.size,
{
}

} // verus!
