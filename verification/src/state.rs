//! The game controller: one player, one obstacle, a score and a frame-time
//! accumulator, driven through the modes Menu, Playing, Paused and Over.
//!
//! Rendering and input polling happen outside this crate; each frame the
//! surrounding program hands `tick` the elapsed milliseconds and the one key
//! event it polled (if any), and learns from the result whether the player
//! asked to quit. Physics is decoupled from the render rate: the elapsed
//! time accumulates, and only when the total crosses `FRAME_DURATION` does
//! the player advance by one physics step.

use vstd::prelude::*;
use crate::obstacle::{fresh_obstacle, hit_spec, Obstacle};
use crate::player::{gravity_applied, Player, FLAP_VELOCITY_TENTHS};
use crate::{FRAME_DURATION, SCREEN_HEIGHT, SCREEN_WIDTH};

verus! {

/// Horizontal start position of the player.
pub const PLAYER_START_X: i32 = 5;

/// Vertical start position of the player.
pub const PLAYER_START_Y: i32 = 25;

pub enum GameMode {
    Menu,
    Playing,
    /// Inert display mode: no transition leads into or out of it during
    /// play; a tick in this mode changes nothing.
    Paused,
    Over,
}

/// The one key event a frame can carry, as far as the game reads it;
/// any other key is ignored and arrives as no event at all.
pub enum Key {
    P,
    Q,
    Space,
}

/// State structure & logic to match the game engine's state structure.
pub struct State {
    pub mode: GameMode,
    pub player: Player,
    pub obstacle: Obstacle,
    /// Milliseconds accumulated since the last physics step.
    pub frame_time: u32,
    /// Obstacles passed since the last restart; never decreases during play.
    pub score: i32,
}

/// The player as every game and restart begins: fixed start position,
/// velocity zero.
pub open spec fn start_player() -> Player {
    Player { x: PLAYER_START_X, y: PLAYER_START_Y, velocity: 0 }
}

/// The state the controller is constructed with: menu mode, the start
/// player, a fresh obstacle one screen ahead, score and accumulator zero.
pub open spec fn initial_state() -> State {
    State {
        mode: GameMode::Menu,
        player: start_player(),
        obstacle: fresh_obstacle(SCREEN_WIDTH, 0),
        frame_time: 0,
        score: 0,
    }
}

/// The state a restart produces: as the initial state, but playing.
pub open spec fn restarted_state() -> State {
    State {
        mode: GameMode::Playing,
        player: start_player(),
        obstacle: fresh_obstacle(SCREEN_WIDTH, 0),
        frame_time: 0,
        score: 0,
    }
}

/// What one collision check does to the state: if the player has passed the
/// obstacle, the score rises by one and a fresh obstacle spawns one screen
/// ahead of the player, seeded with the new score; then the game ends (mode
/// `Over`) exactly when the player hits the current wall or has fallen below
/// the screen.
pub open spec fn collision_applied(s: State) -> State {
    let passed = s.player.x > s.obstacle.x;
    let score2 = if passed { (s.score + 1) as i32 } else { s.score };
    let obstacle2 = if passed {
        fresh_obstacle((s.player.x + SCREEN_WIDTH) as i32, score2)
    } else {
        s.obstacle
    };
    let hit = hit_spec(obstacle2, s.player);
    let below = s.player.y > SCREEN_HEIGHT;
    State {
        mode: if hit || below { GameMode::Over } else { s.mode },
        player: s.player,
        obstacle: obstacle2,
        frame_time: s.frame_time,
        score: score2,
    }
}

/// One physics step: gravity, then one cell forward.
pub open spec fn physics_applied(p: Player) -> Player {
    let p1 = gravity_applied(p);
    Player { x: (p1.x + 1) as i32, y: p1.y, velocity: p1.velocity }
}

/// What one playing tick does to the state: the elapsed time accumulates,
/// and once the total crosses the step threshold the accumulator resets and
/// the player advances by one physics step; a flap key sets the velocity to
/// the flap impulse; then the collision rules apply.
pub open spec fn playing_applied(s: State, elapsed_ms: u32, key: Option<Key>) -> State {
    let t = s.frame_time + elapsed_ms;
    let stepped = t > FRAME_DURATION;
    let p1 = if stepped { physics_applied(s.player) } else { s.player };
    let ft: u32 = if stepped { 0u32 } else { t as u32 };
    let p2 = if key == Some(Key::Space) {
        Player { x: p1.x, y: p1.y, velocity: FLAP_VELOCITY_TENTHS }
    } else {
        p1
    };
    collision_applied(
        State { mode: s.mode, player: p2, obstacle: s.obstacle, frame_time: ft, score: s.score },
    )
}

/// What a menu-like tick (menu or game-over screen) does: `P` restarts,
/// `Q` asks to quit, anything else changes nothing.
pub open spec fn menu_applied(s: State, key: Option<Key>) -> (State, bool) {
    if key == Some(Key::P) {
        (restarted_state(), false)
    } else if key == Some(Key::Q) {
        (s, true)
    } else {
        (s, false)
    }
}

/// What one full tick does, by mode: menu and game-over screens listen for
/// restart or quit, playing runs the physics and collision rules, paused is
/// inert.
pub open spec fn tick_applied(s: State, elapsed_ms: u32, key: Option<Key>) -> (State, bool) {
    match s.mode {
        GameMode::Menu => menu_applied(s, key),
        GameMode::Playing => (playing_applied(s, elapsed_ms, key), false),
        GameMode::Paused => (s, false),
        GameMode::Over => menu_applied(s, key),
    }
}

/// Menu-screen key handling: `P` restarts the game, `Q` asks to quit, any
/// other event (or none) changes nothing. Shared by the main menu and the
/// game-over screen.
pub fn listen_to_menu_inputs(state: &mut State, key: Option<Key>) -> (quit: bool)
    ensures
        (*final(state), quit) == menu_applied(*old(state), key),
        quit ==> *final(state) == *old(state),
        key == Some(Key::P) ==> final(state).wf(),
{
    match key {
        Some(Key::P) => {
            state.restart();
            false
        },
        Some(Key::Q) => true,
        _ => false,
    }
}

impl State {
    /// The states the game can reach: both entities well formed, the score
    /// non-negative, the accumulator at most one step threshold, and, while
    /// playing, the player still on screen.
    pub open spec fn wf(self) -> bool {
        &&& self.player.wf()
        &&& self.obstacle.wf()
        &&& 0 <= self.score
        &&& self.frame_time <= FRAME_DURATION
        &&& (self.mode == GameMode::Playing ==> self.player.y <= SCREEN_HEIGHT)
    }

    pub fn new() -> (s: State)
        ensures
            s == initial_state(),
            s.wf(),
    {
        State {
            mode: GameMode::Menu,
            player: Player::new(PLAYER_START_X, PLAYER_START_Y),
            obstacle: Obstacle::new(SCREEN_WIDTH, 0),
            frame_time: 0,
            score: 0,
        }
    }

    /// Begins a fresh game: playing mode, the start player, a fresh obstacle
    /// one screen ahead seeded with score zero, score and accumulator zero.
    pub fn restart(&mut self)
        ensures
            *final(self) == restarted_state(),
            final(self).wf(),
    {
        self.mode = GameMode::Playing;
        self.player = Player::new(PLAYER_START_X, PLAYER_START_Y);
        self.obstacle = Obstacle::new(SCREEN_WIDTH, 0);
        self.score = 0;
        self.frame_time = 0;
    }

    /// Scores a passed obstacle and ends the game on a collision or a fall
    /// below the screen, as `collision_applied` states.
    pub fn check_collision(&mut self)
        requires
            old(self).obstacle.wf(),
            0 <= old(self).score < i32::MAX,
            old(self).player.x + SCREEN_WIDTH <= i32::MAX,
        ensures
            *final(self) == collision_applied(*old(self)),
            final(self).obstacle.wf(),
            old(self).player.x > old(self).obstacle.x ==> {
                &&& final(self).score == old(self).score + 1
                &&& final(self).obstacle == fresh_obstacle(
                    (old(self).player.x + SCREEN_WIDTH) as i32,
                    final(self).score,
                )
            },
            old(self).player.x <= old(self).obstacle.x ==> {
                &&& final(self).score == old(self).score
                &&& final(self).obstacle == old(self).obstacle
            },
    {
        let is_behind_obstacle = self.player.x > self.obstacle.x;

        if is_behind_obstacle {
            self.score = self.score + 1;
            self.obstacle = Obstacle::new(self.player.x + SCREEN_WIDTH, self.score);
        }

        let is_hitting_wall = self.obstacle.is_hitting(&self.player);
        let is_below_ground = self.player.y > SCREEN_HEIGHT;

        if is_hitting_wall || is_below_ground {
            self.mode = GameMode::Over;
        }
    }

    /// One playing tick, as `playing_applied` states. The score never falls,
    /// and rises by at most one per tick.
    pub fn playing(&mut self, elapsed_ms: u32, key: Option<Key>)
        requires
            old(self).wf(),
            old(self).mode == GameMode::Playing,
            old(self).score < i32::MAX,
            old(self).player.x + 1 + SCREEN_WIDTH <= i32::MAX,
            elapsed_ms <= u32::MAX - FRAME_DURATION,
        ensures
            *final(self) == playing_applied(*old(self), elapsed_ms, key),
            final(self).wf(),
            old(self).score <= final(self).score <= old(self).score + 1,
    {
        self.frame_time = self.frame_time + elapsed_ms;

        if self.frame_time > FRAME_DURATION {
            self.frame_time = 0;
            self.player.apply_gravity();
            self.player.move_forward();
        }

        match key {
            Some(Key::Space) => self.player.flap_wings(),
            _ => {},
        }

        self.check_collision();
    }

    /// Main-menu tick: listens for restart or quit.
    pub fn main_menu(&mut self, key: Option<Key>) -> (quit: bool)
        ensures
            (*final(self), quit) == menu_applied(*old(self), key),
            key == Some(Key::P) ==> final(self).wf(),
    {
        listen_to_menu_inputs(self, key)
    }

    /// Game-over tick: listens for restart or quit, as the menu does.
    pub fn over(&mut self, key: Option<Key>) -> (quit: bool)
        ensures
            (*final(self), quit) == menu_applied(*old(self), key),
            key == Some(Key::P) ==> final(self).wf(),
    {
        listen_to_menu_inputs(self, key)
    }

    /// One full frame of game logic, dispatched on the current mode, as
    /// `tick_applied` states; the result says whether the player asked to
    /// quit. A well-formed state stays well formed, so the surrounding
    /// frame loop can tick forever while the machine-limit bounds hold.
    pub fn tick(&mut self, elapsed_ms: u32, key: Option<Key>) -> (quit: bool)
        requires
            old(self).wf(),
            old(self).score < i32::MAX,
            old(self).player.x + 1 + SCREEN_WIDTH <= i32::MAX,
            elapsed_ms <= u32::MAX - FRAME_DURATION,
        ensures
            (*final(self), quit) == tick_applied(*old(self), elapsed_ms, key),
            final(self).wf(),
            quit ==> *final(self) == *old(self),
    {
        match self.mode {
            GameMode::Menu => self.main_menu(key),
            GameMode::Playing => {
                self.playing(elapsed_ms, key);
                false
            },
            GameMode::Paused => false,
            GameMode::Over => self.over(key),
        }
    }
}

} // verus!
