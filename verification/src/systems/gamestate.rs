//! Game-state stage: the finite state machine over loading, running,
//! paused, completed and game-over, driven by world predicates and the
//! break timer. No other stage mutates the state field.
//!
//! Transitions: loading becomes running once a ship exists and the asteroid
//! field is non-empty, and never anything else; running pauses and resumes
//! on the pause toggle; running ends in game-over when the ship is
//! destroyed, or in level-completed when asteroids and aliens are both
//! gone, each arming the break timer; once the break timer has decayed to
//! zero, both of those reset the world, carrying over only the alien spawn
//! cadence.

use crate::cfg::Config;
use crate::entity::{Action, GameState};
use crate::game::Game;
use vstd::prelude::*;

verus! {

/// How the game-state stage relates the world after (`post`) to the world
/// before (`pre`): the machine's full transition table. From pause, the
/// toggle resumes. From loading, a populated world (ship and a non-empty
/// field) starts running — never anything else. From running, completion
/// outranks death outranks the pause toggle, and the first two arm the
/// break timer. From completed and game-over, an expired break timer resets
/// the world, carrying over only the alien cadence. No other field moves.
pub open spec fn gamestate_rel(pre: Game, post: Game, cfg: &Config) -> bool {
    &&& pre.state == GameState::Pause ==> post == (Game {
        state: if pre.player_actions.spec_contains(Action::TogglePause) {
            GameState::LevelRunning
        } else {
            GameState::Pause
        },
        ..pre
    })
    &&& pre.state == GameState::LevelLoading ==> post == (Game {
        state: if pre.ship is Some && pre.asteroids@.len() > 0 {
            GameState::LevelRunning
        } else {
            GameState::LevelLoading
        },
        ..pre
    })
    &&& pre.state == GameState::LevelRunning ==> {
        let completed = pre.asteroids@.len() == 0 && pre.aliens@.len() == 0;
        let dead = match pre.ship {
            Some(s) => s.is_destroyed,
            None => false,
        };
        let toggled = pre.player_actions.spec_contains(Action::TogglePause);
        post == (Game {
            state: if completed {
                GameState::LevelCompleted
            } else if dead {
                GameState::GameOver
            } else if toggled {
                GameState::Pause
            } else {
                GameState::LevelRunning
            },
            break_timer: if completed || dead {
                cfg.break_delay
            } else {
                pre.break_timer
            },
            ..pre
        })
    }
    &&& pre.state == GameState::LevelCompleted || pre.state == GameState::GameOver ==> {
        if pre.break_timer == 0 {
            Game::is_reset_of(post, pre)
        } else {
            post == pre
        }
    }
}

/// Applies one game-state transition, exactly as `gamestate_rel` states.
/// Exactly one field beyond the state changes in place: the break timer is
/// armed on the way into game-over or level-completed, and the whole world
/// is reset (alien cadence carried over) on the way out of them.
pub fn update(game: &mut Game, cfg: &Config)
    requires
        old(game).entities_wf(cfg),
        cfg.wf(),
    ensures
        final(game).entities_wf(cfg),
        gamestate_rel(*old(game), *final(game), cfg),
{
    match game.state {
        GameState::Pause => {
            if game.player_actions.contains(Action::TogglePause) {
                game.state = GameState::LevelRunning;
            }
        },
        GameState::LevelLoading => {
            if game.ship.is_some() && game.asteroids.len() > 0 {
                game.state = GameState::LevelRunning;
            }
        },
        GameState::LevelRunning => {
            if game.player_actions.contains(Action::TogglePause) {
                game.state = GameState::Pause;
            }
            let ship_destroyed = match game.ship {
                Some(s) => s.is_destroyed,
                None => false,
            };
            if ship_destroyed {
                game.break_timer = cfg.break_delay;
                game.state = GameState::GameOver;
            }
            if game.asteroids.len() == 0 && game.aliens.len() == 0 {
                game.break_timer = cfg.break_delay;
                game.state = GameState::LevelCompleted;
            }
        },
        GameState::LevelCompleted => {
            if game.break_timer == 0 {
                let alien_timer = game.alien_timer;
                *game = Game::new();
                game.alien_timer = alien_timer;
            }
        },
        GameState::GameOver => {
            if game.break_timer == 0 {
                let alien_timer = game.alien_timer;
                *game = Game::new();
                game.alien_timer = alien_timer;
            }
        },
    }
}

} // verus!
