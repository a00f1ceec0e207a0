use crate::app::{CurrentGameScene, GameEvent};
use vstd::prelude::*;

verus! {

/// How many lives a fresh game starts with.
pub const MAX_LIVES: u8 = 3;

/// The splash screen: it waits for the player to start a game.
pub struct SplashScene;

/// What the splash scene publishes for an event: starting the game
/// switches to the game scene; everything else is ignored.
pub open spec fn spec_splash_step(event: GameEvent) -> Option<GameEvent> {
    match event {
        GameEvent::StartGame => Some(GameEvent::ChangeScene(CurrentGameScene::Game)),
        _ => None,
    }
}

impl SplashScene {
    /// React to one event, returning what to publish in response.
    pub fn on_event(&mut self, event: &GameEvent) -> (out: Option<GameEvent>)
        ensures
            out == spec_splash_step(*event),
    {
        match event {
            GameEvent::StartGame => Some(GameEvent::ChangeScene(CurrentGameScene::Game)),
            _ => None,
        }
    }
}

/// The game-over screen: it waits for the player to head back to the
/// splash screen.
pub struct EndScene;

/// What the end scene publishes for an event: going back to the start
/// switches to the splash scene; everything else is ignored.
pub open spec fn spec_end_step(event: GameEvent) -> Option<GameEvent> {
    match event {
        GameEvent::BackToStart => Some(GameEvent::ChangeScene(CurrentGameScene::Splash)),
        _ => None,
    }
}

impl EndScene {
    /// React to one event, returning what to publish in response.
    pub fn on_event(&mut self, event: &GameEvent) -> (out: Option<GameEvent>)
        ensures
            out == spec_end_step(*event),
    {
        match event {
            GameEvent::BackToStart => Some(GameEvent::ChangeScene(CurrentGameScene::Splash)),
            _ => None,
        }
    }
}

/// The state of the scene that hosts the running game: the lives that
/// remain.
#[derive(Clone, Copy, Debug, PartialEq, Eq, Structural)]
pub struct GameSceneState {
    pub lives: u8,
}

/// The lives left after a life-loss event.
pub open spec fn spec_lives_after_loss(lives: u8) -> u8 {
    if lives <= 1 {
        0u8
    } else {
        (lives - 1) as u8
    }
}

/// What the game scene publishes for an event. Losing the last life
/// ends the game; scored and autoplay-toggle events are forwarded up
/// unchanged; everything else is ignored.
pub open spec fn spec_game_scene_step(state: GameSceneState, event: GameEvent) -> (
    GameSceneState,
    Option<GameEvent>,
) {
    match event {
        GameEvent::LostLife => (
            GameSceneState { lives: spec_lives_after_loss(state.lives) },
            if state.lives <= 1 {
                Some(GameEvent::ChangeScene(CurrentGameScene::End))
            } else {
                None
            },
        ),
        GameEvent::Scored(points) => (state, Some(GameEvent::Scored(points))),
        GameEvent::AutomationModeToggle => (state, Some(GameEvent::AutomationModeToggle)),
        _ => (state, None),
    }
}

/// The scene that hosts the running game.
pub struct GameScene;

impl GameScene {
    /// React to one event, updating the lives that remain and returning
    /// what to publish in response.
    pub fn on_event(&mut self, state: &mut GameSceneState, event: &GameEvent) -> (out: Option<
        GameEvent,
    >)
        ensures
            (*final(state), out) == spec_game_scene_step(*old(state), *event),
    {
        match event {
            GameEvent::LostLife => {
                if state.lives <= 1 {
                    state.lives = 0;
                    Some(GameEvent::ChangeScene(CurrentGameScene::End))
                } else {
                    state.lives = state.lives - 1;
                    None
                }
            },
            GameEvent::Scored(points) => Some(GameEvent::Scored(*points)),
            GameEvent::AutomationModeToggle => Some(GameEvent::AutomationModeToggle),
            _ => None,
        }
    }

    /// Hand the player a fresh set of lives when the scene mounts.
    pub fn on_mount(&mut self, state: &mut GameSceneState)
        ensures
            final(state).lives == MAX_LIVES,
    {
        state.lives = MAX_LIVES;
    }
}

/// The whole game, seen from above: on the splash screen, playing with
/// some lives and score, or at the game-over screen with a final score.
#[derive(Clone, Copy, Debug, PartialEq, Eq, Structural)]
pub enum SceneState {
    Splash,
    Playing { lives: u8, score: u32 },
    GameOver { final_score: u32 },
}

/// The scene transition relation. Starting a game begins play with
/// fresh lives and a zero score; a scored event adds to the score; a
/// life loss takes a life and, once no life remains, ends the game
/// with the score so far; game over returns to the splash screen.
/// An event that does not apply to the active scene changes nothing.
pub open spec fn spec_scene_step(state: SceneState, event: GameEvent) -> SceneState {
    match (state, event) {
        (SceneState::Splash, GameEvent::StartGame) => SceneState::Playing {
            lives: MAX_LIVES,
            score: 0u32,
        },
        (SceneState::Playing { lives, score }, GameEvent::LostLife) => {
            if lives <= 1 {
                SceneState::GameOver { final_score: score }
            } else {
                SceneState::Playing { lives: (lives - 1) as u8, score }
            }
        },
        (SceneState::Playing { lives, score }, GameEvent::Scored(points)) => SceneState::Playing {
            lives,
            score: (score + points) as u32,
        },
        (SceneState::GameOver { .. }, GameEvent::BackToStart) => SceneState::Splash,
        _ => state,
    }
}

/// Advance the scene state machine by one event.
pub fn scene_step(state: SceneState, event: &GameEvent) -> (next: SceneState)
    requires
        state matches SceneState::Playing { lives, score } && *event matches GameEvent::Scored(
            points,
        ) ==> score + points <= u32::MAX,
    ensures
        next == spec_scene_step(state, *event),
{
    match (state, event) {
        (SceneState::Splash, GameEvent::StartGame) => SceneState::Playing {
            lives: MAX_LIVES,
            score: 0,
        },
        (SceneState::Playing { lives, score }, GameEvent::LostLife) => {
            if lives <= 1 {
                SceneState::GameOver { final_score: score }
            } else {
                SceneState::Playing { lives: lives - 1, score }
            }
        },
        (SceneState::Playing { lives, score }, GameEvent::Scored(points)) => SceneState::Playing {
            lives,
            score: score + *points,
        },
        (SceneState::GameOver { .. }, GameEvent::BackToStart) => SceneState::Splash,
        _ => state,
    }
}

/// Law: losing a life with a single life left ends the game at once.
/// The machine moves straight to the game-over scene carrying the
/// score; it never lingers in play with zero lives.
pub proof fn lemma_last_life_ends_game(score: u32)
    ensures
        spec_scene_step(SceneState::Playing { lives: 1u8, score }, GameEvent::LostLife)
            == (SceneState::GameOver { final_score: score }),
        !(spec_scene_step(
            SceneState::Playing { lives: 1u8, score },
            GameEvent::LostLife,
        ) is Playing),
{
}

} // verus!
