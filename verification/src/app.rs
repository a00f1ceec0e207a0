use vstd::prelude::*;

verus! {

/// Which of the three scenes is on screen.
#[derive(Clone, Copy, Debug, Default, PartialEq, Eq, Structural)]
pub enum CurrentGameScene {
    #[default]
    Splash,
    Game,
    End,
}

/// An event routed between the components: what the player or the
/// round simulation announced, with its typed payload.
#[derive(Clone, Copy, Debug, PartialEq, Eq, Structural)]
pub enum GameEvent {
    /// The player left the splash screen.
    StartGame,
    /// The player left the game-over screen.
    BackToStart,
    /// A new round should be set up.
    Begin,
    /// The ball fell past the bottom edge.
    LostLife,
    /// A brick was destroyed; the payload is its point value.
    Scored(u32),
    /// The shell should switch to another scene.
    ChangeScene(CurrentGameScene),
    /// The player toggled autoplay.
    AutomationModeToggle,
}

/// The template name of a scene.
pub open spec fn spec_scene_name(scene: CurrentGameScene) -> Seq<char> {
    match scene {
        CurrentGameScene::Splash => "splash"@,
        CurrentGameScene::Game => "game"@,
        CurrentGameScene::End => "end"@,
    }
}

impl CurrentGameScene {
    /// The name under which the shell's templates know this scene.
    pub fn scene_name(&self) -> (name: String)
        ensures
            name@ == spec_scene_name(*self),
    {
        match self {
            CurrentGameScene::Splash => "splash".to_owned(),
            CurrentGameScene::Game => "game".to_owned(),
            CurrentGameScene::End => "end".to_owned(),
        }
    }
}

/// The top-level state the shell renders from: the active scene, the
/// score ledger and the viewport dimensions.
#[derive(Clone, Copy, Debug, PartialEq, Eq, Structural)]
pub struct AppState {
    pub scene: CurrentGameScene,
    pub score: u32,
    pub high_score: u32,
    pub level: u8,
    pub width: u16,
    pub height: u16,
}

impl Default for AppState {
    /// A fresh ledger on the splash screen.
    fn default() -> (state: AppState)
        ensures
            state == (AppState {
                scene: CurrentGameScene::Splash,
                score: 0u32,
                high_score: 0u32,
                level: 0u8,
                width: 0u16,
                height: 0u16,
            }),
    {
        AppState {
            scene: CurrentGameScene::Splash,
            score: 0,
            high_score: 0,
            level: 0,
            width: 0,
            height: 0,
        }
    }
}

/// The state a scored event leaves the ledger in: the points are added
/// to the score; any other event the ledger understands is a scene
/// change.
pub open spec fn spec_app_step(state: AppState, event: GameEvent) -> AppState {
    match event {
        GameEvent::ChangeScene(scene) => AppState { scene, ..state },
        GameEvent::Scored(points) => AppState { score: (state.score + points) as u32, ..state },
        _ => state,
    }
}

/// The top-level component: it owns the [`AppState`] ledger and reacts
/// to the events the scenes publish.
pub struct App;

impl App {
    /// React to one published event: a scene change swaps the active
    /// scene, a scored event adds the points; everything else is
    /// ignored.
    pub fn on_event(&mut self, state: &mut AppState, event: &GameEvent)
        requires
            *event matches GameEvent::Scored(points) ==> old(state).score + points <= u32::MAX,
        ensures
            *final(state) == spec_app_step(*old(state), *event),
    {
        match event {
            GameEvent::ChangeScene(scene) => {
                state.scene = *scene;
            },
            GameEvent::Scored(points) => {
                state.score = state.score + *points;
            },
            _ => {},
        }
    }

    /// Record the viewport the shell measured at mount time.
    pub fn on_mount(&mut self, state: &mut AppState, width: u16, height: u16)
        ensures
            *final(state) == (AppState { width, height, ..*old(state) }),
    {
        state.width = width;
        state.height = height;
    }
}

} // verus!
