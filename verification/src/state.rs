//! The top-level game state, the runtime toggles and the run's progress.
use vstd::prelude::*;
use crate::localization::Language;

verus! {

/// Top-level game state.
#[derive(Debug, Clone, Copy, PartialEq, Eq, Hash, Structural)]
pub enum AppState {
    /// Waits for every sprite sheet and sound before anything can spawn.
    Loading,
    MainMenu,
    About,
    Options,
    Playing,
    Paused,
    GameOver,
}

impl Default for AppState {
    fn default() -> (r: Self)
        ensures
            r == AppState::Loading,
    {
        AppState::Loading
    }
}

/// States in which a level is loaded.
pub open spec fn is_gameplay(state: AppState) -> bool {
    state == AppState::Playing || state == AppState::Paused || state == AppState::GameOver
}

/// States that show the menu backdrop (fog and fireflies).
pub open spec fn is_menu_backdrop(state: AppState) -> bool {
    state == AppState::MainMenu || state == AppState::About || state == AppState::Options
}

/// The state after the pause control: play pauses.
pub open spec fn pause_state(state: AppState) -> AppState {
    if state == AppState::Playing { AppState::Paused } else { state }
}

/// The state after the back control: a pause resumes.
pub open spec fn back_state(state: AppState) -> AppState {
    if state == AppState::Paused { AppState::Playing } else { state }
}

impl AppState {
    /// A level is loaded: the sky backdrop shows and scrolls.
    pub fn is_gameplay(self) -> (r: bool)
        ensures
            r == is_gameplay(self),
    {
        match self {
            AppState::Playing | AppState::Paused | AppState::GameOver => true,
            _ => false,
        }
    }

    /// The menu screens, which keep the fog and fireflies behind them.
    pub fn wants_menu_backdrop(self) -> (r: bool)
        ensures
            r == is_menu_backdrop(self),
    {
        match self {
            AppState::MainMenu | AppState::About | AppState::Options => true,
            _ => false,
        }
    }

    /// Fireflies are driven while playing and on the main menu and About
    /// screen.
    pub fn drives_fireflies(self) -> (r: bool)
        ensures
            r == (self == AppState::Playing || self == AppState::MainMenu || self == AppState::About),
    {
        match self {
            AppState::Playing | AppState::MainMenu | AppState::About => true,
            _ => false,
        }
    }

    /// The state after the pause control while playing: paused.
    pub fn on_pause(self) -> (r: AppState)
        ensures
            r == pause_state(self),
    {
        if self == AppState::Playing {
            AppState::Paused
        } else {
            self
        }
    }

    /// The state after the back control: a paused game resumes; elsewhere
    /// nothing changes.
    pub fn on_back(self) -> (r: AppState)
        ensures
            r == back_state(self),
    {
        if self == AppState::Paused {
            AppState::Playing
        } else {
            self
        }
    }
}

/// Pausing then going back returns to play, and going back from a pause then
/// pausing returns to the pause.
pub proof fn law_pause_and_back_undo_each_other(state: AppState)
    ensures
        state == AppState::Playing ==> back_state(pause_state(state)) == state,
        state == AppState::Paused ==> pause_state(back_state(state)) == state,
{
}

/// Runtime toggles for the game (the sound volume lives with the engine).
#[derive(Debug, Clone, Copy, PartialEq, Eq, Structural)]
pub struct GameSettings {
    pub play_sounds: bool,
    /// Draw hitbox and collision-block outlines.
    pub debug_draw: bool,
    /// Enables the chromatic-aberration glitch. Off by default.
    pub chroma_glitch: bool,
    /// Ignores lethal damage so a level can be walked end to end.
    pub invulnerable: bool,
    /// UI display language.
    pub language: Language,
}

impl Default for GameSettings {
    fn default() -> (r: Self)
        ensures
            r.play_sounds,
            !r.debug_draw,
            !r.chroma_glitch,
            !r.invulnerable,
            r.language == Language::English,
    {
        GameSettings {
            play_sounds: true,
            debug_draw: false,
            chroma_glitch: false,
            invulnerable: false,
            language: Language::English,
        }
    }
}

impl GameSettings {
    /// The debug keys: the first flips the outline drawing, the second the
    /// invulnerability.
    pub fn toggle_debug(&mut self, flip_draw: bool, flip_invulnerable: bool)
        ensures
            final(self).debug_draw == (old(self).debug_draw != flip_draw),
            final(self).invulnerable == (old(self).invulnerable != flip_invulnerable),
            final(self).play_sounds == old(self).play_sounds,
            final(self).chroma_glitch == old(self).chroma_glitch,
            final(self).language == old(self).language,
    {
        if flip_draw {
            self.debug_draw = !self.debug_draw;
        }
        if flip_invulnerable {
            self.invulnerable = !self.invulnerable;
        }
    }
}

/// Score and progression carried across level loads.
#[derive(Debug, Clone, Copy, PartialEq, Eq, Structural)]
pub struct GameProgress {
    pub coins_collected: u32,
    pub current_level: usize,
}

impl Default for GameProgress {
    fn default() -> (r: Self)
        ensures
            r.coins_collected == 0,
            r.current_level == 0,
    {
        GameProgress { coins_collected: 0, current_level: 0 }
    }
}

impl GameProgress {
    /// A coin was picked up.
    pub fn collect_coin(&mut self)
        requires
            old(self).coins_collected < u32::MAX,
        ensures
            final(self).coins_collected == old(self).coins_collected + 1,
            final(self).current_level == old(self).current_level,
    {
        self.coins_collected = self.coins_collected + 1;
    }

    /// A fresh run starts with no coins.
    pub fn reset_coins(&mut self)
        ensures
            final(self).coins_collected == 0,
            final(self).current_level == old(self).current_level,
    {
        self.coins_collected = 0;
    }
}

} // verus!
