//! The two states of the game and what moves it from one to the other.

use vstd::prelude::*;

verus! {

/// Where the game stands.
#[derive(Clone, Copy, Debug, PartialEq, Eq, Structural, Hash)]
pub enum GameState {
    /// A run is under way.
    InGame,
    /// The run is over and the death screen is shown.
    Dead,
}

/// Something that asks for a state.
#[derive(Clone, Copy, Debug, PartialEq, Eq, Structural, Hash)]
pub enum GameEvent {
    /// The player lost the last hit point.
    PlayerDied,
    /// The retry button was pressed.
    RetryPressed,
}

/// The state `event` asks for: a death asks for the death screen, a press on
/// the retry button for a run.
pub open spec fn state_wanted(event: GameEvent) -> GameState {
    match event {
        GameEvent::PlayerDied => GameState::Dead,
        GameEvent::RetryPressed => GameState::InGame,
    }
}

impl GameEvent {
    /// The state this event asks for.
    pub fn target(self) -> (state: GameState)
        ensures
            state == state_wanted(self),
    {
        match self {
            GameEvent::PlayerDied => GameState::Dead,
            GameEvent::RetryPressed => GameState::InGame,
        }
    }
}

impl GameState {
    /// The state the game starts in.
    pub fn initial() -> (state: GameState)
        ensures
            state == GameState::InGame,
    {
        GameState::InGame
    }

    /// The state that follows this one on `event`: the one the event asks
    /// for, whatever this one is.
    pub fn on_event(self, event: GameEvent) -> (next: GameState)
        ensures
            next == state_wanted(event),
    {
        event.target()
    }
}

/// Each state has exactly one way out: a run ends with the player's death
/// and with nothing else, the death screen with a press on the retry button
/// and with nothing else.
pub proof fn one_way_out(state: GameState, event: GameEvent)
    ensures
        state_wanted(event) != state <==> event == (match state {
            GameState::InGame => GameEvent::PlayerDied,
            GameState::Dead => GameEvent::RetryPressed,
        }),
{
}

} // verus!
