//! The game's state machine and its score.
use vstd::prelude::*;
use crate::text::{decimal, decimal_string, push_decimal};

verus! {

/// The phase the game is in.
#[derive(Clone, Copy, Debug, PartialEq, Eq, Structural, Hash)]
pub enum GameState {
    /// The title menu (the phase the game starts in).
    MainMenu,
    /// A round was asked for from the menu and is about to begin.
    Pending,
    /// A round is being played.
    Playing,
    /// The bird has crashed; the final score is shown.
    GameOver,
}

impl GameState {
    /// The phase the game starts in.
    pub fn initial() -> (s: GameState)
        ensures
            s == GameState::MainMenu,
    {
        GameState::MainMenu
    }
}

/// Points scored in the current round.
#[derive(Clone, Copy, Debug, PartialEq, Eq, Structural)]
pub struct Score(pub u32);

/// One more gate passed.
#[derive(Clone, Copy, Debug, PartialEq, Eq, Structural)]
pub struct ScorePoint;

impl Score {
    /// The score before any round.
    pub fn new() -> (s: Score)
        ensures
            s.0 == 0,
    {
        Score(0)
    }
}

/// Counts a passed gate.
pub fn on_score_point(score: &mut Score, point: ScorePoint)
    requires
        old(score).0 < u32::MAX,
    ensures
        final(score).0 == old(score).0 + 1,
{
    score.0 = score.0 + 1;
}

/// Start of a round: the score goes back to zero, and the score board
/// shows it.
pub fn show_score(score: &mut Score) -> (text: String)
    ensures
        final(score).0 == 0,
        text@ == decimal(0),
{
    score.0 = 0;
    decimal_string(0)
}

/// The text of the score board.
pub fn score_update(score: &Score) -> (text: String)
    ensures
        text@ == decimal(score.0 as nat),
{
    decimal_string(score.0)
}

/// The line that announces the final score on the game-over screen.
pub fn game_over(score: &Score) -> (text: String)
    ensures
        text@ == "Your final score is "@ + decimal(score.0 as nat),
{
    let mut text = "Your final score is ".to_owned();
    push_decimal(&mut text, score.0);
    text
}

/// A new round is asked for, after a crash, by the space key or by a touch
/// anywhere but on the mute button. The result is the phase to switch to,
/// if any.
pub fn enter_playing(space_just_pressed: bool, touches_off_mute_button: usize, state: GameState) -> (next: Option<GameState>)
    ensures
        next == if state == GameState::GameOver && (space_just_pressed || touches_off_mute_button > 0) {
            Some(GameState::Playing)
        } else {
            None::<GameState>
        },
{
    let mut next: Option<GameState> = None;
    if space_just_pressed && state == GameState::GameOver {
        next = Some(GameState::Playing);
    }
    for t in 0..touches_off_mute_button
        invariant
            next == if state == GameState::GameOver && (space_just_pressed || t > 0) {
                Some(GameState::Playing)
            } else {
                None::<GameState>
            },
    {
        if state == GameState::GameOver {
            next = Some(GameState::Playing);
        }
    }
    next
}

/// Whether the mute button is live: while a round is about to begin or
/// being played.
pub fn check_pending_playing(state: GameState) -> (live: bool)
    ensures
        live == (state == GameState::Pending || state == GameState::Playing),
{
    state == GameState::Pending || state == GameState::Playing
}

} // verus!
