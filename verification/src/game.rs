//! Basic vocabulary shared by the rest of the engine.

use vstd::prelude::*;

verus! {

/// How a finished game ended.
#[derive(Clone, Copy, Debug, PartialEq, Eq, Structural)]
pub enum GameResult {
    P1Wins,
    P2Wins,
    Tie,
}

/// The announcement made when a game ends with `r`.
pub open spec fn end_message(r: GameResult) -> Seq<char> {
    match r {
        GameResult::P1Wins => "player 1 wins!"@,
        GameResult::P2Wins => "player 2 wins!"@,
        GameResult::Tie => "tie!"@,
    }
}

impl GameResult {
    /// Returns the announcement made when a game ends with this result.
    pub fn end_message(&self) -> (r: &'static str)
        ensures
            r@ == end_message(*self),
    {
        match self {
            GameResult::P1Wins => "player 1 wins!",
            GameResult::P2Wins => "player 2 wins!",
            GameResult::Tie => "tie!",
        }
    }
}

/// The announcement of each result, as printed; no two results are announced alike.
pub proof fn law_end_messages()
    ensures
        end_message(GameResult::P1Wins) == "player 1 wins!"@,
        end_message(GameResult::P2Wins) == "player 2 wins!"@,
        end_message(GameResult::Tie) == "tie!"@,
        forall|a: GameResult, b: GameResult| a != b ==> #[trigger] end_message(a) != #[trigger] end_message(b),
{
    reveal_strlit("player 1 wins!");
    reveal_strlit("player 2 wins!");
    reveal_strlit("tie!");
    assert("player 1 wins!"@[7] != "player 2 wins!"@[7]);
}

/// One of the two players.
#[derive(Clone, Copy, Debug, PartialEq, Eq, Structural)]
pub enum Player {
    Player1,
    Player2,
}

/// The opponent of `p`.
pub open spec fn opponent(p: Player) -> Player {
    match p {
        Player::Player1 => Player::Player2,
        Player::Player2 => Player::Player1,
    }
}

impl Player {
    /// Returns the other player.
    pub fn other(self) -> (r: Player)
        ensures
            r == opponent(self),
    {
        match self {
            Player::Player1 => Player::Player2,
            Player::Player2 => Player::Player1,
        }
    }
}

/// Taking the opponent twice gives back the same player, and never the same one once.
pub proof fn lemma_other_involution(p: Player)
    ensures
        opponent(opponent(p)) == p,
        opponent(p) != p,
{
}

/// An effect printed as an icon on cards (junk effects and simple abilities).
#[derive(Clone, Copy, Debug, PartialEq, Eq, Structural)]
pub enum IconEffect {
    Damage,
    Injure,
    Restore,
    Draw,
    Water,
    GainPunk,
    Raid,
}

/// What the game loop does next.
#[derive(Clone, Copy, Debug, PartialEq, Eq, Structural)]
pub enum TurnAction {
    /// Play turn `number`; `first` is set only for the game's first turn.
    Play { number: u64, first: bool },
    /// The game is over: announce the result.
    Announce(GameResult),
}

/// The game starts with turn 1, its first turn.
pub fn first_turn() -> (r: TurnAction)
    ensures
        r == (TurnAction::Play { number: 1, first: true }),
{
    TurnAction::Play { number: 1, first: true }
}

/// What follows turn `turn` once it was played: the next turn if the game goes on, or the
/// announcement of the result that ended it.
pub fn after_turn(turn: u64, outcome: Result<(), GameResult>) -> (r: TurnAction)
    requires
        turn < u64::MAX,
    ensures
        outcome is Ok ==> r == (TurnAction::Play { number: (turn + 1) as u64, first: false }),
        forall|res: GameResult| outcome == Err::<(), GameResult>(res) ==> r == TurnAction::Announce(res),
{
    match outcome {
        Ok(()) => TurnAction::Play { number: turn + 1, first: false },
        Err(result) => TurnAction::Announce(result),
    }
}


} // verus!
