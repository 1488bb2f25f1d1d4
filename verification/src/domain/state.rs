//! Team sides and the game status state machine.
use crate::text::{append, str_eq};
use vstd::prelude::*;

verus! {

#[derive(Debug, Clone, Copy, PartialEq, Eq, Structural, Hash)]
pub enum TeamSide {
    Blue,
    Red,
}

#[derive(Debug, Clone, Copy, PartialEq, Eq, Structural, Hash)]
pub enum GameStatus {
    Lobby,
    Randomized,
    Ingame,
    Reported,
    Finalized,
    Cancelled,
    Ambiguous,
}

#[derive(Debug)]
pub enum StateError {
    InvalidStatus(String),
    InvalidTeam(String),
    InvalidTransition { from: GameStatus, to: GameStatus },
}

pub open spec fn team_side_name(side: TeamSide) -> Seq<char> {
    match side {
        TeamSide::Blue => "blue"@,
        TeamSide::Red => "red"@,
    }
}

/// The side a lower-case name denotes.
pub open spec fn team_side_from_name(name: Seq<char>) -> Option<TeamSide> {
    if name == "blue"@ {
        Some(TeamSide::Blue)
    } else if name == "red"@ {
        Some(TeamSide::Red)
    } else {
        None
    }
}

pub open spec fn opponent_of(side: TeamSide) -> TeamSide {
    match side {
        TeamSide::Blue => TeamSide::Red,
        TeamSide::Red => TeamSide::Blue,
    }
}

pub open spec fn game_status_name(status: GameStatus) -> Seq<char> {
    match status {
        GameStatus::Lobby => "lobby"@,
        GameStatus::Randomized => "randomized"@,
        GameStatus::Ingame => "ingame"@,
        GameStatus::Reported => "reported"@,
        GameStatus::Finalized => "finalized"@,
        GameStatus::Cancelled => "cancelled"@,
        GameStatus::Ambiguous => "ambiguous"@,
    }
}

/// The variant name, as `{:?}` prints it.
pub open spec fn game_status_debug_name(status: GameStatus) -> Seq<char> {
    match status {
        GameStatus::Lobby => "Lobby"@,
        GameStatus::Randomized => "Randomized"@,
        GameStatus::Ingame => "Ingame"@,
        GameStatus::Reported => "Reported"@,
        GameStatus::Finalized => "Finalized"@,
        GameStatus::Cancelled => "Cancelled"@,
        GameStatus::Ambiguous => "Ambiguous"@,
    }
}

pub open spec fn game_status_from_name(name: Seq<char>) -> Option<GameStatus> {
    if name == "lobby"@ {
        Some(GameStatus::Lobby)
    } else if name == "randomized"@ {
        Some(GameStatus::Randomized)
    } else if name == "ingame"@ {
        Some(GameStatus::Ingame)
    } else if name == "reported"@ {
        Some(GameStatus::Reported)
    } else if name == "finalized"@ {
        Some(GameStatus::Finalized)
    } else if name == "cancelled"@ {
        Some(GameStatus::Cancelled)
    } else if name == "ambiguous"@ {
        Some(GameStatus::Ambiguous)
    } else {
        None
    }
}

/// Games that still occupy the guild's single open slot.
pub open spec fn status_is_open(status: GameStatus) -> bool {
    match status {
        GameStatus::Finalized | GameStatus::Cancelled => false,
        _ => true,
    }
}

/// The planned moves of the game state machine.
pub open spec fn transition_allowed(from: GameStatus, to: GameStatus) -> bool {
    match (from, to) {
        (GameStatus::Lobby, GameStatus::Randomized) => true,
        (GameStatus::Lobby, GameStatus::Cancelled) => true,
        (GameStatus::Randomized, GameStatus::Ingame) => true,
        (GameStatus::Randomized, GameStatus::Reported) => true,
        (GameStatus::Randomized, GameStatus::Finalized) => true,
        (GameStatus::Randomized, GameStatus::Cancelled) => true,
        (GameStatus::Ingame, GameStatus::Reported) => true,
        (GameStatus::Ingame, GameStatus::Ambiguous) => true,
        (GameStatus::Ingame, GameStatus::Finalized) => true,
        (GameStatus::Reported, GameStatus::Finalized) => true,
        (GameStatus::Reported, GameStatus::Cancelled) => true,
        (GameStatus::Ambiguous, GameStatus::Finalized) => true,
        (GameStatus::Ambiguous, GameStatus::Cancelled) => true,
        _ => false,
    }
}

impl StateError {
    pub open spec fn message_spec(&self) -> Seq<char> {
        match self {
            StateError::InvalidStatus(v) => "invalid game status `"@ + v@ + "`"@,
            StateError::InvalidTeam(v) => "invalid team side `"@ + v@ + "`"@,
            StateError::InvalidTransition { from, to } => "cannot move game from "@
                + game_status_debug_name(*from) + " to "@ + game_status_debug_name(*to),
        }
    }

    /// The text shown to users for this error.
    pub fn message(&self) -> (r: String)
        ensures
            r@ == self.message_spec(),
    {
        let mut s = String::new();
        match self {
            StateError::InvalidStatus(v) => {
                append(&mut s, "invalid game status `");
                append(&mut s, v.as_str());
                append(&mut s, "`");
            },
            StateError::InvalidTeam(v) => {
                append(&mut s, "invalid team side `");
                append(&mut s, v.as_str());
                append(&mut s, "`");
            },
            StateError::InvalidTransition { from, to } => {
                append(&mut s, "cannot move game from ");
                append(&mut s, from.debug_name());
                append(&mut s, " to ");
                append(&mut s, to.debug_name());
            },
        }
        s
    }
}

impl TeamSide {
    pub fn as_str(self) -> (r: &'static str)
        ensures
            r@ == team_side_name(self),
    {
        match self {
            TeamSide::Blue => "blue",
            TeamSide::Red => "red",
        }
    }

    pub fn opponent(self) -> (r: Self)
        ensures
            r == opponent_of(self),
    {
        match self {
            TeamSide::Blue => TeamSide::Red,
            TeamSide::Red => TeamSide::Blue,
        }
    }

    /// Reads a side from its lower-case name.
    pub fn from_str(value: &str) -> (r: Result<Self, StateError>)
        ensures
            match team_side_from_name(value@) {
                Some(side) => r == Ok::<TeamSide, StateError>(side),
                None => r matches Err(StateError::InvalidTeam(v)) && v@ == value@,
            },
    {
        if str_eq(value, "blue") {
            Ok(TeamSide::Blue)
        } else if str_eq(value, "red") {
            Ok(TeamSide::Red)
        } else {
            Err(StateError::InvalidTeam(value.to_owned()))
        }
    }
}

impl GameStatus {
    pub fn as_str(self) -> (r: &'static str)
        ensures
            r@ == game_status_name(self),
    {
        match self {
            GameStatus::Lobby => "lobby",
            GameStatus::Randomized => "randomized",
            GameStatus::Ingame => "ingame",
            GameStatus::Reported => "reported",
            GameStatus::Finalized => "finalized",
            GameStatus::Cancelled => "cancelled",
            GameStatus::Ambiguous => "ambiguous",
        }
    }

    pub fn debug_name(self) -> (r: &'static str)
        ensures
            r@ == game_status_debug_name(self),
    {
        match self {
            GameStatus::Lobby => "Lobby",
            GameStatus::Randomized => "Randomized",
            GameStatus::Ingame => "Ingame",
            GameStatus::Reported => "Reported",
            GameStatus::Finalized => "Finalized",
            GameStatus::Cancelled => "Cancelled",
            GameStatus::Ambiguous => "Ambiguous",
        }
    }

    pub fn is_open(self) -> (r: bool)
        ensures
            r == status_is_open(self),
    {
        match self {
            GameStatus::Finalized | GameStatus::Cancelled => false,
            _ => true,
        }
    }

    pub fn can_transition_to(self, next: Self) -> (r: bool)
        ensures
            r == transition_allowed(self, next),
    {
        match (self, next) {
            (GameStatus::Lobby, GameStatus::Randomized) => true,
            (GameStatus::Lobby, GameStatus::Cancelled) => true,
            (GameStatus::Randomized, GameStatus::Ingame) => true,
            (GameStatus::Randomized, GameStatus::Reported) => true,
            (GameStatus::Randomized, GameStatus::Finalized) => true,
            (GameStatus::Randomized, GameStatus::Cancelled) => true,
            (GameStatus::Ingame, GameStatus::Reported) => true,
            (GameStatus::Ingame, GameStatus::Ambiguous) => true,
            (GameStatus::Ingame, GameStatus::Finalized) => true,
            (GameStatus::Reported, GameStatus::Finalized) => true,
            (GameStatus::Reported, GameStatus::Cancelled) => true,
            (GameStatus::Ambiguous, GameStatus::Finalized) => true,
            (GameStatus::Ambiguous, GameStatus::Cancelled) => true,
            _ => false,
        }
    }

    /// Reads a status from its lower-case name.
    pub fn from_str(value: &str) -> (r: Result<Self, StateError>)
        ensures
            match game_status_from_name(value@) {
                Some(status) => r == Ok::<GameStatus, StateError>(status),
                None => r matches Err(StateError::InvalidStatus(v)) && v@ == value@,
            },
    {
        if str_eq(value, "lobby") {
            Ok(GameStatus::Lobby)
        } else if str_eq(value, "randomized") {
            Ok(GameStatus::Randomized)
        } else if str_eq(value, "ingame") {
            Ok(GameStatus::Ingame)
        } else if str_eq(value, "reported") {
            Ok(GameStatus::Reported)
        } else if str_eq(value, "finalized") {
            Ok(GameStatus::Finalized)
        } else if str_eq(value, "cancelled") {
            Ok(GameStatus::Cancelled)
        } else if str_eq(value, "ambiguous") {
            Ok(GameStatus::Ambiguous)
        } else {
            Err(StateError::InvalidStatus(value.to_owned()))
        }
    }
}

/// Succeeds exactly on the planned moves; any other move is refused with both ends named.
pub fn ensure_transition(from: GameStatus, to: GameStatus) -> (r: Result<(), StateError>)
    ensures
        transition_allowed(from, to) ==> r is Ok,
        !transition_allowed(from, to) ==> (r matches Err(
            StateError::InvalidTransition { from: f, to: t },
        ) && f == from && t == to),
{
    if from.can_transition_to(to) {
        Ok(())
    } else {
        Err(StateError::InvalidTransition { from, to })
    }
}

/// Reading a side back from its name gives the same side.
pub proof fn lemma_team_side_name_round_trip(side: TeamSide)
    ensures
        team_side_from_name(team_side_name(side)) == Some(side),
{
    reveal_strlit("blue");
    reveal_strlit("red");
    assert("red"@.len() != "blue"@.len());
}

/// The opponent of a side is the other side, and the opponent of the opponent is the side itself.
pub proof fn lemma_opponent_involution(side: TeamSide)
    ensures
        opponent_of(side) != side,
        opponent_of(opponent_of(side)) == side,
{
}

/// Reading a status back from its name gives the same status.
pub proof fn lemma_game_status_name_round_trip(status: GameStatus)
    ensures
        game_status_from_name(game_status_name(status)) == Some(status),
{
    reveal_strlit("lobby");
    reveal_strlit("randomized");
    reveal_strlit("ingame");
    reveal_strlit("reported");
    reveal_strlit("finalized");
    reveal_strlit("cancelled");
    reveal_strlit("ambiguous");
    let names = seq!["lobby"@, "randomized"@, "ingame"@, "reported"@, "finalized"@, "cancelled"@, "ambiguous"@];
    assert(names[0][0] == 'l' && names[1][0] == 'r' && names[2][0] == 'i' && names[3][0] == 'r');
    assert(names[4][0] == 'f' && names[5][0] == 'c' && names[6][0] == 'a');
    assert(names[1].len() != names[3].len());
    assert forall|i: int, j: int| 0 <= i < j < 7 implies #[trigger] names[i] != #[trigger] names[j] by {
        if names[i] == names[j] {
            assert(names[i][0] == names[j][0]);
            assert(names[i].len() == names[j].len());
        }
    }
    assert(names[0] != names[1]);
    assert(names[0] != names[2]);
    assert(names[0] != names[3]);
    assert(names[0] != names[4]);
    assert(names[0] != names[5]);
    assert(names[1] != names[2]);
    assert(names[1] != names[3]);
    assert(names[1] != names[4]);
    assert(names[1] != names[5]);
    assert(names[2] != names[3]);
    assert(names[2] != names[4]);
    assert(names[2] != names[5]);
    assert(names[3] != names[4]);
    assert(names[3] != names[5]);
    assert(names[4] != names[5]);
    assert(names[0] != names[6]);
    assert(names[1] != names[6]);
    assert(names[2] != names[6]);
    assert(names[3] != names[6]);
    assert(names[4] != names[6]);
    assert(names[5] != names[6]);
}

/// Finalized and cancelled games are terminal; every move starts from an open game, changes the
/// status, and never leads back to the lobby.
pub proof fn lemma_transitions_leave_open_states(from: GameStatus, to: GameStatus)
    requires
        transition_allowed(from, to),
    ensures
        status_is_open(from),
        from != to,
        to != GameStatus::Lobby,
{
}

/// A stored status that names a closed game: finalized or cancelled. Such a game's ratings and
/// win/loss counts are settled.
pub open spec fn is_closed_status(status: Seq<char>) -> bool {
    game_status_from_name(status) matches Some(s) && (s == GameStatus::Finalized || s
        == GameStatus::Cancelled)
}

/// Whether a stored status names a closed game; a status that cannot be read names none.
pub fn status_is_closed(status: &str) -> (r: bool)
    ensures
        r == is_closed_status(status@),
{
    match GameStatus::from_str(status) {
        Ok(GameStatus::Finalized) | Ok(GameStatus::Cancelled) => true,
        _ => false,
    }
}

/// A closed game can never be moved again.
pub proof fn lemma_closed_games_are_terminal(from: GameStatus, to: GameStatus)
    requires
        !status_is_open(from),
    ensures
        !transition_allowed(from, to),
{
}

/// The state machine, move by move into each status: no game goes back to the lobby; only a
/// lobby is randomized; only a randomized game goes live; a result is reported from a
/// randomized or live game; only a live game becomes ambiguous; every open game that has left
/// the lobby can be finalized; and every open game but a live one can be cancelled.
pub proof fn lemma_transitions_into_each_status(from: GameStatus, to: GameStatus)
    ensures
        to == GameStatus::Lobby ==> !transition_allowed(from, to),
        to == GameStatus::Randomized ==> (transition_allowed(from, to) <==> from
            == GameStatus::Lobby),
        to == GameStatus::Ingame ==> (transition_allowed(from, to) <==> from
            == GameStatus::Randomized),
        to == GameStatus::Reported ==> (transition_allowed(from, to) <==> (from
            == GameStatus::Randomized || from == GameStatus::Ingame)),
        to == GameStatus::Ambiguous ==> (transition_allowed(from, to) <==> from
            == GameStatus::Ingame),
        to == GameStatus::Finalized ==> (transition_allowed(from, to) <==> (status_is_open(from)
            && from != GameStatus::Lobby)),
        to == GameStatus::Cancelled ==> (transition_allowed(from, to) <==> (status_is_open(from)
            && from != GameStatus::Ingame)),
{
}

/// The stored names of the statuses: each status is read from its own lower-case name and from
/// no other text.
pub proof fn lemma_status_names(name: Seq<char>)
    ensures
        game_status_from_name(name) == Some(GameStatus::Lobby) <==> name == "lobby"@,
        game_status_from_name(name) == Some(GameStatus::Randomized) <==> name == "randomized"@,
        game_status_from_name(name) == Some(GameStatus::Ingame) <==> name == "ingame"@,
        game_status_from_name(name) == Some(GameStatus::Reported) <==> name == "reported"@,
        game_status_from_name(name) == Some(GameStatus::Finalized) <==> name == "finalized"@,
        game_status_from_name(name) == Some(GameStatus::Cancelled) <==> name == "cancelled"@,
        game_status_from_name(name) == Some(GameStatus::Ambiguous) <==> name == "ambiguous"@,
{
    reveal_strlit("lobby");
    reveal_strlit("randomized");
    reveal_strlit("ingame");
    reveal_strlit("reported");
    reveal_strlit("finalized");
    reveal_strlit("cancelled");
    reveal_strlit("ambiguous");
    assert("randomized"@.len() != "reported"@.len());
    assert("randomized"@[0] == 'r' && "reported"@[0] == 'r' && "lobby"@[0] == 'l'
        && "ingame"@[0] == 'i' && "finalized"@[0] == 'f' && "cancelled"@[0] == 'c'
        && "ambiguous"@[0] == 'a');
}

/// The side names: blue is read from `blue`, red from `red`, and no other text names a side.
pub proof fn lemma_side_names(name: Seq<char>)
    ensures
        team_side_from_name(name) == Some(TeamSide::Blue) <==> name == "blue"@,
        team_side_from_name(name) == Some(TeamSide::Red) <==> name == "red"@,
        team_side_name(TeamSide::Blue) == "blue"@ && team_side_name(TeamSide::Red) == "red"@,
{
    reveal_strlit("blue");
    reveal_strlit("red");
    assert("red"@.len() != "blue"@.len());
}

} // verus!
