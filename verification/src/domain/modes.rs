//! Game modes and the Riot queues that each of them accepts.
use crate::text::{append, str_eq};
use vstd::prelude::*;

verus! {

/// A Riot queue id, such as 450 for ARAM.
#[derive(Debug, Clone, Copy, PartialEq, Eq, Structural, Hash)]
pub struct QueueId(pub u16);

#[derive(Debug, Clone, Copy, PartialEq, Eq, Structural, Hash)]
pub enum GameModeKind {
    Rift,
    Aram,
    AramMayhem,
    Other,
}

#[derive(Debug)]
pub enum ModeError {
    Unknown(String),
}

pub open spec fn mode_name(mode: GameModeKind) -> Seq<char> {
    match mode {
        GameModeKind::Rift => "rift"@,
        GameModeKind::Aram => "aram"@,
        GameModeKind::AramMayhem => "aram_mayhem"@,
        GameModeKind::Other => "other"@,
    }
}

/// The mode that a name or one of its aliases denotes.
pub open spec fn mode_from_name(name: Seq<char>) -> Option<GameModeKind> {
    if name == "rift"@ {
        Some(GameModeKind::Rift)
    } else if name == "aram"@ {
        Some(GameModeKind::Aram)
    } else if name == "aram_mayhem"@ || name == "aram-mayhem"@ || name == "mayhem"@ {
        Some(GameModeKind::AramMayhem)
    } else if name == "other"@ {
        Some(GameModeKind::Other)
    } else {
        None
    }
}

pub open spec fn mode_expected_queue(mode: GameModeKind) -> Option<QueueId> {
    match mode {
        GameModeKind::Rift | GameModeKind::Other => None,
        GameModeKind::Aram => Some(QueueId(450)),
        GameModeKind::AramMayhem => Some(QueueId(2400)),
    }
}

/// A custom game (queue 0) fits every mode; Rift and Other take any queue; the ARAM modes
/// need their own queue.
pub open spec fn mode_accepts_queue(mode: GameModeKind, queue_id: Option<QueueId>) -> bool {
    match queue_id {
        Some(QueueId(0)) => true,
        _ => match mode {
            GameModeKind::Rift | GameModeKind::Other => true,
            _ => match (mode_expected_queue(mode), queue_id) {
                (Some(expected), Some(actual)) => expected == actual,
                _ => false,
            },
        },
    }
}

impl ModeError {
    pub open spec fn message_spec(&self) -> Seq<char> {
        match self {
            ModeError::Unknown(v) => "unknown game mode `"@ + v@ + "`"@,
        }
    }

    pub fn message(&self) -> (r: String)
        ensures
            r@ == self.message_spec(),
    {
        let mut s = String::new();
        match self {
            ModeError::Unknown(v) => {
                append(&mut s, "unknown game mode `");
                append(&mut s, v.as_str());
                append(&mut s, "`");
            },
        }
        s
    }
}

impl GameModeKind {
    pub fn as_str(self) -> (r: &'static str)
        ensures
            r@ == mode_name(self),
    {
        match self {
            GameModeKind::Rift => "rift",
            GameModeKind::Aram => "aram",
            GameModeKind::AramMayhem => "aram_mayhem",
            GameModeKind::Other => "other",
        }
    }

    pub fn expected_queue(self) -> (r: Option<QueueId>)
        ensures
            r == mode_expected_queue(self),
    {
        match self {
            GameModeKind::Rift | GameModeKind::Other => None,
            GameModeKind::Aram => Some(QueueId(450)),
            GameModeKind::AramMayhem => Some(QueueId(2400)),
        }
    }

    pub fn accepts_queue(self, queue_id: Option<QueueId>) -> (r: bool)
        ensures
            r == mode_accepts_queue(self, queue_id),
    {
        match (self, self.expected_queue(), queue_id) {
            (_, _, Some(QueueId(0))) => true,
            (GameModeKind::Rift | GameModeKind::Other, _, _) => true,
            (_, Some(expected), Some(actual)) => expected.0 == actual.0,
            _ => false,
        }
    }

    /// Reads a mode from its name or an alias (`aram-mayhem`, `mayhem`).
    pub fn from_str(value: &str) -> (r: Result<Self, ModeError>)
        ensures
            match mode_from_name(value@) {
                Some(mode) => r == Ok::<GameModeKind, ModeError>(mode),
                None => r matches Err(ModeError::Unknown(v)) && v@ == value@,
            },
    {
        if str_eq(value, "rift") {
            Ok(GameModeKind::Rift)
        } else if str_eq(value, "aram") {
            Ok(GameModeKind::Aram)
        } else if str_eq(value, "aram_mayhem") || str_eq(value, "aram-mayhem") || str_eq(
            value,
            "mayhem",
        ) {
            Ok(GameModeKind::AramMayhem)
        } else if str_eq(value, "other") {
            Ok(GameModeKind::Other)
        } else {
            Err(ModeError::Unknown(value.to_owned()))
        }
    }
}

/// Reading a mode back from its name gives the same mode.
pub proof fn lemma_mode_name_round_trip(mode: GameModeKind)
    ensures
        mode_from_name(mode_name(mode)) == Some(mode),
{
    reveal_strlit("rift");
    reveal_strlit("aram");
    reveal_strlit("aram_mayhem");
    reveal_strlit("aram-mayhem");
    reveal_strlit("mayhem");
    reveal_strlit("other");
    assert("rift"@[0] == 'r' && "aram"@[0] == 'a' && "other"@[0] == 'o');
    assert("aram"@.len() != "aram_mayhem"@.len());
    assert("aram"@.len() != "aram-mayhem"@.len());
    assert("aram"@.len() != "mayhem"@.len());
    assert("mayhem"@[0] == 'm');
    assert("aram-mayhem"@[0] == 'a');
    assert("aram_mayhem"@[0] == 'a');
}

/// Every mode accepts the queue it expects, and every mode accepts custom games (queue 0).
pub proof fn lemma_mode_accepts_expected_and_custom(mode: GameModeKind)
    ensures
        mode_accepts_queue(mode, Some(QueueId(0))),
        mode_expected_queue(mode) is Some ==> mode_accepts_queue(mode, mode_expected_queue(mode)),
{
}

/// The ARAM modes refuse each other's queue.
pub proof fn lemma_aram_modes_are_distinct()
    ensures
        !mode_accepts_queue(GameModeKind::Aram, Some(QueueId(2400))),
        !mode_accepts_queue(GameModeKind::AramMayhem, Some(QueueId(450))),
{
}

/// The mode names: `rift`, `aram` and `other` name their modes, ARAM: Mayhem is read from
/// `aram_mayhem`, `aram-mayhem` or `mayhem` and stored as `aram_mayhem`; no other text names
/// a mode.
pub proof fn lemma_mode_names(name: Seq<char>)
    ensures
        mode_from_name(name) == Some(GameModeKind::Rift) <==> name == "rift"@,
        mode_from_name(name) == Some(GameModeKind::Aram) <==> name == "aram"@,
        mode_from_name(name) == Some(GameModeKind::AramMayhem) <==> (name == "aram_mayhem"@ || name
            == "aram-mayhem"@ || name == "mayhem"@),
        mode_from_name(name) == Some(GameModeKind::Other) <==> name == "other"@,
        mode_name(GameModeKind::AramMayhem) == "aram_mayhem"@,
{
    lemma_mode_name_round_trip(GameModeKind::Rift);
    reveal_strlit("rift");
    reveal_strlit("aram");
    reveal_strlit("aram_mayhem");
    reveal_strlit("aram-mayhem");
    reveal_strlit("mayhem");
    reveal_strlit("other");
    assert("rift"@[0] == 'r' && "aram"@[0] == 'a' && "other"@[0] == 'o' && "mayhem"@[0] == 'm');
    assert("aram"@.len() == 4 && "aram_mayhem"@.len() == 11 && "aram-mayhem"@.len() == 11);
}

/// The queues each mode accepts: custom games (queue 0) always; ARAM public queue 450 and no
/// other; ARAM: Mayhem queue 2400 and no other; Rift and Other any queue, or none.
pub proof fn lemma_mode_queues(mode: GameModeKind, queue: Option<QueueId>)
    ensures
        mode == GameModeKind::Aram ==> (mode_accepts_queue(mode, queue) <==> (queue == Some(
            QueueId(0),
        ) || queue == Some(QueueId(450)))),
        mode == GameModeKind::AramMayhem ==> (mode_accepts_queue(mode, queue) <==> (queue == Some(
            QueueId(0),
        ) || queue == Some(QueueId(2400)))),
        (mode == GameModeKind::Rift || mode == GameModeKind::Other) ==> mode_accepts_queue(
            mode,
            queue,
        ),
{
}

} // verus!
