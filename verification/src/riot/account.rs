//! Riot IDs (`GameName#TAG`) and the Account-V1 data shape.
use crate::text::{chars_of, split_once, split_once_seq, trim, trim_seq};
use vstd::prelude::*;

verus! {

#[derive(Debug, Clone, PartialEq, Eq)]
pub struct RiotIdParts {
    pub game_name: String,
    pub tag_line: String,
}

#[derive(Debug, Clone, Copy, PartialEq, Eq, Structural)]
pub enum RiotIdError {
    MissingTag,
    EmptySegment,
}

impl RiotIdError {
    pub open spec fn message_spec(self) -> Seq<char> {
        match self {
            RiotIdError::MissingTag => "riot id must look like GameName#TAG"@,
            RiotIdError::EmptySegment => "riot id has an empty name or tag segment"@,
        }
    }

    pub fn message(self) -> (r: &'static str)
        ensures
            r@ == self.message_spec(),
    {
        match self {
            RiotIdError::MissingTag => "riot id must look like GameName#TAG",
            RiotIdError::EmptySegment => "riot id has an empty name or tag segment",
        }
    }
}

/// The Account-V1 account shape.
#[derive(Debug, Clone)]
pub struct AccountDto {
    pub puuid: String,
    pub game_name: String,
    pub tag_line: String,
}

/// A Riot ID splits at its first `#`; both sides are trimmed and must stay non-empty.
pub open spec fn riot_id_spec(s: Seq<char>) -> Result<(Seq<char>, Seq<char>), RiotIdError> {
    match split_once_seq(s, '#') {
        None => Err(RiotIdError::MissingTag),
        Some((name, tag)) => if trim_seq(name).len() == 0 || trim_seq(tag).len() == 0 {
            Err(RiotIdError::EmptySegment)
        } else {
            Ok((trim_seq(name), trim_seq(tag)))
        },
    }
}

pub fn parse_riot_id(value: &str) -> (r: Result<RiotIdParts, RiotIdError>)
    ensures
        match riot_id_spec(value@) {
            Ok((name, tag)) => r matches Ok(p) && p.game_name@ == name && p.tag_line@ == tag,
            Err(e) => r == Err::<RiotIdParts, RiotIdError>(e),
        },
{
    let (game_name, tag_line) = match split_once(value, '#') {
        Some(parts) => parts,
        None => {
            return Err(RiotIdError::MissingTag);
        },
    };
    let name = trim(game_name.as_str());
    let tag = trim(tag_line.as_str());
    if chars_of(name.as_str()).len() == 0 || chars_of(tag.as_str()).len() == 0 {
        return Err(RiotIdError::EmptySegment);
    }
    Ok(RiotIdParts { game_name: name, tag_line: tag })
}

} // verus!
