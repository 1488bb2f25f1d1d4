//! Typed identifiers. Each is a string whose view is its characters.
use vstd::prelude::*;

verus! {

/// A Discord user snowflake.
#[derive(Debug, PartialEq, Eq, Hash)]
pub struct DiscordUserId(String);

/// A local in-house game id, such as `g_SRLV8AbxYO`.
#[derive(Debug, PartialEq, Eq, Hash)]
pub struct GameId(String);

/// A Riot match id that passed the shape check of `RiotMatchId::parse`.
#[derive(Debug, PartialEq, Eq, Hash)]
pub struct RiotMatchId(String);

impl View for DiscordUserId {
    type V = Seq<char>;

    closed spec fn view(&self) -> Seq<char> {
        self.0@
    }
}

impl View for GameId {
    type V = Seq<char>;

    closed spec fn view(&self) -> Seq<char> {
        self.0@
    }
}

impl View for RiotMatchId {
    type V = Seq<char>;

    closed spec fn view(&self) -> Seq<char> {
        self.0@
    }
}

impl Clone for DiscordUserId {
    fn clone(&self) -> (r: Self)
        ensures
            r == *self,
    {
        DiscordUserId(self.0.clone())
    }
}

impl Clone for GameId {
    fn clone(&self) -> (r: Self)
        ensures
            r == *self,
    {
        GameId(self.0.clone())
    }
}

impl Clone for RiotMatchId {
    fn clone(&self) -> (r: Self)
        ensures
            r == *self,
    {
        RiotMatchId(self.0.clone())
    }
}

impl DiscordUserId {
    pub fn new(value: &str) -> (r: Self)
        ensures
            r@ == value@,
    {
        DiscordUserId(value.to_owned())
    }

    pub fn from_string(value: String) -> (r: Self)
        ensures
            r@ == value@,
    {
        DiscordUserId(value)
    }

    pub fn as_str(&self) -> (r: &str)
        ensures
            r@ == self@,
    {
        self.0.as_str()
    }

    pub fn into_inner(self) -> (r: String)
        ensures
            r@ == self@,
    {
        self.0
    }
}

impl GameId {
    pub fn new(value: &str) -> (r: Self)
        ensures
            r@ == value@,
    {
        GameId(value.to_owned())
    }

    pub fn from_string(value: String) -> (r: Self)
        ensures
            r@ == value@,
    {
        GameId(value)
    }

    pub fn as_str(&self) -> (r: &str)
        ensures
            r@ == self@,
    {
        self.0.as_str()
    }

    pub fn into_inner(self) -> (r: String)
        ensures
            r@ == self@,
    {
        self.0
    }
}

impl RiotMatchId {
    pub(crate) fn from_checked(value: &str) -> (r: Self)
        ensures
            r@ == value@,
    {
        RiotMatchId(value.to_owned())
    }

    pub fn as_str(&self) -> (r: &str)
        ensures
            r@ == self@,
    {
        self.0.as_str()
    }

    pub fn into_inner(self) -> (r: String)
        ensures
            r@ == self@,
    {
        self.0
    }
}

} // verus!
