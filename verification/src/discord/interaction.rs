//! The shapes of Discord interaction requests.
use std::collections::BTreeMap;
use vstd::prelude::*;

verus! {

#[derive(Debug, Clone, Copy, PartialEq, Eq, Structural)]
pub enum InteractionType {
    Ping,
    ApplicationCommand,
    MessageComponent,
    Other(u8),
}

pub open spec fn interaction_type_from_code(value: u8) -> InteractionType {
    if value == 1 {
        InteractionType::Ping
    } else if value == 2 {
        InteractionType::ApplicationCommand
    } else if value == 3 {
        InteractionType::MessageComponent
    } else {
        InteractionType::Other(value)
    }
}

pub open spec fn interaction_type_code(kind: InteractionType) -> u8 {
    match kind {
        InteractionType::Ping => 1,
        InteractionType::ApplicationCommand => 2,
        InteractionType::MessageComponent => 3,
        InteractionType::Other(v) => v,
    }
}

impl InteractionType {
    /// The type that a wire code denotes.
    pub fn from_code(value: u8) -> (r: Self)
        ensures
            r == interaction_type_from_code(value),
    {
        match value {
            1 => InteractionType::Ping,
            2 => InteractionType::ApplicationCommand,
            3 => InteractionType::MessageComponent,
            other => InteractionType::Other(other),
        }
    }

    /// The wire code of a type.
    pub fn code(self) -> (r: u8)
        ensures
            r == interaction_type_code(self),
    {
        match self {
            InteractionType::Ping => 1,
            InteractionType::ApplicationCommand => 2,
            InteractionType::MessageComponent => 3,
            InteractionType::Other(other) => other,
        }
    }
}

/// Discord's interaction type codes: 1 is a ping, 2 an application command, 3 a message
/// component, and every other code is kept as it came.
pub proof fn lemma_interaction_codes(value: u8)
    ensures
        interaction_type_from_code(value) == InteractionType::Ping <==> value == 1,
        interaction_type_from_code(value) == InteractionType::ApplicationCommand <==> value == 2,
        interaction_type_from_code(value) == InteractionType::MessageComponent <==> value == 3,
        (value != 1 && value != 2 && value != 3) ==> interaction_type_from_code(value)
            == InteractionType::Other(value),
{
}

/// Every wire code reads back to itself.
pub proof fn lemma_interaction_code_round_trip(value: u8)
    ensures
        interaction_type_code(interaction_type_from_code(value)) == value,
{
}

/// Every type whose code is not taken by a named type survives a trip through its code.
pub proof fn lemma_interaction_type_round_trip(kind: InteractionType)
    requires
        kind matches InteractionType::Other(v) ==> v != 1 && v != 2 && v != 3,
    ensures
        interaction_type_from_code(interaction_type_code(kind)) == kind,
{
}

/// The value of a command option: a text, or any other value kept as its JSON text.
#[derive(Debug, Clone, PartialEq, Eq)]
pub enum OptionValue {
    Text(String),
    Other(String),
}

#[derive(Debug, Clone)]
pub struct User {
    pub id: String,
    pub username: Option<String>,
}

#[derive(Debug, Clone)]
pub struct Member {
    pub user: User,
    pub permissions: Option<String>,
}

#[derive(Debug)]
pub struct CommandOption {
    pub name: String,
    pub value: Option<OptionValue>,
    pub options: Vec<CommandOption>,
}

#[derive(Debug, Clone)]
pub struct ResolvedData {
    pub users: BTreeMap<String, User>,
}

#[derive(Debug)]
pub struct ApplicationCommandData {
    pub name: String,
    pub options: Vec<CommandOption>,
    pub custom_id: Option<String>,
    pub component_type: Option<u8>,
    pub resolved: Option<ResolvedData>,
}

#[derive(Debug)]
pub struct Interaction {
    pub id: String,
    pub application_id: String,
    pub kind: InteractionType,
    pub token: String,
    pub guild_id: Option<String>,
    pub channel_id: Option<String>,
    pub member: Option<Member>,
    pub user: Option<User>,
    pub data: Option<ApplicationCommandData>,
}

/// The acting user: the guild member's user when there is one, else the direct user.
pub open spec fn actor_spec(i: Interaction) -> Option<Seq<char>> {
    match i.member {
        Some(m) => Some(m.user.id@),
        None => match i.user {
            Some(u) => Some(u.id@),
            None => None,
        },
    }
}

impl Interaction {
    pub fn actor_user_id(&self) -> (r: Option<&str>)
        ensures
            match actor_spec(*self) {
                Some(id) => r matches Some(x) && x@ == id,
                None => r is None,
            },
    {
        match &self.member {
            Some(member) => Some(member.user.id.as_str()),
            None => match &self.user {
                Some(user) => Some(user.id.as_str()),
                None => None,
            },
        }
    }
}

} // verus!
