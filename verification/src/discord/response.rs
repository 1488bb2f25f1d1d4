//! Interaction responses.
use vstd::prelude::*;

verus! {

/// The message flag that shows a reply only to the invoking user.
pub const EPHEMERAL_FLAG: u64 = 64;

#[derive(Debug, Clone)]
pub struct InteractionResponse {
    pub kind: u8,
    pub data: Option<InteractionResponseData>,
}

#[derive(Debug, Clone)]
pub struct InteractionResponseData {
    pub content: Option<String>,
    pub flags: Option<u64>,
}

/// The answer to Discord's ping (type 1).
pub fn pong_response() -> (r: InteractionResponse)
    ensures
        r.kind == 1,
        r.data is None,
{
    InteractionResponse { kind: 1, data: None }
}

/// A deferred channel message (type 5), ephemeral when asked.
pub fn deferred_response(ephemeral: bool) -> (r: InteractionResponse)
    ensures
        r.kind == 5,
        r.data matches Some(d) && d.content is None && d.flags == (if ephemeral {
            Some(EPHEMERAL_FLAG)
        } else {
            None
        }),
{
    InteractionResponse {
        kind: 5,
        data: Some(
            InteractionResponseData {
                content: None,
                flags: if ephemeral {
                    Some(EPHEMERAL_FLAG)
                } else {
                    None
                },
            },
        ),
    }
}

/// A deferred update of the message a component sits on (type 6).
pub fn deferred_update_response() -> (r: InteractionResponse)
    ensures
        r.kind == 6,
        r.data is None,
{
    InteractionResponse { kind: 6, data: None }
}

/// A channel message with `content` (type 4), ephemeral when asked.
pub fn message_response(content: String, ephemeral: bool) -> (r: InteractionResponse)
    ensures
        r.kind == 4,
        r.data matches Some(d) && d.content == Some(content) && d.flags == (if ephemeral {
            Some(EPHEMERAL_FLAG)
        } else {
            None
        }),
{
    InteractionResponse {
        kind: 4,
        data: Some(
            InteractionResponseData {
                content: Some(content),
                flags: if ephemeral {
                    Some(EPHEMERAL_FLAG)
                } else {
                    None
                },
            },
        ),
    }
}

} // verus!
