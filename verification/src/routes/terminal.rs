//! `POST /api/terminal`: sends a command to the firmware. Only a connected
//! bridge takes one.

use crate::api_manager::{bad_request_response, forbidden_response, PlainResponse};
use crate::models::{
    BridgeEvents, BridgeEventsView, BridgeState, EventInfo, EventType, EventTypeView,
};
use crate::outside::{fresh_id, json_member, json_text_member};
use crate::text::copy_bytes;
use uuid::Uuid;
use vstd::prelude::*;
use vstd::string::*;

verus! {

pub const METHODS: &'static str = "POST";

pub const PATH: &'static str = "/api/terminal";

/// What a request is answered: forbidden unless the bridge is connected; a
/// bad request without a message; else the event that sends the message
/// under the identifier `id`.
pub open spec fn answer(state: BridgeState, message: Option<Seq<u8>>, id: Uuid) -> Result<
    EventTypeView,
    u16,
> {
    if state != BridgeState::Connected {
        Err(403)
    } else {
        match message {
            None => Err(400),
            Some(message) => Ok(
                EventTypeView::Bridge(BridgeEventsView::TerminalSend { message, id }),
            ),
        }
    }
}

/// The bytes of the member `key` of a request's body.
pub open spec fn member_bytes(body: Seq<char>, key: Seq<char>) -> Option<Seq<u8>> {
    match json_text_member(body, key) {
        Some(text) => Some(vstd::utf8::encode_utf8(text)),
        None => None,
    }
}

/// Decides on a request to send `message` under the identifier `id`.
pub fn decide(state: BridgeState, message: Option<&[u8]>, id: Uuid) -> (r: Result<
    EventInfo,
    PlainResponse,
>)
    ensures
        match r {
            Ok(event) => Ok::<EventTypeView, u16>(event@),
            Err(reply) => Err(reply.status),
        } == answer(
            state,
            match message {
                Some(message) => Some(message@),
                None => None,
            },
            id,
        ),
        r is Err ==> r->Err_0.standard(),
{
    if state != BridgeState::Connected {
        return Err(forbidden_response());
    }
    match message {
        None => Err(bad_request_response()),
        Some(message) => Ok(
            EventInfo {
                event_type: EventType::Bridge(
                    BridgeEvents::TerminalSend { message: copy_bytes(message), id },
                ),
            },
        ),
    }
}

/// Decides on a request whose body is `body`: the message is its member
/// `message`, and it is sent under a fresh identifier.
pub fn handler(body: &str, state: BridgeState) -> (r: Result<EventInfo, PlainResponse>)
    ensures
        exists|id: Uuid|
            match r {
                Ok(event) => Ok::<EventTypeView, u16>(event@),
                Err(reply) => Err(reply.status),
            } == #[trigger] answer(state, member_bytes(body@, "message"@), id),
        r is Err ==> r->Err_0.standard(),
{
    let id = fresh_id();
    let r = if state != BridgeState::Connected {
        decide(state, None, id)
    } else {
        match json_member(body, "message") {
            Some(message) => decide(state, Some(message.as_str().as_bytes()), id),
            None => decide(state, None, id),
        }
    };
    assert(match r {
        Ok(event) => Ok::<EventTypeView, u16>(event@),
        Err(reply) => Err(reply.status),
    } == answer(state, member_bytes(body@, "message"@), id));
    r
}

} // verus!
