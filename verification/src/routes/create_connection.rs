//! `PUT /api/connection`: opens a serial session to the port that the
//! settings describe. Only where no session is.

use crate::api_manager::{bad_request_response, forbidden_response, PlainResponse};
use crate::manager::is_down;
use crate::models::{
    BridgeEvents, BridgeEventsView, BridgeState, EventInfo, EventType, EventTypeView,
    StateWrapper,
};
use crate::settings::{connection_info, connection_of, SettingRow, SettingRowView};
use vstd::prelude::*;

verus! {

pub const METHODS: &'static str = "PUT, DELETE, POST";

pub const PATH: &'static str = "/api/connection";

/// What the request is answered: forbidden while a session is there; a bad
/// request if the settings could not be read or describe no port; else the
/// event that asks for the connection.
pub open spec fn answer(state: BridgeState, rows: Option<Seq<SettingRowView>>) -> Result<
    EventTypeView,
    u16,
> {
    if !is_down(state) {
        Err(403)
    } else {
        connect(rows)
    }
}

/// The event that asks for the connection that the settings describe.
pub open spec fn connect(rows: Option<Seq<SettingRowView>>) -> Result<EventTypeView, u16> {
    match rows {
        None => Err(400),
        Some(rows) => match connection_of(rows) {
            None => Err(400),
            Some(info) => Ok(
                EventTypeView::Bridge(
                    BridgeEventsView::ConnectionCreate { address: info.address, port: info.port },
                ),
            ),
        },
    }
}

/// Whether a request may go on to read the settings: the reply that turns
/// it down, if not.
pub fn precheck(state_info: &StateWrapper) -> (r: Option<PlainResponse>)
    ensures
        is_down(state_info@.state) <==> r is None,
        r is Some ==> r.unwrap().status == 403 && r.unwrap().standard(),
{
    if !(state_info.state == BridgeState::Disconnected || state_info.state
        == BridgeState::Errored) {
        return Some(forbidden_response());
    }
    None
}

/// The event that asks for the connection that the settings describe;
/// `rows` is none if the settings could not be read.
pub fn connection_event(rows: Option<&Vec<SettingRow>>) -> (r: Result<EventInfo, PlainResponse>)
    ensures
        match r {
            Ok(event) => Ok::<EventTypeView, u16>(event@),
            Err(reply) => Err(reply.status),
        } == connect(
            match rows {
                Some(rows) => Some(rows.deep_view()),
                None => None,
            },
        ),
        r is Err ==> r->Err_0.standard(),
{
    let rows = match rows {
        Some(rows) => rows,
        None => {
            return Err(bad_request_response());
        },
    };
    match connection_info(rows) {
        Some(info) => Ok(
            EventInfo {
                event_type: EventType::Bridge(
                    BridgeEvents::ConnectionCreate { address: info.address, port: info.port },
                ),
            },
        ),
        None => Err(bad_request_response()),
    }
}

pub fn handler(state_info: &StateWrapper, rows: Option<&Vec<SettingRow>>) -> (r: Result<
    EventInfo,
    PlainResponse,
>)
    ensures
        match r {
            Ok(event) => Ok::<EventTypeView, u16>(event@),
            Err(reply) => Err(reply.status),
        } == answer(
            state_info@.state,
            match rows {
                Some(rows) => Some(rows.deep_view()),
                None => None,
            },
        ),
        r is Err ==> r->Err_0.standard(),
{
    match precheck(state_info) {
        Some(reply) => Err(reply),
        None => connection_event(rows),
    }
}

} // verus!
