//! `POST /api/connection`: ends the serial session and opens a new one.

use crate::api_manager::PlainResponse;
use crate::manager::is_down;
use crate::models::{BridgeState, EventInfo, EventTypeView};
use crate::routes::create_connection::{connect, connection_event};
use crate::routes::disconnect_connection::{disconnect, NOT_CONNECTED};
use crate::settings::SettingRow;
use vstd::prelude::*;

verus! {

pub const METHODS: &'static str = "PUT, DELETE, POST";

pub const PATH: &'static str = "/api/connection";

/// The milliseconds between the end of the old session and the new one.
pub const PAUSE: u64 = 100;

/// The first half: the event that ends the session, if there is one.
pub fn handler(state: BridgeState) -> (r: Result<EventInfo, PlainResponse>)
    ensures
        !is_down(state) ==> r is Ok && r->Ok_0@ == disconnect(),
        is_down(state) ==> r is Err && r->Err_0.status == 403 && r->Err_0.body@ == NOT_CONNECTED@,
{
    crate::routes::disconnect_connection::handler(state)
}

/// The second half, after the pause: the event that asks for the
/// connection that the settings describe.
pub fn connect_again(rows: Option<&Vec<SettingRow>>) -> (r: Result<EventInfo, PlainResponse>)
    ensures
        match r {
            Ok(event) => Ok::<EventTypeView, u16>(event@),
            Err(reply) => Err(reply.status),
        } == connect(
            match rows {
                Some(rows) => Some(rows.deep_view()),
                None => None,
            },
        ),
        r is Err ==> r->Err_0.standard(),
{
    connection_event(rows)
}

} // verus!
