//! `DELETE /api/connection`: ends the serial session, if there is one.

use crate::api_manager::PlainResponse;
use crate::manager::is_down;
use crate::models::{
    BridgeEvents, BridgeEventsView, BridgeState, EventInfo, EventType, EventTypeView,
    StateDescription, StateDescriptionView,
};
use vstd::prelude::*;

verus! {

pub const METHODS: &'static str = "PUT, DELETE, POST";

pub const PATH: &'static str = "/api/connection";

/// The body of the reply to a request that finds no session.
pub const NOT_CONNECTED: &'static str = "{\"error\":true,\"message\":\"Not connected\"}";

/// The event that puts the state to disconnected.
pub open spec fn disconnect() -> EventTypeView {
    EventTypeView::Bridge(
        BridgeEventsView::StateUpdate {
            state: BridgeState::Disconnected,
            description: StateDescriptionView::Empty,
        },
    )
}

pub fn handler(state: BridgeState) -> (r: Result<EventInfo, PlainResponse>)
    ensures
        !is_down(state) ==> r is Ok && r->Ok_0@ == disconnect(),
        is_down(state) ==> r is Err && r->Err_0.status == 403 && r->Err_0.body@ == NOT_CONNECTED@,
{
    if state == BridgeState::Disconnected || state == BridgeState::Errored {
        return Err(PlainResponse { status: 403, body: NOT_CONNECTED });
    }
    Ok(
        EventInfo {
            event_type: EventType::Bridge(
                BridgeEvents::StateUpdate {
                    state: BridgeState::Disconnected,
                    description: StateDescription::Empty,
                },
            ),
        },
    )
}

} // verus!
