//! `DELETE /api/print`: ends the print. Only a printing bridge has one.

use crate::api_manager::{forbidden_response, PlainResponse};
use crate::models::{BridgeEvents, BridgeEventsView, BridgeState, EventInfo, EventType,
    EventTypeView, StateWrapper};
use vstd::prelude::*;

verus! {

pub const METHODS: &'static str = "DELETE";

pub const PATH: &'static str = "/api/print";

pub fn handler(state_info: &StateWrapper) -> (r: Result<EventInfo, PlainResponse>)
    ensures
        state_info@.state == BridgeState::Printing ==> r is Ok && r->Ok_0@ == EventTypeView::Bridge(
            BridgeEventsView::PrintEnd,
        ),
        state_info@.state != BridgeState::Printing ==> r is Err && r->Err_0.status == 403
            && r->Err_0.standard(),
{
    if state_info.state != BridgeState::Printing {
        return Err(forbidden_response());
    }
    Ok(EventInfo { event_type: EventType::Bridge(BridgeEvents::PrintEnd) })
}

} // verus!
