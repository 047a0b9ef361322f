//! `PUT /api/print`: starts the print of a file. Only a connected bridge
//! takes one.

use crate::api_manager::{bad_request_response, forbidden_response, PlainResponse};
use crate::models::{
    BridgeEvents, BridgeEventsView, BridgeState, EventInfo, EventType, EventTypeView,
};
use crate::outside::json_member;
use crate::routes::terminal::member_bytes;
use crate::print_info::{loaded, PrintInfo};
use crate::routes::list_files::is_gcode_file;
use crate::text::{trim, trimmed, views};
use vstd::prelude::*;
use vstd::string::*;

verus! {

pub const METHODS: &'static str = "PUT";

pub const PATH: &'static str = "/api/print";

/// What a request for a file is answered: a bad request without a name, or
/// if the name without the white space around it is no name of a G-code
/// file; forbidden unless the bridge is connected; else the name of the file
/// to print.
pub open spec fn answer(name: Option<Seq<u8>>, state: BridgeState) -> Result<Seq<u8>, u16> {
    match name {
        None => Err(400),
        Some(name) => if !is_gcode_file(trimmed(name)) {
            Err(400)
        } else if state != BridgeState::Connected {
            Err(403)
        } else {
            Ok(trimmed(name))
        },
    }
}

/// Decides on a request for the file `name`.
pub fn decide(name: Option<&[u8]>, state: BridgeState) -> (r: Result<Vec<u8>, PlainResponse>)
    ensures
        match r {
            Ok(file) => Ok::<Seq<u8>, u16>(file@),
            Err(reply) => Err(reply.status),
        } == answer(
            match name {
                Some(name) => Some(name@),
                None => None,
            },
            state,
        ),
        r is Err ==> r->Err_0.standard(),
{
    let name = match name {
        Some(name) => name,
        None => {
            return Err(bad_request_response());
        },
    };
    let file = trim(name);
    if !crate::routes::list_files::handler(file.as_slice()) {
        return Err(bad_request_response());
    }
    if state != BridgeState::Connected {
        return Err(forbidden_response());
    }
    Ok(file)
}

/// Decides on a request whose body is `body`: the file is named by the
/// member `printName`.
pub fn handler(body: &str, state: BridgeState) -> (r: Result<Vec<u8>, PlainResponse>)
    ensures
        match r {
            Ok(file) => Ok::<Seq<u8>, u16>(file@),
            Err(reply) => Err(reply.status),
        } == answer(member_bytes(body@, "printName"@), state),
        r is Err ==> r->Err_0.standard(),
{
    match json_member(body, "printName") {
        Some(name) => decide(Some(name.as_str().as_bytes()), state),
        None => decide(None, state),
    }
}

/// The event that starts the print of a file that was read at `start`.
pub fn print_start(filename: Vec<u8>, raw_lines: &Vec<Vec<u8>>, start: i64) -> (r: EventInfo)
    ensures
        r@ == EventTypeView::Bridge(
            BridgeEventsView::PrintStart { info: loaded(filename@, views(raw_lines@), start) },
        ),
{
    EventInfo {
        event_type: EventType::Bridge(
            BridgeEvents::PrintStart { info: PrintInfo::new(filename, raw_lines, start) },
        ),
    }
}

} // verus!
