//! `GET /api/ping`: tells that the server is there.

use crate::api_manager::PlainResponse;
use vstd::prelude::*;

verus! {

pub const METHODS: &'static str = "GET";

pub const PATH: &'static str = "/api/ping";

pub fn handler() -> (r: PlainResponse)
    ensures
        r.status == 200,
        r.body@ == "Pong!"@,
{
    PlainResponse { status: 200, body: "Pong!" }
}

} // verus!
