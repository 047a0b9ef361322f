//! `GET /api/files`: lists the G-code files.

use crate::text::{lit, matches_at, occurs_at};
use vstd::prelude::*;

verus! {

pub const METHODS: &'static str = "GET, POST";

pub const PATH: &'static str = "/api/files";

/// A name that ends with `.gcode`.
pub open spec fn is_gcode_file(name: Seq<u8>) -> bool {
    name.len() >= lit(".gcode").len() && occurs_at(
        name,
        lit(".gcode"),
        name.len() - lit(".gcode").len(),
    )
}

/// Whether a file of that name is listed.
pub fn handler(name: &[u8]) -> (r: bool)
    ensures
        r == is_gcode_file(name@),
{
    let suffix = ".gcode".as_bytes();
    if name.len() < suffix.len() {
        return false;
    }
    matches_at(name, suffix, name.len() - suffix.len())
}

} // verus!
