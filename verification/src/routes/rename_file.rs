//! `POST /api/files/rename`: renames a G-code file. Not the file that is
//! printed.

use crate::api_manager::{bad_request_response, forbidden_response, PlainResponse};
use crate::models::{StateDescription, StateDescriptionView};
use crate::routes::list_files::is_gcode_file;
use crate::text::{lit, same_bytes};
use vstd::prelude::*;

verus! {

pub const METHODS: &'static str = "POST";

pub const PATH: &'static str = "/api/files/rename";

/// A byte that a file's name must not hold before its ending: a backslash,
/// a slash or a dot.
pub open spec fn is_barred(b: u8) -> bool {
    b == 92 || b == 47 || b == 46
}

/// The name of a G-code file: it ends with `.gcode`, and before that it
/// holds no backslash, no slash and no dot.
pub open spec fn is_gcode_name(name: Seq<u8>) -> bool {
    is_gcode_file(name) && forall|i: int|
        0 <= i < name.len() - lit(".gcode").len() ==> !is_barred(#[trigger] name[i])
}

/// The file that is printed, if one is.
pub open spec fn printed(description: StateDescriptionView) -> Option<Seq<u8>> {
    match description {
        StateDescriptionView::Print { filename, .. } => Some(filename),
        _ => None,
    }
}

/// Whether `name` can be the name of a G-code file.
pub fn valid_name(name: &[u8]) -> (r: bool)
    ensures
        r == is_gcode_name(name@),
{
    if !crate::routes::list_files::handler(name) {
        return false;
    }
    let stem = name.len() - ".gcode".as_bytes().len();
    let mut i: usize = 0;
    while i < stem
        invariant
            i <= stem <= name.len(),
            stem == name.len() - lit(".gcode").len(),
            forall|k: int| 0 <= k < i ==> !is_barred(#[trigger] name@[k]),
        decreases stem - i,
    {
        let b = name[i];
        if b == 92 || b == 47 || b == 46 {
            return false;
        }
        i = i + 1;
    }
    true
}

/// Whether a file may be renamed: forbidden if either name is that of the
/// file that is printed; a bad request if either name is none of a G-code
/// file.
pub fn handler(new_name: &[u8], old_name: &[u8], description: &StateDescription) -> (r: Result<
    (),
    PlainResponse,
>)
    ensures
        match r {
            Ok(_) => {
                &&& printed(description@) != Some(new_name@)
                &&& printed(description@) != Some(old_name@)
                &&& is_gcode_name(new_name@)
                &&& is_gcode_name(old_name@)
            },
            Err(reply) => reply.standard() && if printed(description@) == Some(new_name@)
                || printed(description@) == Some(old_name@) {
                reply.status == 403
            } else {
                reply.status == 400 && !(is_gcode_name(new_name@) && is_gcode_name(old_name@))
            },
        },
{
    match description {
        StateDescription::Print { filename, .. } => {
            if same_bytes(filename.as_slice(), new_name) || same_bytes(
                filename.as_slice(),
                old_name,
            ) {
                return Err(forbidden_response());
            }
        },
        _ => {},
    }
    if !valid_name(new_name) || !valid_name(old_name) {
        return Err(bad_request_response());
    }
    Ok(())
}

} // verus!
