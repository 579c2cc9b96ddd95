//! Rules of the HTTP entry points.

use vstd::prelude::*;
use crate::text::{trim, trim_str};

verus! {

/// The query of a websocket join request: `/ws?name=...`.
#[derive(Debug)]
pub struct JoinQuery {
    pub name: String,
}

pub open spec fn msg_name_parameter_required() -> Seq<char> {
    "name query parameter is required"@
}

/// A join request is refused before the websocket upgrade when its name is
/// blank.
pub fn check_join_query(join: &JoinQuery) -> (r: Result<(), String>)
    ensures
        match r {
            Ok(()) => trim(join.name@).len() > 0,
            Err(e) => trim(join.name@).len() == 0 && e@ == msg_name_parameter_required(),
        },
{
    let trimmed = trim_str(join.name.as_str());
    if trimmed.as_str().is_empty() {
        return Err("name query parameter is required".to_owned());
    }
    Ok(())
}

} // verus!
