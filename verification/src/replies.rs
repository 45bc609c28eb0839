//! What the tool reads out of the dataset replies. Where a reply lacks what
//! is read, the result is `None`: the reply is malformed and the upload
//! cannot go on.
use vstd::prelude::*;
use crate::schemas::{PostCriaModuloSchema, reply_cell, reply_rows};

verus! {

/// The code of the jar that a jar search found: the second cell of the first
/// row; `Err` with an empty text when the search found no row. `None` when
/// the reply has no body, or its first row has fewer than two cells.
pub fn existing_jar(reply: &PostCriaModuloSchema) -> (r: Option<Result<String, String>>)
    ensures
        reply.response_body is None ==> r is None,
        reply.response_body is Some && reply_rows(*reply) == 0 ==> (r matches Some(Err(e)) && e@.len() == 0),
        reply_rows(*reply) > 0 ==> match reply_cell(*reply, 0, 1) {
            Some(c) => r matches Some(Ok(code)) && code@ == c,
            None => r is None,
        },
{
    match &reply.response_body {
        None => None,
        Some(body) => {
            if body.result.len() == 0 {
                Some(Err(String::new()))
            } else if body.result[0].len() < 2 {
                None
            } else {
                Some(Ok(body.result[0][1].clone()))
            }
        },
    }
}

/// The identifier of a module just created: the first cell of the first row
/// of the save reply; `None` where the reply has no such cell.
pub fn created_module_id(reply: &PostCriaModuloSchema) -> (r: Option<String>)
    ensures
        match reply_cell(*reply, 0, 0) {
            Some(c) => r matches Some(id) && id@ == c,
            None => r is None,
        },
{
    match &reply.response_body {
        None => None,
        Some(body) => {
            if body.result.len() == 0 || body.result[0].len() == 0 {
                None
            } else {
                Some(body.result[0][0].clone())
            }
        },
    }
}

/// Whether a save reply reports a problem (it carries a status message), in
/// which case the module is looked up among the existing ones.
pub fn reports_status(reply: &PostCriaModuloSchema) -> (r: bool)
    ensures
        r == reply.status_message is Some,
{
    reply.status_message.is_some()
}

} // verus!
