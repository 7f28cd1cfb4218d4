//! The endpoints' answers: a status code and a JSON envelope for each
//! outcome of the endpoint's statement. Every database error becomes a
//! `500` that carries the driver's text; nothing here fails otherwise.

use vstd::prelude::*;
use vstd::string::StringExecFns;
use crate::task::{TaskRow, CreateTaskRow, DbError, rows_view};
use crate::json::{rows_json, success_json, failure_json, json_int, success_text, failure_text, rows_text, id_text};

verus! {

pub const STATUS_OK: u16 = 200;
pub const STATUS_INTERNAL_SERVER_ERROR: u16 = 500;

/// An answer: status code and body.
pub type Reply = (u16, String);

/// What every endpoint answers on a database error: `500` with the error's
/// text in the failure envelope.
pub open spec fn is_failure_reply(r: Result<Reply, Reply>, e: DbError) -> bool {
    r matches Err((status, body)) && status == STATUS_INTERNAL_SERVER_ERROR && body@ == failure_text(e.message@)
}

/// A `200` whose body is the success envelope around `data`.
pub open spec fn is_success_reply(r: Result<Reply, Reply>, data: Option<Seq<char>>) -> bool {
    r matches Ok((status, body)) && status == STATUS_OK && body@ == success_text(data)
}

fn failure_reply(e: DbError) -> (r: Result<Reply, Reply>)
    ensures
        is_failure_reply(r, e),
{
    Err((STATUS_INTERNAL_SERVER_ERROR, failure_json(e.message.as_str())))
}

/// `GET /tasks`: the rows read, as the data of a success envelope.
pub fn get_tasks(outcome: Result<Vec<TaskRow>, DbError>) -> (r: Result<Reply, Reply>)
    ensures
        match outcome {
            Ok(rows) => is_success_reply(r, Some(rows_text(rows_view(rows@)))),
            Err(e) => is_failure_reply(r, e),
        },
{
    match outcome {
        Ok(rows) => {
            let data = rows_json(&rows);
            Ok((STATUS_OK, success_json(Some(data.as_str()))))
        },
        Err(e) => failure_reply(e),
    }
}

/// `POST /tasks`: the generated id, as `{"id":..}` in a success envelope.
pub fn create_task(outcome: Result<CreateTaskRow, DbError>) -> (r: Result<Reply, Reply>)
    ensures
        match outcome {
            Ok(row) => is_success_reply(r, Some(id_text(row.id as int))),
            Err(e) => is_failure_reply(r, e),
        },
{
    match outcome {
        Ok(row) => {
            let mut data = String::from_str("{\"id\":");
            data.append(json_int(row.id).as_str());
            data.append("}");
            Ok((STATUS_OK, success_json(Some(data.as_str()))))
        },
        Err(e) => failure_reply(e),
    }
}

/// `PUT /tasks/:id`: a bare success envelope whether or not a row matched.
pub fn update_task(outcome: Result<(), DbError>) -> (r: Result<Reply, Reply>)
    ensures
        match outcome {
            Ok(_) => is_success_reply(r, None),
            Err(e) => is_failure_reply(r, e),
        },
{
    match outcome {
        Ok(_) => Ok((STATUS_OK, success_json(None))),
        Err(e) => failure_reply(e),
    }
}

/// `DELETE /tasks/:id`: a bare success envelope whether or not a row matched.
pub fn delete_task(outcome: Result<(), DbError>) -> (r: Result<Reply, Reply>)
    ensures
        match outcome {
            Ok(_) => is_success_reply(r, None),
            Err(e) => is_failure_reply(r, e),
        },
{
    match outcome {
        Ok(_) => Ok((STATUS_OK, success_json(None))),
        Err(e) => failure_reply(e),
    }
}

} // verus!
