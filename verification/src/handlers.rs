//! The five endpoints. Each takes the outcome of the one statement that it
//! had executed against the store and decides the response.
//!
//! Only the lookup of a single user tells a missing row from other failures.
//! Every other endpoint answers any failure with an internal server error,
//! and an update or a deletion that touched no row is such a failure.

use crate::error::{api_error_json, ApiError, StoreError};
use crate::models::{list_json, users_to_json, User};
use crate::response::{Response, ResponseView, Status};
use vstd::prelude::*;

verus! {

/// The response that reports a failure under `status`: the envelope of the
/// store's `description` and of `message`, the sentence that says which
/// operation failed.
pub open spec fn failure(status: Status, description: Seq<char>, message: Seq<char>) -> ResponseView {
    ResponseView { status, body: api_error_json(description, message) }
}

/// The response to a write that was carried out: no body.
pub open spec fn done() -> ResponseView {
    ResponseView { status: Status::Success, body: Seq::empty() }
}

/// The response to a request for all users.
pub open spec fn get_users_response(outcome: Result<Vec<User>, StoreError>) -> ResponseView {
    match outcome {
        Ok(users) => ResponseView { status: Status::Success, body: list_json(users@) },
        Err(error) => failure(
            Status::InternalServerError,
            error.description(),
            "Error listing users"@,
        ),
    }
}

/// The response to a request for one user.
pub open spec fn get_user_response(outcome: Result<User, StoreError>) -> ResponseView {
    match outcome {
        Ok(user) => ResponseView { status: Status::Success, body: user@.json() },
        Err(error) => failure(
            if error.not_found() {
                Status::NotFound
            } else {
                Status::InternalServerError
            },
            error.description(),
            "Error listing user"@,
        ),
    }
}

/// The response to a request that creates a user.
pub open spec fn create_user_response(outcome: Result<usize, StoreError>) -> ResponseView {
    match outcome {
        Ok(_) => done(),
        Err(error) => failure(
            Status::InternalServerError,
            error.description(),
            "Error creating user"@,
        ),
    }
}

/// The response to a write by id, given the number of rows that the
/// statement touched or the store's failure. A statement that touched no row
/// found none with that id: it is answered as a failure, with `missing`, the
/// store's description of a row that is not there.
pub open spec fn write_by_id_response(
    outcome: Result<usize, StoreError>,
    missing: Seq<char>,
    message: Seq<char>,
) -> ResponseView {
    match outcome {
        Ok(rows) => if rows > 0 {
            done()
        } else {
            failure(Status::InternalServerError, missing, message)
        },
        Err(error) => failure(Status::InternalServerError, error.description(), message),
    }
}

/// The response to a request that deletes a user.
pub open spec fn delete_user_response(
    outcome: Result<usize, StoreError>,
    missing: Seq<char>,
) -> ResponseView {
    write_by_id_response(outcome, missing, "Error deleting user"@)
}

/// The response to a request that replaces a user's fields.
pub open spec fn update_user_response(
    outcome: Result<usize, StoreError>,
    missing: Seq<char>,
) -> ResponseView {
    write_by_id_response(outcome, missing, "Error updating user"@)
}

fn fail(status: Status, description: String, message: &str) -> (response: Response)
    ensures
        response@ == failure(status, description@, message@),
{
    let envelope: ApiError = ApiError::new(description, message.to_owned());
    Response { status, body: envelope.to_json() }
}

fn succeed() -> (response: Response)
    ensures
        response@ == done(),
{
    Response { status: Status::Success, body: String::new() }
}

fn write_by_id(outcome: Result<usize, StoreError>, missing: &str, message: &str) -> (response:
    Response)
    ensures
        response@ == write_by_id_response(outcome, missing@, message@),
{
    match outcome {
        Ok(rows) => {
            if rows > 0 {
                succeed()
            } else {
                fail(Status::InternalServerError, missing.to_owned(), message)
            }
        },
        Err(error) => fail(Status::InternalServerError, error.into_description(), message),
    }
}

/// Answers a request for all users, given what the store returned for the
/// selection of every row: the rows as a JSON array in the store's order, or
/// the failure as an internal server error.
pub fn get_users(outcome: Result<Vec<User>, StoreError>) -> (response: Response)
    ensures
        response@ == get_users_response(outcome),
        response.status == Status::Success <==> outcome is Ok,
        response.status != Status::NotFound,
{
    match outcome {
        Ok(users) => Response { status: Status::Success, body: users_to_json(&users) },
        Err(error) => fail(
            Status::InternalServerError,
            error.into_description(),
            "Error listing users",
        ),
    }
}

/// Answers a request for one user, given what the store returned for the
/// selection by id: the row as a JSON object; not found, where the store
/// found no row; an internal server error for any other failure.
pub fn get_user(outcome: Result<User, StoreError>) -> (response: Response)
    ensures
        response@ == get_user_response(outcome),
        response.status == Status::Success <==> outcome is Ok,
        response.status == Status::NotFound <==> outcome is Err && outcome->Err_0.not_found(),
{
    match outcome {
        Ok(user) => Response { status: Status::Success, body: user.to_json() },
        Err(error) => {
            let status: Status = if error.is_not_found() {
                Status::NotFound
            } else {
                Status::InternalServerError
            };
            fail(status, error.into_description(), "Error listing user")
        },
    }
}

/// Answers a request that creates a user, given what the store returned for
/// the insertion. The response to a success has no body: it does not tell
/// the id that the store assigned.
pub fn create_user(outcome: Result<usize, StoreError>) -> (response: Response)
    ensures
        response@ == create_user_response(outcome),
        response.status == Status::Success <==> outcome is Ok,
        response.status != Status::NotFound,
{
    match outcome {
        Ok(_) => succeed(),
        Err(error) => fail(
            Status::InternalServerError,
            error.into_description(),
            "Error creating user",
        ),
    }
}

/// Answers a request that deletes a user, given what the store returned for
/// the deletion by id: the number of rows that it removed, or a failure.
/// Where no row had the id the store removes none, and the answer is an
/// internal server error whose envelope carries `missing`, the store's
/// description of a row that is not there. Every failure is an internal
/// server error; none is answered with not found.
pub fn delete_user(outcome: Result<usize, StoreError>, missing: &str) -> (response: Response)
    ensures
        response@ == delete_user_response(outcome, missing@),
        response.status == Status::Success <==> outcome is Ok && outcome->Ok_0 > 0,
        response.status == Status::InternalServerError <==> !(outcome is Ok && outcome->Ok_0 > 0),
        outcome is Ok && outcome->Ok_0 == 0 ==> response.body@ == api_error_json(
            missing@,
            "Error deleting user"@,
        ),
{
    write_by_id(outcome, missing, "Error deleting user")
}

/// Answers a request that replaces a user's name and username, given what
/// the store returned for the update by id: the number of rows that it
/// changed, or a failure. Where no row had the id the store changes none,
/// and the answer is an internal server error whose envelope carries
/// `missing`, the store's description of a row that is not there. Every
/// failure is an internal server error; none is answered with not found.
pub fn update_user(outcome: Result<usize, StoreError>, missing: &str) -> (response: Response)
    ensures
        response@ == update_user_response(outcome, missing@),
        response.status == Status::Success <==> outcome is Ok && outcome->Ok_0 > 0,
        response.status == Status::InternalServerError <==> !(outcome is Ok && outcome->Ok_0 > 0),
        outcome is Ok && outcome->Ok_0 == 0 ==> response.body@ == api_error_json(
            missing@,
            "Error updating user"@,
        ),
{
    write_by_id(outcome, missing, "Error updating user")
}

/// A lookup of a row that the store does not hold is answered with status
/// 404, and its body is the error envelope of the store's description.
pub proof fn missing_user_is_not_found(error: StoreError)
    requires
        error.not_found(),
    ensures
        get_user_response(Err(error)).status.code_value() == 404,
        get_user_response(Err(error)).body == api_error_json(
            error.description(),
            "Error listing user"@,
        ),
{
}

/// An update or a deletion by an id that no row has is answered with status
/// 500 and the error envelope of the store's description of a missing row,
/// whether the store reports a failure of that kind or that it touched no
/// row.
pub proof fn write_to_missing_row_is_an_internal_error(error: StoreError, missing: Seq<char>)
    requires
        error.not_found(),
    ensures
        update_user_response(Ok(0), missing) == failure(
            Status::InternalServerError,
            missing,
            "Error updating user"@,
        ),
        delete_user_response(Ok(0), missing) == failure(
            Status::InternalServerError,
            missing,
            "Error deleting user"@,
        ),
        update_user_response(Err(error), missing) == failure(
            Status::InternalServerError,
            error.description(),
            "Error updating user"@,
        ),
        delete_user_response(Err(error), missing) == failure(
            Status::InternalServerError,
            error.description(),
            "Error deleting user"@,
        ),
        update_user_response(Ok(0), missing).status.code_value() == 500,
        delete_user_response(Ok(0), missing).status.code_value() == 500,
        update_user_response(Err(error), missing).status.code_value() == 500,
        delete_user_response(Err(error), missing).status.code_value() == 500,
{
}

/// Only the lookup of one user answers a missing row with 404. For every
/// failure, a missing row too, the other four endpoints answer 500, and so
/// do an update and a deletion that touched no row. The lookup answers 500
/// unless the failure is a missing row.
pub proof fn only_lookup_tells_missing_rows(error: StoreError, missing: Seq<char>)
    ensures
        update_user_response(Err(error), missing).status.code_value() == 500,
        update_user_response(Ok(0), missing).status.code_value() == 500,
        delete_user_response(Err(error), missing).status.code_value() == 500,
        delete_user_response(Ok(0), missing).status.code_value() == 500,
        create_user_response(Err(error)).status.code_value() == 500,
        get_users_response(Err(error)).status.code_value() == 500,
        get_user_response(Err(error)).status.code_value() == (if error.not_found() {
            404int
        } else {
            500int
        }),
{
}

} // verus!
