//! The four request handlers. Each takes the connection that the pool
//! gave, or `None` where it gave none, performs one repository operation
//! and maps its outcome to a response or a failure.

use crate::error::{ErrorView, UserError};
use crate::models::{LoginRequest, NewUserRequest, ResponseView, UserResponse};
use crate::store::{lemma_row_of, response_view, response_views, InsertError, UserTable};
use vstd::prelude::*;

verus! {

/// The message of a create request whose row cannot be read back.
pub open spec fn insert_failed_text() -> Seq<char> {
    "insert failed"@
}

/// The one message of every refused login.
pub open spec fn login_refused_text() -> Seq<char> {
    "Invalid username and/or password"@
}

/// The HTTP status of a handler's answer: 200 for every success, an
/// absent account included, and the failure's own status otherwise.
pub open spec fn status_of<T>(res: Result<T, UserError>) -> int {
    match res {
        Ok(_) => 200,
        Err(e) => e.status(),
    }
}

/// The view of a handler's answer that carries one account.
pub open spec fn answer_view(res: Result<UserResponse, UserError>) -> Result<
    ResponseView,
    ErrorView,
> {
    match res {
        Ok(user) => Ok(user@),
        Err(e) => Err(e@),
    }
}

/// What a create request is answered with, given the outcome of the
/// insert, its failure as text, and what reading the row back gave.
pub open spec fn created_answer(inserted: Result<(), Seq<char>>, found: Option<ResponseView>) -> Result<
    ResponseView,
    ErrorView,
> {
    match inserted {
        Ok(()) => match found {
            Some(user) => Ok(user),
            None => Err(ErrorView::BadRequest { msg: insert_failed_text() }),
        },
        Err(text) => Err(ErrorView::BadRequest { msg: text }),
    }
}

/// What a login request is answered with, given what the repository found.
pub open spec fn login_answer(found: Option<ResponseView>) -> Result<ResponseView, ErrorView> {
    match found {
        Some(user) => Ok(user),
        None => Err(ErrorView::Forbidden { msg: login_refused_text() }),
    }
}

/// The view of an insert's outcome, its failure as text.
pub open spec fn inserted_view(inserted: Result<(), String>) -> Result<(), Seq<char>> {
    match inserted {
        Ok(()) => Ok(()),
        Err(text) => Err(text@),
    }
}

/// The answer to a create request, from the outcome of the insert (its
/// failure as text) and from what reading the row back gave.
pub fn created(inserted: Result<(), String>, found: Option<UserResponse>) -> (res: Result<
    UserResponse,
    UserError,
>)
    ensures
        answer_view(res) == created_answer(inserted_view(inserted), response_view(found)),
{
    match inserted {
        Ok(()) => match found {
            Some(user) => Ok(user),
            None => Err(UserError::BadRequest { msg: "insert failed".to_owned() }),
        },
        Err(text) => Err(UserError::BadRequest { msg: text }),
    }
}

/// The answer to a login request, from what the repository found. A
/// refusal never says whether the username or the password was wrong.
pub fn authenticated(found: Option<UserResponse>) -> (res: Result<UserResponse, UserError>)
    ensures
        answer_view(res) == login_answer(response_view(found)),
{
    match found {
        Some(user) => Ok(user),
        None => Err(UserError::Forbidden { msg: "Invalid username and/or password".to_owned() }),
    }
}

/// The HTTP status to answer with, as `status_of` says.
pub fn answer_status<T>(res: &Result<T, UserError>) -> (code: u16)
    ensures
        code == status_of(*res),
{
    match res {
        Ok(_) => 200,
        Err(e) => e.status_code(),
    }
}

/// Lists every account, projected, in the table's order.
pub fn get_all(conn: Option<&UserTable>) -> (res: Result<Vec<UserResponse>, UserError>)
    ensures
        match conn {
            Some(table) => res matches Ok(list) && response_views(list@) == table@.responses(),
            None => res matches Err(UserError::InternalError),
        },
        status_of(res) == if conn is Some {
            200int
        } else {
            500int
        },
{
    match conn {
        Some(table) => Ok(table.get_all_users()),
        None => Err(UserError::InternalError),
    }
}

/// Finds an account by its exact username. An unknown username is no
/// failure: the answer is then `Ok(None)`.
pub fn find_user(conn: Option<&UserTable>, username: &str) -> (res: Result<
    Option<UserResponse>,
    UserError,
>)
    requires
        conn matches Some(table) ==> table.wf(),
    ensures
        match conn {
            Some(table) => res matches Ok(found) && response_view(found) == table@.find(
                username@,
            ),
            None => res matches Err(UserError::InternalError),
        },
        status_of(res) == if conn is Some {
            200int
        } else {
            500int
        },
{
    match conn {
        Some(table) => Ok(table.get_user_by_username(username)),
        None => Err(UserError::InternalError),
    }
}

/// Checks credentials. The account is returned where the stored hash
/// accepts the password; every other case is the same `Forbidden`.
pub fn login(conn: Option<&UserTable>, creds: LoginRequest) -> (res: Result<
    UserResponse,
    UserError,
>)
    requires
        conn matches Some(table) ==> table.wf(),
    ensures
        match conn {
            Some(table) => answer_view(res) == login_answer(
                table@.login(creds.username@, creds.password@),
            ),
            None => res matches Err(UserError::InternalError),
        },
        status_of(res) == match conn {
            Some(table) => if table@.login(creds.username@, creds.password@) is Some {
                200int
            } else {
                403int
            },
            None => 500int,
        },
{
    match conn {
        Some(table) => authenticated(table.login(creds)),
        None => Err(UserError::InternalError),
    }
}

/// Creates an account and answers with its projection, read back from
/// the table.
///
/// On success the table has one row more, under the id that was next, and
/// the answer is that row's projection. On failure the table is unchanged
/// and the answer is a `BadRequest` with the insert's message. A taken
/// username always fails.
pub fn new_user(conn: Option<&mut UserTable>, request: NewUserRequest) -> (res: Result<
    UserResponse,
    UserError,
>)
    requires
        conn matches Some(table) ==> table.wf(),
    ensures
        match conn {
            Some(table) => {
                &&& final(table).wf()
                &&& match res {
                    Ok(user) => {
                        &&& final(table)@.extends(
                            table@,
                            request.username@,
                            request.password@,
                        )
                        &&& user@ == (ResponseView {
                            id: table@.next_id,
                            username: request.username@,
                        })
                    },
                    Err(e) => {
                        &&& final(table)@ == table@
                        &&& e@ matches ErrorView::BadRequest { msg }
                        &&& exists|cause: InsertError|
                            table@.can_fail_with(request.username@, cause) && msg
                                == #[trigger] cause.text()
                    },
                }
                &&& table@.refusal(request.username@) is Some ==> res is Err
            },
            None => res matches Err(UserError::InternalError),
        },
        status_of(res) == if conn is None {
            500int
        } else if res is Ok {
            200int
        } else {
            400int
        },
{
    match conn {
        Some(table) => {
            let username = request.username.clone();
            match table.insert_user(request) {
                Ok(()) => {
                    proof {
                        lemma_row_of(table@, table@.rows.len() - 1);
                    }
                    created(Ok(()), table.get_user_by_username(username.as_str()))
                },
                Err(e) => created(Err(e.to_string()), None),
            }
        },
        None => Err(UserError::InternalError),
    }
}

} // verus!
