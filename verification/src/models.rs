//! The account row, the two request bodies and the projection that is sent
//! back to clients.

use vstd::prelude::*;

verus! {

/// A stored account. `password` holds the salted hash, never the plaintext.
#[derive(Debug, Clone, PartialEq, Eq)]
pub struct User {
    pub id: i32,
    pub username: String,
    pub password: [u8; 128],
}

/// Body of a request to create an account; `password` is the plaintext.
#[derive(Debug, Clone, PartialEq, Eq)]
pub struct NewUserRequest {
    pub username: String,
    pub password: String,
}

/// Body of a login request; `password` is the plaintext.
#[derive(Debug, Clone, PartialEq, Eq)]
pub struct LoginRequest {
    pub username: String,
    pub password: String,
}

/// What clients see of an account: everything but the password.
#[derive(Debug, Clone, PartialEq, Eq)]
pub struct UserResponse {
    pub id: i32,
    pub username: String,
}

/// A row as a mathematical value.
pub ghost struct RowView {
    pub id: int,
    pub username: Seq<char>,
    pub password: Seq<u8>,
}

/// A projected row as a mathematical value.
pub ghost struct ResponseView {
    pub id: int,
    pub username: Seq<char>,
}

impl RowView {
    /// The projection of a row: its id and username.
    pub open spec fn response(self) -> ResponseView {
        ResponseView { id: self.id, username: self.username }
    }
}

impl View for User {
    type V = RowView;

    open spec fn view(&self) -> RowView {
        RowView { id: self.id as int, username: self.username@, password: self.password@ }
    }
}

impl View for UserResponse {
    type V = ResponseView;

    open spec fn view(&self) -> ResponseView {
        ResponseView { id: self.id as int, username: self.username@ }
    }
}

impl User {
    /// Projects the row for a client.
    pub fn to_response(&self) -> (resp: UserResponse)
        ensures
            resp@ == self@.response(),
    {
        UserResponse { id: self.id, username: self.username.clone() }
    }
}

/// Two rows that agree on id and username project to the same response,
/// whatever their passwords: nothing of a password reaches a client.
pub proof fn response_independent_of_password(a: RowView, b: RowView)
    requires
        a.id == b.id,
        a.username == b.username,
    ensures
        a.response() == b.response(),
{
}

} // verus!
