//! The account table: rows in insertion order, usernames unique, ids handed
//! out by the table itself. The four repository operations work on it.

use crate::models::{LoginRequest, NewUserRequest, ResponseView, RowView, User, UserResponse};
use crate::password::{accepts, hash_password, verify_password};
use vstd::prelude::*;

verus! {

/// The largest id a row can have.
pub const MAX_ID: i32 = 2147483647;

/// Why a row was not inserted.
#[derive(Debug, Clone, Copy, PartialEq, Eq)]
pub enum InsertError {
    /// The password could not be hashed.
    HashingFailed,
    /// A row with this username exists already.
    DuplicateUsername,
    /// The table has no id left to give.
    IdsExhausted,
}

impl InsertError {
    /// The message for this failure.
    pub open spec fn text(self) -> Seq<char> {
        match self {
            InsertError::HashingFailed => "password hashing failed"@,
            InsertError::DuplicateUsername => "username already exists"@,
            InsertError::IdsExhausted => "no id left for a new row"@,
        }
    }

    pub fn to_string(&self) -> (s: String)
        ensures
            s@ == self.text(),
    {
        match self {
            InsertError::HashingFailed => "password hashing failed".to_owned(),
            InsertError::DuplicateUsername => "username already exists".to_owned(),
            InsertError::IdsExhausted => "no id left for a new row".to_owned(),
        }
    }
}

/// The table as a mathematical value: its rows in insertion order and the
/// id that the next row will get.
pub ghost struct TableView {
    pub rows: Seq<RowView>,
    pub next_id: int,
}

impl TableView {
    /// The empty table.
    pub open spec fn empty() -> TableView {
        TableView { rows: Seq::empty(), next_id: 1 }
    }

    /// Ids are positive, below `next_id` and increase with the position;
    /// no two rows share a username.
    pub open spec fn wf(self) -> bool {
        &&& 1 <= self.next_id <= MAX_ID
        &&& forall|i: int|
            0 <= i < self.rows.len() ==> 1 <= (#[trigger] self.rows[i]).id < self.next_id
        &&& forall|i: int, j: int|
            0 <= i < j < self.rows.len() ==> (#[trigger] self.rows[i]).id < (
            #[trigger] self.rows[j]).id
        &&& forall|i: int, j: int|
            0 <= i < j < self.rows.len() ==> (#[trigger] self.rows[i]).username != (
            #[trigger] self.rows[j]).username
    }

    /// Whether some row has exactly this username.
    pub open spec fn has_username(self, name: Seq<char>) -> bool {
        exists|i: int| 0 <= i < self.rows.len() && (#[trigger] self.rows[i]).username == name
    }

    /// The row with this username, if there is one.
    pub open spec fn row_of(self, name: Seq<char>) -> Option<RowView> {
        if self.has_username(name) {
            Some(
                self.rows[choose|i: int|
                    0 <= i < self.rows.len() && (#[trigger] self.rows[i]).username == name],
            )
        } else {
            None
        }
    }

    /// Every row, projected, in the table's order.
    pub open spec fn responses(self) -> Seq<ResponseView> {
        Seq::new(self.rows.len(), |i: int| self.rows[i].response())
    }

    /// The projection of the row with this username, if there is one.
    pub open spec fn find(self, name: Seq<char>) -> Option<ResponseView> {
        match self.row_of(name) {
            Some(row) => Some(row.response()),
            None => None,
        }
    }

    /// The projection of the row with this username, provided that its
    /// stored hash accepts the password.
    pub open spec fn login(self, name: Seq<char>, password: Seq<char>) -> Option<ResponseView> {
        match self.row_of(name) {
            Some(row) => if accepts(row.password, password) {
                Some(row.response())
            } else {
                None
            },
            None => None,
        }
    }

    /// The table after a row for `name` with the stored hash `hash` was
    /// added at the end.
    pub open spec fn with_row(self, name: Seq<char>, hash: Seq<u8>) -> TableView {
        TableView {
            rows: self.rows.push(RowView { id: self.next_id, username: name, password: hash }),
            next_id: self.next_id + 1,
        }
    }

    /// Why the table takes no row for `name`, if it does not: the username
    /// is taken, or else no id is left.
    pub open spec fn refusal(self, name: Seq<char>) -> Option<InsertError> {
        if self.has_username(name) {
            Some(InsertError::DuplicateUsername)
        } else if self.next_id >= MAX_ID {
            Some(InsertError::IdsExhausted)
        } else {
            None
        }
    }

    /// What an insert does, given the outcome of hashing the password:
    /// the new table, or the reason why the table stays as it is.
    pub open spec fn insert(self, name: Seq<char>, hash: Option<Seq<u8>>) -> Result<
        TableView,
        InsertError,
    > {
        match hash {
            None => Err(InsertError::HashingFailed),
            Some(h) => match self.refusal(name) {
                Some(e) => Err(e),
                None => Ok(self.with_row(name, h)),
            },
        }
    }

    /// Whether this table is `before` with one row added for `name`, under
    /// the next id of `before` and with a stored hash that accepts
    /// `password`.
    pub open spec fn extends(
        self,
        before: TableView,
        name: Seq<char>,
        password: Seq<char>,
    ) -> bool {
        &&& before.refusal(name) is None
        &&& self.rows.len() == before.rows.len() + 1
        &&& self == before.with_row(name, self.rows.last().password)
        &&& accepts(self.rows.last().password, password)
    }

    /// Whether an insert for `name` can fail with `e`: hashing can always
    /// fail; the other failures come exactly as `refusal` says.
    pub open spec fn can_fail_with(self, name: Seq<char>, e: InsertError) -> bool {
        e == InsertError::HashingFailed || self.refusal(name) == Some(e)
    }
}

/// The views of a list of responses.
pub open spec fn response_views(list: Seq<UserResponse>) -> Seq<ResponseView> {
    Seq::new(list.len(), |i: int| list[i]@)
}

/// The view of an optional response.
pub open spec fn response_view(resp: Option<UserResponse>) -> Option<ResponseView> {
    match resp {
        Some(r) => Some(r@),
        None => None,
    }
}

/// The view of an optional hash.
pub open spec fn hash_view(hash: Option<[u8; 128]>) -> Option<Seq<u8>> {
    match hash {
        Some(h) => Some(h@),
        None => None,
    }
}

/// In a well-formed table a row is the row of its username.
pub proof fn lemma_row_of(t: TableView, i: int)
    requires
        t.wf(),
        0 <= i < t.rows.len(),
    ensures
        t.has_username(t.rows[i].username),
        t.row_of(t.rows[i].username) == Some(t.rows[i]),
{
    let name = t.rows[i].username;
    assert(t.has_username(name));
    let j = choose|j: int| 0 <= j < t.rows.len() && (#[trigger] t.rows[j]).username == name;
    if j < i {
        assert(t.rows[j].username != t.rows[i].username);
    } else if i < j {
        assert(t.rows[i].username != t.rows[j].username);
    }
}

/// Adding a row for a username that is not there, while ids are left,
/// keeps the table well-formed.
pub proof fn lemma_with_row_wf(t: TableView, name: Seq<char>, hash: Seq<u8>)
    requires
        t.wf(),
        !t.has_username(name),
        t.next_id < MAX_ID,
    ensures
        t.with_row(name, hash).wf(),
{
    let t2 = t.with_row(name, hash);
    assert forall|i: int, j: int| 0 <= i < j < t2.rows.len() implies (#[trigger] t2.rows[i]).username
        != (#[trigger] t2.rows[j]).username by {
        if j == t.rows.len() {
            assert(t.rows[i].username != name);
        } else {
            assert(t.rows[i].username != t.rows[j].username);
        }
    }
    assert forall|i: int, j: int| 0 <= i < j < t2.rows.len() implies (#[trigger] t2.rows[i]).id < (
    #[trigger] t2.rows[j]).id by {
        if j == t.rows.len() {
            assert(t.rows[i].id < t.next_id);
        } else {
            assert(t.rows[i].id < t.rows[j].id);
        }
    }
    assert forall|i: int| 0 <= i < t2.rows.len() implies 1 <= (#[trigger] t2.rows[i]).id
        < t2.next_id by {
        if i < t.rows.len() {
            assert(1 <= t.rows[i].id < t.next_id);
        }
    }
}

/// Decides a login from the row that the username gave, if any: the row's
/// projection where its stored hash accepts the password, and nothing for
/// a missing row and for a password that is not accepted alike.
pub fn login_row(row: Option<&User>, password: &str) -> (found: Option<UserResponse>)
    ensures
        response_view(found) == match row {
            Some(r) => if accepts(r@.password, password@) {
                Some(r@.response())
            } else {
                None
            },
            None => None,
        },
{
    match row {
        Some(r) => {
            if verify_password(&r.password, password) {
                Some(r.to_response())
            } else {
                None
            }
        },
        None => None,
    }
}

/// The account table.
pub struct UserTable {
    rows: Vec<User>,
    next_id: i32,
}

impl View for UserTable {
    type V = TableView;

    closed spec fn view(&self) -> TableView {
        TableView {
            rows: Seq::new(self.rows@.len(), |i: int| self.rows@[i]@),
            next_id: self.next_id as int,
        }
    }
}

impl UserTable {
    /// The table's invariant: that of its view.
    pub open spec fn wf(&self) -> bool {
        self@.wf()
    }

    /// An empty table, whose first row will get id 1.
    pub fn new() -> (table: UserTable)
        ensures
            table.wf(),
            table@ == TableView::empty(),
    {
        let table = UserTable { rows: Vec::new(), next_id: 1 };
        assert(table@.rows =~= Seq::empty());
        table
    }

    /// An empty table whose first row will get the id `next_id`, for an id
    /// from 1 to `MAX_ID`; `None` for any other.
    pub fn with_next_id(next_id: i32) -> (table: Option<UserTable>)
        ensures
            match table {
                Some(t) => 1 <= next_id <= MAX_ID && t.wf() && t@ == (TableView {
                    rows: Seq::empty(),
                    next_id: next_id as int,
                }),
                None => !(1 <= next_id <= MAX_ID),
            },
    {
        if next_id < 1 {
            return None;
        }
        let table = UserTable { rows: Vec::new(), next_id };
        assert(table@.rows =~= Seq::empty());
        Some(table)
    }

    /// The position of the row with this username.
    fn position(&self, name: &String) -> (pos: Option<usize>)
        requires
            self.wf(),
        ensures
            match pos {
                Some(i) => i < self.rows@.len() && self@.rows.len() == self.rows@.len()
                    && self.rows@[i as int]@ == self@.rows[i as int] && self@.row_of(name@)
                    == Some(self@.rows[i as int]),
                None => self@.row_of(name@) is None,
            },
    {
        let mut i: usize = 0;
        while i < self.rows.len()
            invariant
                self.wf(),
                i <= self.rows@.len(),
                self@.rows.len() == self.rows@.len(),
                forall|k: int| 0 <= k < i ==> (#[trigger] self@.rows[k]).username != name@,
            decreases self.rows@.len() - i,
        {
            if self.rows[i].username == *name {
                proof {
                    lemma_row_of(self@, i as int);
                }
                return Some(i);
            }
            i += 1;
        }
        None
    }

    /// Every row, projected, in insertion order.
    pub fn get_all_users(&self) -> (list: Vec<UserResponse>)
        ensures
            response_views(list@) == self@.responses(),
    {
        let mut list: Vec<UserResponse> = Vec::new();
        let mut i: usize = 0;
        while i < self.rows.len()
            invariant
                i <= self.rows@.len(),
                list@.len() == i,
                self@.rows.len() == self.rows@.len(),
                forall|k: int| 0 <= k < i ==> (#[trigger] list@[k])@ == self@.rows[k].response(),
            decreases self.rows@.len() - i,
        {
            list.push(self.rows[i].to_response());
            i += 1;
        }
        assert(response_views(list@) =~= self@.responses());
        list
    }

    /// The projection of the row whose username is exactly `username`, or
    /// `None` where there is no such row.
    pub fn get_user_by_username(&self, username: &str) -> (found: Option<UserResponse>)
        requires
            self.wf(),
        ensures
            response_view(found) == self@.find(username@),
    {
        let name = username.to_owned();
        match self.position(&name) {
            Some(i) => Some(self.rows[i].to_response()),
            None => None,
        }
    }

    /// The projection of the row named by the credentials, provided that
    /// its stored hash accepts their password; `None` for an unknown
    /// username and for a password that is not accepted alike.
    pub fn login(&self, creds: LoginRequest) -> (found: Option<UserResponse>)
        requires
            self.wf(),
        ensures
            response_view(found) == self@.login(creds.username@, creds.password@),
    {
        match self.position(&creds.username) {
            Some(i) => login_row(Some(&self.rows[i]), creds.password.as_str()),
            None => login_row(None, creds.password.as_str()),
        }
    }

    /// Adds a row for `username`, given the outcome of hashing its password.
    ///
    /// Fails, and leaves the table as it was, where hashing failed, where
    /// the username is taken, or where no id is left, in this order.
    pub fn insert_hashed(&mut self, username: String, hash: Option<[u8; 128]>) -> (res: Result<
        (),
        InsertError,
    >)
        requires
            old(self).wf(),
        ensures
            final(self).wf(),
            match old(self)@.insert(username@, hash_view(hash)) {
                Ok(table) => res is Ok && final(self)@ == table,
                Err(e) => res == Err::<(), InsertError>(e) && final(self)@ == old(self)@,
            },
    {
        let password = match hash {
            Some(h) => h,
            None => {
                return Err(InsertError::HashingFailed);
            },
        };
        if self.position(&username).is_some() {
            return Err(InsertError::DuplicateUsername);
        }
        if self.next_id >= MAX_ID {
            return Err(InsertError::IdsExhausted);
        }
        proof {
            lemma_with_row_wf(self@, username@, password@);
        }
        let id = self.next_id;
        self.rows.push(User { id, username, password });
        self.next_id = id + 1;
        assert(self@.rows =~= old(self)@.with_row(username@, password@).rows);
        Ok(())
    }

    /// Hashes the new account's password with a fresh salt and adds its row.
    ///
    /// Whether hashing succeeds is libsodium's to say. Where it does, the
    /// row is added exactly if the username is free and an id is left, and
    /// the stored hash accepts the password.
    pub fn insert_user(&mut self, new_user: NewUserRequest) -> (res: Result<(), InsertError>)
        requires
            old(self).wf(),
        ensures
            final(self).wf(),
            match res {
                Ok(()) => final(self)@.extends(old(self)@, new_user.username@, new_user.password@),
                Err(e) => final(self)@ == old(self)@ && old(self)@.can_fail_with(
                    new_user.username@,
                    e,
                ),
            },
            old(self)@.refusal(new_user.username@) is Some ==> res is Err,
    {
        let hash = hash_password(new_user.password.as_str());
        self.insert_hashed(new_user.username, hash)
    }
}

} // verus!
