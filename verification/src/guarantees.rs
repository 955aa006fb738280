//! What the account table and the handlers guarantee across calls, stated
//! over their views and proved.

use crate::error::ErrorView;
use crate::models::ResponseView;
use crate::password::accepts;
use crate::routes::{login_answer, login_refused_text};
use crate::store::{lemma_row_of, lemma_with_row_wf, InsertError, TableView, MAX_ID};
use vstd::prelude::*;

verus! {

/// An insert for a free username, while an id is left and once the
/// password is hashed, succeeds; the account is then found under its
/// username, with the id that was next and with exactly that username.
pub proof fn insert_then_find(before: TableView, name: Seq<char>, hash: Seq<u8>)
    requires
        before.wf(),
        !before.has_username(name),
        before.next_id < MAX_ID,
    ensures
        before.insert(name, Some(hash)) == Ok::<TableView, InsertError>(
            before.with_row(name, hash),
        ),
        before.with_row(name, hash).wf(),
        before.with_row(name, hash).find(name) == Some(
            ResponseView { id: before.next_id, username: name },
        ),
{
    let after = before.with_row(name, hash);
    lemma_with_row_wf(before, name, hash);
    lemma_row_of(after, before.rows.len() as int);
}

/// An insert for a username that is present fails, whatever hashing gave,
/// and with `DuplicateUsername` where hashing succeeded.
pub proof fn duplicate_insert_rejected(table: TableView, name: Seq<char>, hash: Option<Seq<u8>>)
    requires
        table.has_username(name),
    ensures
        table.insert(name, hash) is Err,
        hash is Some ==> table.insert(name, hash) == Err::<TableView, InsertError>(
            InsertError::DuplicateUsername,
        ),
{
}

/// After a successful insert for a username, a second insert for the same
/// username fails.
pub proof fn second_insert_rejected(
    before: TableView,
    name: Seq<char>,
    first: Seq<u8>,
    second: Option<Seq<u8>>,
)
    requires
        before.insert(name, Some(first)) is Ok,
    ensures
        before.with_row(name, first).insert(name, second) is Err,
        second is Some ==> before.with_row(name, first).insert(name, second) == Err::<
            TableView,
            InsertError,
        >(InsertError::DuplicateUsername),
{
    let after = before.with_row(name, first);
    assert(after.rows[before.rows.len() as int].username == name);
}

/// Login with a stored username and a password that the stored hash
/// accepts returns that account.
pub proof fn login_accepts_stored_password(table: TableView, i: int, password: Seq<char>)
    requires
        table.wf(),
        0 <= i < table.rows.len(),
        accepts(table.rows[i].password, password),
    ensures
        table.login(table.rows[i].username, password) == Some(table.rows[i].response()),
{
    lemma_row_of(table, i);
}

/// Login with a stored username and a password that the stored hash does
/// not accept returns nothing.
pub proof fn login_rejects_wrong_password(table: TableView, i: int, password: Seq<char>)
    requires
        table.wf(),
        0 <= i < table.rows.len(),
        !accepts(table.rows[i].password, password),
    ensures
        table.login(table.rows[i].username, password) is None,
{
    lemma_row_of(table, i);
}

/// Login with a username that no row has returns nothing.
pub proof fn login_rejects_unknown_username(
    table: TableView,
    name: Seq<char>,
    password: Seq<char>,
)
    requires
        !table.has_username(name),
    ensures
        table.login(name, password) is None,
{
}

/// Every refused login is answered alike, with `Forbidden` and one fixed
/// message: an unknown username cannot be told from a wrong password.
pub proof fn login_refusals_alike(
    first: TableView,
    first_name: Seq<char>,
    first_password: Seq<char>,
    second: TableView,
    second_name: Seq<char>,
    second_password: Seq<char>,
)
    requires
        first.login(first_name, first_password) is None,
        second.login(second_name, second_password) is None,
    ensures
        login_answer(first.login(first_name, first_password)) == login_answer(
            second.login(second_name, second_password),
        ),
        login_answer(first.login(first_name, first_password)) == Err::<ResponseView, ErrorView>(
            ErrorView::Forbidden { msg: login_refused_text() },
        ),
{
}

/// After an account was created, login with a password that its stored
/// hash accepts returns the account.
pub proof fn login_after_insert(
    before: TableView,
    name: Seq<char>,
    hash: Seq<u8>,
    password: Seq<char>,
)
    requires
        before.wf(),
        !before.has_username(name),
        before.next_id < MAX_ID,
        accepts(hash, password),
    ensures
        before.with_row(name, hash).login(name, password) == Some(
            ResponseView { id: before.next_id, username: name },
        ),
{
    let after = before.with_row(name, hash);
    lemma_with_row_wf(before, name, hash);
    lemma_row_of(after, before.rows.len() as int);
}

/// The empty table is well-formed and lists no account.
pub proof fn empty_table_lists_nothing()
    ensures
        TableView::empty().wf(),
        TableView::empty().responses() == Seq::<ResponseView>::empty(),
{
    assert(TableView::empty().responses() =~= Seq::<ResponseView>::empty());
}

/// A username that no row has is found absent.
pub proof fn find_unknown_is_absent(table: TableView, name: Seq<char>)
    requires
        !table.has_username(name),
    ensures
        table.find(name) is None,
{
}

/// Two tables whose rows agree on ids and usernames answer every list and
/// every find alike, whatever passwords they store: no answer carries
/// anything of a password.
pub proof fn answers_independent_of_passwords(a: TableView, b: TableView, name: Seq<char>)
    requires
        a.wf(),
        b.wf(),
        a.rows.len() == b.rows.len(),
        forall|i: int|
            0 <= i < a.rows.len() ==> (#[trigger] a.rows[i]).response() == b.rows[i].response(),
    ensures
        a.responses() == b.responses(),
        a.find(name) == b.find(name),
{
    assert(a.responses() =~= b.responses());
    if a.has_username(name) {
        let i = choose|i: int| 0 <= i < a.rows.len() && (#[trigger] a.rows[i]).username == name;
        assert(a.rows[i].response() == b.rows[i].response());
        lemma_row_of(a, i);
        lemma_row_of(b, i);
    } else if b.has_username(name) {
        let i = choose|i: int| 0 <= i < b.rows.len() && (#[trigger] b.rows[i]).username == name;
        assert(a.rows[i].response() == b.rows[i].response());
        assert(a.rows[i].username == name);
    }
}

} // verus!
