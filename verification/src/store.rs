//! What the store of applications is asked for, operation by operation.
use crate::application::lemma_filter_holds;
use crate::models::{ApplicationView, NewApplication};
use crate::text::opt_view;
use vstd::prelude::*;

verus! {

/// Which rows an operation is about: those that meet every condition that is set.
pub struct Condition {
    pub user: Option<String>,
    pub id: Option<i32>,
    pub token: Option<String>,
}

/// What a `Condition` says.
pub struct ConditionView {
    pub user: Option<Seq<char>>,
    pub id: Option<i32>,
    pub token: Option<Seq<char>>,
}

impl View for Condition {
    type V = ConditionView;

    open spec fn view(&self) -> ConditionView {
        ConditionView { user: opt_view(self.user), id: self.id, token: opt_view(self.token) }
    }
}

impl ConditionView {
    /// Whether the row meets the conditions.
    pub open spec fn holds(self, row: ApplicationView) -> bool {
        &&& self.user is Some ==> self.user == Some(row.user)
        &&& self.id is Some ==> self.id == Some(row.id)
        &&& self.token is Some ==> self.token == Some(row.token)
    }
}

/// An operation on the store.
pub enum Operation {
    /// Store a new row, and give it back with its number.
    Insert(NewApplication),
    /// Give the first of the rows, if there is one.
    First(Condition),
    /// Give all of the rows.
    All(Condition),
    /// Set the address of the rows.
    SetAddr(Condition, Option<String>),
    /// Delete the rows.
    Delete(Condition),
}

/// The user's row of the given number.
pub open spec fn own_row(user: Seq<char>, id: i32) -> ConditionView {
    ConditionView { user: Some(user), id: Some(id), token: None }
}

/// The rows with the token.
pub open spec fn token_rows(token: Seq<char>) -> ConditionView {
    ConditionView { user: None, id: None, token: Some(token) }
}

/// The user's rows.
pub open spec fn user_rows(user: Seq<char>) -> ConditionView {
    ConditionView { user: Some(user), id: None, token: None }
}

/// Creates an application.
pub fn create_app(username: String, token: String) -> (res: Operation)
    ensures
        res == Operation::Insert(NewApplication { user: username, token }),
{
    Operation::Insert(NewApplication { user: username, token })
}

/// Finds a user's application.
pub fn get_app(username: String, id: i32) -> (res: Operation)
    ensures
        res matches Operation::First(condition) && condition@ == own_row(username@, id),
{
    Operation::First(Condition { user: Some(username), id: Some(id), token: None })
}

/// Finds the application of a token.
pub fn get_app_by_token(token: String) -> (res: Operation)
    ensures
        res matches Operation::First(condition) && condition@ == token_rows(token@),
{
    Operation::First(Condition { user: None, id: None, token: Some(token) })
}

/// Sets the address of the application of a token.
pub fn set_app_addr(token: String, addr: Option<String>) -> (res: Operation)
    ensures
        res matches Operation::SetAddr(condition, a) && condition@ == token_rows(token@) && a
            == addr,
{
    Operation::SetAddr(Condition { user: None, id: None, token: Some(token) }, addr)
}

/// Lists a user's applications.
pub fn list_apps(username: String) -> (res: Operation)
    ensures
        res matches Operation::All(condition) && condition@ == user_rows(username@),
{
    Operation::All(Condition { user: Some(username), id: None, token: None })
}

/// Deletes a user's application.
pub fn delete_app(username: String, id: i32) -> (res: Operation)
    ensures
        res matches Operation::Delete(condition) && condition@ == own_row(username@, id),
{
    Operation::Delete(Condition { user: Some(username), id: Some(id), token: None })
}

/// The rows that meet the condition.
pub open spec fn rows_where(table: Seq<ApplicationView>, condition: ConditionView) -> Seq<
    ApplicationView,
> {
    table.filter(|row: ApplicationView| condition.holds(row))
}

/// The table with the address of the rows set.
pub open spec fn with_addr(
    table: Seq<ApplicationView>,
    condition: ConditionView,
    addr: Option<Seq<char>>,
) -> Seq<ApplicationView> {
    table.map_values(
        |row: ApplicationView|
            if condition.holds(row) {
                ApplicationView { addr, ..row }
            } else {
                row
            },
    )
}

/// The table without the rows.
pub open spec fn without(table: Seq<ApplicationView>, condition: ConditionView) -> Seq<
    ApplicationView,
> {
    table.filter(|row: ApplicationView| !condition.holds(row))
}

/// An address that was set for a token is found under the token.
pub proof fn law_set_address_is_found(
    table: Seq<ApplicationView>,
    token: Seq<char>,
    addr: Option<Seq<char>>,
    row: ApplicationView,
)
    requires
        rows_where(with_addr(table, token_rows(token), addr), token_rows(token)).contains(row),
    ensures
        row.addr == addr,
        row.token == token,
{
    let condition = token_rows(token);
    let after = with_addr(table, condition, addr);
    lemma_filter_holds(after, |r: ApplicationView| condition.holds(r), row);
    let i = choose|i: int| 0 <= i < after.len() && after[i] == row;
    assert(condition.holds(table[i]) || after[i] == table[i]);
}

/// Users are given no rows but their own.
pub proof fn law_listed_rows_are_the_users(
    table: Seq<ApplicationView>,
    user: Seq<char>,
    row: ApplicationView,
)
    ensures
        rows_where(table, user_rows(user)).contains(row) <==> table.contains(row) && row.user
            == user,
{
    let condition = user_rows(user);
    lemma_filter_holds(table, |r: ApplicationView| condition.holds(r), row);
}

/// Deleting a user's row deletes that row and no other.
pub proof fn law_deleting_is_exact(
    table: Seq<ApplicationView>,
    user: Seq<char>,
    id: i32,
    row: ApplicationView,
)
    ensures
        without(table, own_row(user, id)).contains(row) <==> table.contains(row) && !(row.user
            == user && row.id == id),
{
    let condition = own_row(user, id);
    lemma_filter_holds(table, |r: ApplicationView| !condition.holds(r), row);
}

} // verus!
