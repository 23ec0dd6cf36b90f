//! Laws of the plain store and of its schema.
use crate::migration::{ColumnKind, Migration, SchemaStep, SchemaStepView, step_views};
use crate::models::ApplicationView;
use crate::store::{
    create_app, delete_app, get_app, get_app_by_token, list_apps, set_app_addr, Operation,
};
use crate::text::opt_view;
use vstd::prelude::*;

verus! {

/// What each operation is about: the user's row of a number, the row of a token, or all rows of a
/// user; and what is stored or set.
pub proof fn law_operations(
    user: String,
    id: i32,
    token: String,
    addr: Option<String>,
    created: Operation,
    got: Operation,
    got_by_token: Operation,
    set: Operation,
    listed: Operation,
    removed: Operation,
    row: ApplicationView,
)
    requires
        call_ensures(create_app, (user, token), created),
        call_ensures(get_app, (user, id), got),
        call_ensures(get_app_by_token, (token,), got_by_token),
        call_ensures(set_app_addr, (token, addr), set),
        call_ensures(list_apps, (user,), listed),
        call_ensures(delete_app, (user, id), removed),
    ensures
        created matches Operation::Insert(new) && new.user@ == user@ && new.token@ == token@,
        got matches Operation::First(condition) && (condition@.holds(row) <==> row.user == user@
            && row.id == id),
        got_by_token matches Operation::First(condition) && (condition@.holds(row) <==> row.token
            == token@),
        set matches Operation::SetAddr(condition, to) && opt_view(to) == opt_view(addr) && (
        condition@.holds(row) <==> row.token == token@),
        listed matches Operation::All(condition) && (condition@.holds(row) <==> row.user == user@),
        removed matches Operation::Delete(condition) && (condition@.holds(row) <==> row.user
            == user@ && row.id == id),
{
}

/// The migration makes the table with a number that the store counts, a user and a token that no
/// row lacks and an address that a row may lack, and then an index of the tokens and one of the
/// users. Undoing it drops the indexes before the table.
pub proof fn law_migration_steps(up: Vec<SchemaStep>, down: Vec<SchemaStep>)
    requires
        call_ensures(Migration::up, (&Migration,), up),
        call_ensures(Migration::down, (&Migration,), down),
    ensures
        step_views(up@) == seq![
            SchemaStepView::CreateTable {
                table: "application"@,
                columns: seq![
                    ("id"@, ColumnKind::PrimaryKey),
                    ("username"@, ColumnKind::Text),
                    ("token"@, ColumnKind::Text),
                    ("address"@, ColumnKind::OptionalText),
                ],
            },
            SchemaStepView::CreateIndex {
                index: "application_token"@,
                table: "application"@,
                column: "token"@,
            },
            SchemaStepView::CreateIndex {
                index: "application_username"@,
                table: "application"@,
                column: "username"@,
            },
        ],
        step_views(down@) == seq![
            SchemaStepView::DropIndex { index: "application_username"@, table: "application"@ },
            SchemaStepView::DropIndex { index: "application_token"@, table: "application"@ },
            SchemaStepView::DropTable { table: "application"@ },
        ],
{
}

} // verus!
