//! Laws of the table of applications.
use crate::application::{
    deleted, lemma_filter_holds, one_updated, selected, updated, Changes, ChangesView, DbError,
    Filter, FilterView, Model, ModelView, State, StatusCode, Timestamp,
};
use vstd::prelude::*;

verus! {

/// How a state is written.
pub open spec fn written(state: State) -> Seq<char> {
    match state {
        State::LAUNCHING => "LAUNCHING"@,
        State::RUNNING => "RUNNING"@,
        State::FINISHED => "FINISHED"@,
        State::FAILED => "FAILED"@,
    }
}

/// A state is written as its name.
pub proof fn law_states_are_written(state: State, text: &'static str)
    requires
        call_ensures(State::to_value, (state,), text),
    ensures
        text@ == written(state),
{
}

/// A name is read as the state that is written so, and as none where no state is.
pub proof fn law_states_are_read(text: &str, res: Option<State>, state: State)
    requires
        call_ensures(State::try_from_value, (text,), res),
    ensures
        res == Some(state) <==> text@ == written(state),
{
    lemma_written_differ();
    assert(state.name() == written(state));
    if let Some(read) = res {
        assert(read.name() == written(read));
    }
}

/// States are told apart by how they are written.
pub proof fn lemma_written_differ()
    ensures
        forall|a: State, b: State|
            #[trigger] written(a) == #[trigger] written(b) ==> a == b,
        forall|a: State| (#[trigger] written(a)).len() > 0,
        forall|a: State, i: int|
            0 <= i < written(a).len() ==> 'A' <= #[trigger] written(a)[i] <= 'Z',
{
    reveal_strlit("LAUNCHING");
    reveal_strlit("RUNNING");
    reveal_strlit("FINISHED");
    reveal_strlit("FAILED");
    assert("LAUNCHING"@.len() == 9);
    assert("RUNNING"@.len() == 7);
    assert("FINISHED"@.len() == 8);
    assert("FAILED"@.len() == 6);
}

/// An application is over once it has finished or failed, and not while it is launching or runs.
pub proof fn law_over_means_finished_or_failed()
    ensures
        State::FINISHED.is_over(),
        State::FAILED.is_over(),
        !State::LAUNCHING.is_over(),
        !State::RUNNING.is_over(),
{
}

/// Points in time are ordered as the nanoseconds since the epoch are.
pub proof fn law_time_is_ordered(a: Timestamp, b: Timestamp)
    requires
        a.nanos < 1_000_000_000,
        b.nanos < 1_000_000_000,
    ensures
        a.precedes(b) <==> a.secs * 1_000_000_000 + a.nanos <= b.secs * 1_000_000_000 + b.nanos,
{
    if a.secs < b.secs {
        assert(a.secs * 1_000_000_000 + 1_000_000_000 <= b.secs * 1_000_000_000);
    } else if a.secs > b.secs {
        assert(b.secs * 1_000_000_000 + 1_000_000_000 <= a.secs * 1_000_000_000);
    }
}

/// A filter selects a row exactly where the row meets each condition that is set.
pub proof fn law_filter_conditions(filter: Filter, row: Model, res: bool)
    requires
        call_ensures(Filter::matches, (&filter, &row), res),
    ensures
        res == filter@.selects(row@),
        res <==> {
            &&& filter.id matches Some(id) ==> row.id == id
            &&& filter.username matches Some(name) ==> row.username@ == name@
            &&& filter.token matches Some(token) ==> row.token@ == token@
            &&& filter.states matches Some(states) ==> states@.contains(row.state)
            &&& filter.created_at_after matches Some(time) ==> time.precedes(row.created_at)
            &&& filter.created_at_before matches Some(time) ==> row.created_at.precedes(time)
        },
{
}

/// The plain filters select by what they are named after, and by nothing else.
pub proof fn law_plain_filters(
    any: Filter,
    by_token: Filter,
    token: String,
    by_id: Filter,
    id: i32,
    by_owner: Filter,
    username: String,
    row: ModelView,
)
    requires
        call_ensures(Filter::any, (), any),
        call_ensures(Filter::by_token, (token,), by_token),
        call_ensures(Filter::by_id, (id,), by_id),
        call_ensures(Filter::by_owner, (id, username), by_owner),
    ensures
        any@.selects(row),
        by_token@.selects(row) <==> row.token == token@,
        by_id@.selects(row) <==> row.id == id,
        by_owner@.selects(row) <==> row.id == id && row.username == username@,
{
}

/// Changes set the columns that they name, and leave all others: what an application is known by
/// and whose it is never changes.
pub proof fn law_changes_set_their_columns(changes: Changes, row: Model, res: Model)
    requires
        call_ensures(Changes::apply, (changes, row), res),
    ensures
        res@ == changes@.applied(row@),
        res.id == row.id,
        res.created_at == row.created_at,
        res.username@ == row.username@,
        res.token@ == row.token@,
        res.state == (match changes.state {
            Some(state) => state,
            None => row.state,
        }),
        res@.address == (match changes.address {
            Some(Some(address)) => Some(address@),
            Some(None) => None,
            None => row@.address,
        }),
        res@.application_id == (match changes.application_id {
            Some(Some(id)) => Some(id@),
            Some(None) => None,
            None => row@.application_id,
        }),
{
}

/// Ending an application sets its state and takes its address; marking it sets the state alone.
pub proof fn law_plain_changes(state: State, end: Changes, mark: Changes, row: ModelView)
    requires
        call_ensures(Changes::end, (state,), end),
        call_ensures(Changes::state, (state,), mark),
    ensures
        end@.applied(row) == (ModelView { state, address: None, ..row }),
        mark@.applied(row) == (ModelView { state, ..row }),
{
}

/// An update changes the rows that its filter selects, each in its place, and no others.
pub proof fn law_update_changes_what_it_selects(
    table: Seq<ModelView>,
    filter: FilterView,
    changes: ChangesView,
    i: int,
)
    requires
        0 <= i < table.len(),
    ensures
        updated(table, filter, changes).len() == table.len(),
        filter.selects(table[i]) ==> updated(table, filter, changes)[i] == changes.applied(table[i]),
        !filter.selects(table[i]) ==> updated(table, filter, changes)[i] == table[i],
{
}

/// What is selected stays where it is, and what is deleted is exactly that.
pub proof fn law_selected_or_left(table: Seq<ModelView>, filter: FilterView, row: ModelView)
    ensures
        selected(table, filter).contains(row) <==> table.contains(row) && filter.selects(row),
        deleted(table, filter).contains(row) <==> table.contains(row) && !filter.selects(row),
{
    lemma_filter_holds(table, |r: ModelView| filter.selects(r), row);
    lemma_filter_holds(table, |r: ModelView| !filter.selects(r), row);
}

/// The update of one row fails where the store fails, and where the row is gone.
pub proof fn law_one_row_is_updated(rows: Result<u64, DbError>, res: Result<(), DbError>)
    requires
        call_ensures(one_updated, (rows,), res),
    ensures
        res is Ok <==> (rows matches Ok(count) && count > 0),
        rows matches Err(reason) ==> res == Err::<(), DbError>(reason),
        rows == Ok::<u64, DbError>(0) ==> res->Err_0.0@ == "None of the records are updated"@,
{
}

/// The numbers of statuses are those of HTTP.
pub proof fn law_statuses_are_http(status: StatusCode, number: u16)
    requires
        call_ensures(StatusCode::as_u16, (status,), number),
    ensures
        status == StatusCode::Success <==> number == 200,
        status == StatusCode::BadRequest <==> number == 400,
        status == StatusCode::Unauthorized <==> number == 401,
        status == StatusCode::NotFound <==> number == 404,
        status == StatusCode::InternalServerError <==> number == 500,
{
}

} // verus!
