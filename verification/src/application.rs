//! The table of applications: its rows, which rows a filter selects, and what an update does
//! to a row.
use crate::text::{equals, opt_view};
use vstd::prelude::*;

verus! {

/// The state of an application.
#[derive(Clone, Copy, PartialEq, Eq, Structural, Debug)]
pub enum State {
    LAUNCHING,
    RUNNING,
    FINISHED,
    FAILED,
}

impl State {
    /// The name of the state, as it is stored and shown.
    pub open spec fn name(self) -> Seq<char> {
        match self {
            State::LAUNCHING => "LAUNCHING"@,
            State::RUNNING => "RUNNING"@,
            State::FINISHED => "FINISHED"@,
            State::FAILED => "FAILED"@,
        }
    }

    /// Whether the application is over.
    pub open spec fn is_over(self) -> bool {
        self == State::FINISHED || self == State::FAILED
    }

    /// The name of the state.
    pub fn to_value(self) -> (res: &'static str)
        ensures
            res@ == self.name(),
    {
        match self {
            State::LAUNCHING => "LAUNCHING",
            State::RUNNING => "RUNNING",
            State::FINISHED => "FINISHED",
            State::FAILED => "FAILED",
        }
    }

    /// The state of the given name.
    pub fn try_from_value(value: &str) -> (res: Option<State>)
        ensures
            match res {
                Some(state) => value@ == state.name(),
                None => forall|other: State| value@ != #[trigger] other.name(),
            },
    {
        if equals(value, "LAUNCHING") {
            Some(State::LAUNCHING)
        } else if equals(value, "RUNNING") {
            Some(State::RUNNING)
        } else if equals(value, "FINISHED") {
            Some(State::FINISHED)
        } else if equals(value, "FAILED") {
            Some(State::FAILED)
        } else {
            None
        }
    }
}

/// A state is told by its name: reading a name that was written gives the state back.
pub proof fn law_state_names_differ(a: State, b: State)
    requires
        a.name() == b.name(),
    ensures
        a == b,
{
    reveal_strlit("LAUNCHING");
    reveal_strlit("RUNNING");
    reveal_strlit("FINISHED");
    reveal_strlit("FAILED");
    assert("LAUNCHING"@[0] == 'L');
    assert("RUNNING"@[0] == 'R');
    assert("FINISHED"@[1] == 'I');
    assert("FAILED"@[1] == 'A');
    assert("FINISHED"@[0] == 'F');
    assert("FAILED"@[0] == 'F');
}

/// A point in time: seconds since the epoch, and nanoseconds into the second.
#[derive(Clone, Copy, PartialEq, Eq, Structural, Debug)]
pub struct Timestamp {
    pub secs: i64,
    pub nanos: u32,
}

impl Timestamp {
    /// Whether this is no later than `other`.
    pub open spec fn precedes(self, other: Timestamp) -> bool {
        self.secs < other.secs || (self.secs == other.secs && self.nanos <= other.nanos)
    }

    /// Whether this is no later than `other`.
    pub fn at_or_before(self, other: Timestamp) -> (res: bool)
        ensures
            res == self.precedes(other),
    {
        self.secs < other.secs || (self.secs == other.secs && self.nanos <= other.nanos)
    }
}

/// A row of the table.
#[derive(Debug)]
pub struct Model {
    pub id: i32,
    pub created_at: Timestamp,
    pub username: String,
    pub state: State,
    pub token: String,
    /// Where the application listens, once it has called back.
    pub address: Option<String>,
    /// What the cluster calls the application, once it has called back.
    pub application_id: Option<String>,
}

/// What a row holds.
pub struct ModelView {
    pub id: i32,
    pub created_at: Timestamp,
    pub username: Seq<char>,
    pub state: State,
    pub token: Seq<char>,
    pub address: Option<Seq<char>>,
    pub application_id: Option<Seq<char>>,
}

impl View for Model {
    type V = ModelView;

    open spec fn view(&self) -> ModelView {
        ModelView {
            id: self.id,
            created_at: self.created_at,
            username: self.username@,
            state: self.state,
            token: self.token@,
            address: opt_view(self.address),
            application_id: opt_view(self.application_id),
        }
    }
}

/// What is stored of a new application; the store adds its number and the time.
pub struct NewRow {
    pub username: String,
    pub state: State,
    pub token: String,
}

/// Whether `row` is what the store makes of `new`.
pub open spec fn row_of(new: NewRow, row: ModelView) -> bool {
    &&& row.username == new.username@
    &&& row.state == new.state
    &&& row.token == new.token@
    &&& row.address is None
    &&& row.application_id is None
}

/// Which rows a query or an update is about: those that meet every condition that is set.
#[derive(Debug)]
pub struct Filter {
    pub id: Option<i32>,
    pub username: Option<String>,
    pub token: Option<String>,
    /// The row's state is among these.
    pub states: Option<Vec<State>>,
    /// The row was created at this time or later.
    pub created_at_after: Option<Timestamp>,
    /// The row was created at this time or earlier.
    pub created_at_before: Option<Timestamp>,
}

/// What a `Filter` holds.
pub struct FilterView {
    pub id: Option<i32>,
    pub username: Option<Seq<char>>,
    pub token: Option<Seq<char>>,
    pub states: Option<Seq<State>>,
    pub created_at_after: Option<Timestamp>,
    pub created_at_before: Option<Timestamp>,
}

impl View for Filter {
    type V = FilterView;

    open spec fn view(&self) -> FilterView {
        FilterView {
            id: self.id,
            username: opt_view(self.username),
            token: opt_view(self.token),
            states: match self.states {
                Some(states) => Some(states@),
                None => None,
            },
            created_at_after: self.created_at_after,
            created_at_before: self.created_at_before,
        }
    }
}

/// The filter that every row meets.
pub open spec fn any_row() -> FilterView {
    FilterView {
        id: None,
        username: None,
        token: None,
        states: None,
        created_at_after: None,
        created_at_before: None,
    }
}

impl FilterView {
    /// Whether `row` meets the conditions.
    pub open spec fn selects(self, row: ModelView) -> bool {
        &&& self.id is Some ==> self.id == Some(row.id)
        &&& self.username is Some ==> self.username == Some(row.username)
        &&& self.token is Some ==> self.token == Some(row.token)
        &&& self.states matches Some(states) ==> states.contains(row.state)
        &&& self.created_at_after matches Some(time) ==> time.precedes(row.created_at)
        &&& self.created_at_before matches Some(time) ==> row.created_at.precedes(time)
    }
}

impl Filter {
    /// The filter that every row meets.
    pub fn any() -> (res: Filter)
        ensures
            res@ == any_row(),
    {
        Filter {
            id: None,
            username: None,
            token: None,
            states: None,
            created_at_after: None,
            created_at_before: None,
        }
    }

    /// The rows with the given token.
    pub fn by_token(token: String) -> (res: Filter)
        ensures
            res@ == (FilterView { token: Some(token@), ..any_row() }),
    {
        Filter {
            id: None,
            username: None,
            token: Some(token),
            states: None,
            created_at_after: None,
            created_at_before: None,
        }
    }

    /// The row with the given number.
    pub fn by_id(id: i32) -> (res: Filter)
        ensures
            res@ == (FilterView { id: Some(id), ..any_row() }),
    {
        Filter {
            id: Some(id),
            username: None,
            token: None,
            states: None,
            created_at_after: None,
            created_at_before: None,
        }
    }

    /// The row with the given number, if it is the user's own.
    pub fn by_owner(id: i32, username: String) -> (res: Filter)
        ensures
            res@ == (FilterView { id: Some(id), username: Some(username@), ..any_row() }),
    {
        Filter {
            id: Some(id),
            username: Some(username),
            token: None,
            states: None,
            created_at_after: None,
            created_at_before: None,
        }
    }

    /// Whether `row` meets the conditions.
    pub fn matches(&self, row: &Model) -> (res: bool)
        ensures
            res == self@.selects(row@),
    {
        if let Some(id) = self.id {
            if id != row.id {
                return false;
            }
        }
        if let Some(username) = &self.username {
            if !equals(username.as_str(), row.username.as_str()) {
                return false;
            }
        }
        if let Some(token) = &self.token {
            if !equals(token.as_str(), row.token.as_str()) {
                return false;
            }
        }
        if let Some(states) = &self.states {
            if !has_state(states, row.state) {
                return false;
            }
        }
        if let Some(time) = self.created_at_after {
            if !time.at_or_before(row.created_at) {
                return false;
            }
        }
        if let Some(time) = self.created_at_before {
            if !row.created_at.at_or_before(time) {
                return false;
            }
        }
        true
    }
}

/// Whether `state` is among `states`.
fn has_state(states: &Vec<State>, state: State) -> (res: bool)
    ensures
        res == states@.contains(state),
{
    let mut i: usize = 0;
    while i < states.len()
        invariant
            i <= states.len(),
            forall|j: int| 0 <= j < i ==> states@[j] != state,
        decreases states.len() - i,
    {
        if states[i] == state {
            return true;
        }
        i += 1;
    }
    false
}

/// What an update sets. A column that is not set stays as it is.
pub struct Changes {
    pub state: Option<State>,
    pub address: Option<Option<String>>,
    pub application_id: Option<Option<String>>,
}

/// What `Changes` hold.
pub struct ChangesView {
    pub state: Option<State>,
    pub address: Option<Option<Seq<char>>>,
    pub application_id: Option<Option<Seq<char>>>,
}

/// The view of an optional column.
pub open spec fn column_view(column: Option<Option<String>>) -> Option<Option<Seq<char>>> {
    match column {
        Some(value) => Some(opt_view(value)),
        None => None,
    }
}

impl View for Changes {
    type V = ChangesView;

    open spec fn view(&self) -> ChangesView {
        ChangesView {
            state: self.state,
            address: column_view(self.address),
            application_id: column_view(self.application_id),
        }
    }
}

impl ChangesView {
    /// The row with the changes made.
    pub open spec fn applied(self, row: ModelView) -> ModelView {
        ModelView {
            state: match self.state {
                Some(state) => state,
                None => row.state,
            },
            address: match self.address {
                Some(address) => address,
                None => row.address,
            },
            application_id: match self.application_id {
                Some(id) => id,
                None => row.application_id,
            },
            ..row
        }
    }
}

/// The changes that end an application: it is in the given state and has no address.
pub open spec fn ended(state: State) -> ChangesView {
    ChangesView { state: Some(state), address: Some(None), application_id: None }
}

impl Changes {
    /// Ends an application.
    pub fn end(state: State) -> (res: Changes)
        ensures
            res@ == ended(state),
    {
        Changes { state: Some(state), address: Some(None), application_id: None }
    }

    /// Sets the state alone.
    pub fn state(state: State) -> (res: Changes)
        ensures
            res@ == (ChangesView { state: Some(state), address: None, application_id: None }),
    {
        Changes { state: Some(state), address: None, application_id: None }
    }

    /// The row with the changes made.
    pub fn apply(self, row: Model) -> (res: Model)
        ensures
            res@ == self@.applied(row@),
    {
        Model {
            state: match self.state {
                Some(state) => state,
                None => row.state,
            },
            address: match self.address {
                Some(address) => address,
                None => row.address,
            },
            application_id: match self.application_id {
                Some(id) => id,
                None => row.application_id,
            },
            ..row
        }
    }
}

/// An update of the rows that meet a filter.
pub struct Update {
    pub filter: Filter,
    pub changes: Changes,
}

/// The rows of a table that meet the filter.
pub open spec fn selected(table: Seq<ModelView>, filter: FilterView) -> Seq<ModelView> {
    table.filter(|row: ModelView| filter.selects(row))
}

/// The table after an update of the rows that meet the filter.
pub open spec fn updated(
    table: Seq<ModelView>,
    filter: FilterView,
    changes: ChangesView,
) -> Seq<ModelView> {
    table.map_values(
        |row: ModelView|
            if filter.selects(row) {
                changes.applied(row)
            } else {
                row
            },
    )
}

/// The table without the rows that meet the filter.
pub open spec fn deleted(table: Seq<ModelView>, filter: FilterView) -> Seq<ModelView> {
    table.filter(|row: ModelView| !filter.selects(row))
}

/// A filtered sequence holds exactly those of the elements that meet the condition.
pub proof fn lemma_filter_holds<A>(all: Seq<A>, pred: spec_fn(A) -> bool, x: A)
    ensures
        all.filter(pred).contains(x) <==> all.contains(x) && pred(x),
    decreases all.len(),
{
    reveal(Seq::filter);
    if all.len() > 0 {
        let rest = all.drop_last();
        let last = all.last();
        lemma_filter_holds(rest, pred, x);
        assert(all =~= rest.push(last));
        assert(all.contains(x) <==> rest.contains(x) || x == last) by {
            if rest.contains(x) {
                let i = choose|i: int| 0 <= i < rest.len() && rest[i] == x;
                assert(all[i] == x);
            }
            assert(all[all.len() - 1] == last);
        }
        let kept = rest.filter(pred);
        if pred(last) {
            assert(all.filter(pred) =~= kept.push(last));
            if kept.contains(x) {
                let i = choose|i: int| 0 <= i < kept.len() && kept[i] == x;
                assert(kept.push(last)[i] == x);
            }
            assert(kept.push(last)[kept.len() as int] == last);
        }
    }
}

/// Whether an application has an address exactly while it runs.
pub open spec fn active_means_running(row: ModelView) -> bool {
    row.address is Some <==> row.state == State::RUNNING
}

/// The store failed, with the reason in words.
#[derive(Debug)]
pub struct DbError(pub String);

/// What the store says where the row that an update is for is gone.
pub const NOT_UPDATED: &'static str = "None of the records are updated";

/// Whether `res` is what came of the update of one row: a failure of the store, or that the row
/// is gone where no row was updated.
pub open spec fn is_one_update(
    rows_affected: Result<u64, DbError>,
    res: Result<(), DbError>,
) -> bool {
    match rows_affected {
        Ok(rows) => if rows == 0 {
            res matches Err(reason) && reason.0@ == NOT_UPDATED@
        } else {
            res is Ok
        },
        Err(reason) => res == Err::<(), DbError>(reason),
    }
}

/// What came of the update of one row.
pub fn one_updated(rows_affected: Result<u64, DbError>) -> (res: Result<(), DbError>)
    ensures
        is_one_update(rows_affected, res),
{
    match rows_affected {
        Ok(rows) => if rows == 0 {
            Err(DbError(NOT_UPDATED.to_owned()))
        } else {
            Ok(())
        },
        Err(reason) => Err(reason),
    }
}

/// What the store answered to a query for one row.
pub open spec fn found_view(found: Result<Option<Model>, DbError>) -> Result<
    Option<ModelView>,
    Seq<char>,
> {
    match found {
        Ok(Some(row)) => Ok(Some(row@)),
        Ok(None) => Ok(None),
        Err(reason) => Err(reason.0@),
    }
}

/// The status of a reply.
#[derive(Clone, Copy, PartialEq, Eq, Structural, Debug)]
pub enum StatusCode {
    Success,
    BadRequest,
    Unauthorized,
    NotFound,
    InternalServerError,
}

impl StatusCode {
    /// The number of the status.
    pub open spec fn number(self) -> u16 {
        match self {
            StatusCode::Success => 200,
            StatusCode::BadRequest => 400,
            StatusCode::Unauthorized => 401,
            StatusCode::NotFound => 404,
            StatusCode::InternalServerError => 500,
        }
    }

    /// The number of the status.
    pub fn as_u16(self) -> (res: u16)
        ensures
            res == self.number(),
    {
        match self {
            StatusCode::Success => 200,
            StatusCode::BadRequest => 400,
            StatusCode::Unauthorized => 401,
            StatusCode::NotFound => 404,
            StatusCode::InternalServerError => 500,
        }
    }
}

} // verus!
