//! The server's commands: serving, pruning old applications, and checking running ones.
use crate::application::{
    any_row, deleted, ended, is_one_update, lemma_filter_holds, one_updated, updated, Changes,
    DbError, Filter, FilterView, Model, ModelView, State, Timestamp, Update,
};
use crate::connection::{session_message, tells};
use crate::proxy::SessionMessage;
use crate::trusted::calendar::{at_second, FIRST_SECOND, LAST_SECOND};
use vstd::prelude::*;

verus! {

/// The command line.
pub struct Args {
    /// Path to the config file.
    pub config_file: Option<String>,
    pub command: Option<ProxyCommand>,
}

/// What the server is asked to do.
#[derive(Clone, Copy, PartialEq, Eq, Structural, Debug)]
pub enum ProxyCommand {
    /// Start the server.
    Start,
    /// Delete failed and finished applications that are at least so many seconds old.
    Prune { seconds: u64 },
    /// Probe running applications and mark unreachable ones as finished.
    Check,
}

impl Args {
    /// The command: to start, where none is given.
    pub fn command_or_start(&self) -> (res: ProxyCommand)
        ensures
            res == (match self.command {
                Some(command) => command,
                None => ProxyCommand::Start,
            }),
    {
        match self.command {
            Some(command) => command,
            None => ProxyCommand::Start,
        }
    }
}

/// The time before which applications are old, in seconds since the epoch: as far before `now`
/// as the given age, or the first or last second that can be counted where that lies beyond.
pub open spec fn cutoff_second(now: u64, age: u64) -> int {
    if now - age < i64::MIN {
        i64::MIN as int
    } else if now - age > i64::MAX {
        i64::MAX as int
    } else {
        now - age
    }
}

fn seconds_before(now: u64, age: u64) -> (res: i64)
    ensures
        res == cutoff_second(now, age),
{
    if now >= age {
        let since: u64 = now - age;
        if since > i64::MAX as u64 {
            i64::MAX
        } else {
            since as i64
        }
    } else {
        let before: u64 = age - now;
        if before > i64::MAX as u64 {
            i64::MIN
        } else {
            -(before as i64)
        }
    }
}

/// The time up to which applications are old lies outside of the calendar.
#[derive(Debug)]
pub struct NoCutoff;

impl NoCutoff {
    /// The error in words.
    pub fn message(&self) -> (res: &'static str)
        ensures
            res@ == "Failed to create prune cutoff timestamp"@,
    {
        "Failed to create prune cutoff timestamp"
    }
}

/// The applications that are over and were created at or before the given time.
pub open spec fn over_since(time: Timestamp) -> FilterView {
    FilterView {
        states: Some(seq![State::FAILED, State::FINISHED]),
        created_at_before: Some(time),
        ..any_row()
    }
}

/// Which applications to delete: those that are over and at least so many seconds old.
pub fn prune(now_seconds: u64, older_than_seconds: u64) -> (res: Result<Filter, NoCutoff>)
    ensures
        ({
            let cutoff = cutoff_second(now_seconds, older_than_seconds);
            match res {
                Ok(filter) => {
                    &&& FIRST_SECOND <= cutoff <= LAST_SECOND
                    &&& filter@ == over_since(Timestamp { secs: cutoff as i64, nanos: 0 })
                },
                Err(_) => !(FIRST_SECOND <= cutoff <= LAST_SECOND),
            }
        }),
{
    let cutoff = match at_second(seconds_before(now_seconds, older_than_seconds)) {
        Some(time) => time,
        None => {
            return Err(NoCutoff);
        },
    };
    let mut states: Vec<State> = Vec::new();
    states.push(State::FAILED);
    states.push(State::FINISHED);
    assert(states@ =~= seq![State::FAILED, State::FINISHED]);
    Ok(
        Filter {
            id: None,
            username: None,
            token: None,
            states: Some(states),
            created_at_after: None,
            created_at_before: Some(cutoff),
        },
    )
}

/// Pruning deletes exactly the applications that are over and old enough: what is launching or
/// running stays, whatever its age, and so does what is younger.
pub proof fn law_prune_is_exact(table: Seq<ModelView>, now: u64, age: u64, row: ModelView)
    requires
        FIRST_SECOND <= cutoff_second(now, age) <= LAST_SECOND,
    ensures
        ({
            let filter = over_since(Timestamp { secs: cutoff_second(now, age) as i64, nanos: 0 });
            deleted(table, filter).contains(row) <==> {
                &&& table.contains(row)
                &&& !row.state.is_over() || now - row.created_at.secs < age || (now
                    - row.created_at.secs == age && row.created_at.nanos > 0)
            }
        }),
{
    let filter = over_since(Timestamp { secs: cutoff_second(now, age) as i64, nanos: 0 });
    lemma_filter_holds(table, |r: ModelView| !filter.selects(r), row);
    let over = seq![State::FAILED, State::FINISHED];
    assert(over[0] == State::FAILED && over[1] == State::FINISHED);
    assert(over.contains(row.state) <==> row.state.is_over());
}

/// Which applications to probe: those that run.
pub fn check_query() -> (res: Filter)
    ensures
        res@ == (FilterView { states: Some(seq![State::RUNNING]), ..any_row() }),
{
    let mut states: Vec<State> = Vec::new();
    states.push(State::RUNNING);
    assert(states@ =~= seq![State::RUNNING]);
    Filter { states: Some(states), ..Filter::any() }
}

/// A check of the running applications, one after the other.
pub struct HealthCheck {
    pub apps: Vec<Model>,
    /// The application that is being checked.
    pub next: usize,
    /// How many applications were marked as finished.
    pub finished: usize,
}

/// What to do for the application that is being checked.
pub enum CheckStep {
    /// Probe it with the message.
    Probe(SessionMessage),
    /// Make the update.
    Finish(Update),
    /// All are checked; so many were marked as finished.
    Done(usize),
}

/// Whether the update ends the application in the row, as one that is finished.
pub open spec fn finishes(update: Update, row: Model) -> bool {
    &&& update.filter@ == (FilterView { id: Some(row.id), ..any_row() })
    &&& update.changes@ == ended(State::FINISHED)
}

impl HealthCheck {
    /// The counts are in order.
    pub open spec fn wf(self) -> bool {
        self.finished <= self.next <= self.apps.len()
    }

    /// Begins to check the applications that the store found.
    pub fn start(apps: Vec<Model>) -> (res: HealthCheck)
        ensures
            res == (HealthCheck { apps, next: 0, finished: 0 }),
            res.wf(),
    {
        HealthCheck { apps, next: 0, finished: 0 }
    }

    /// What to do for the next application. One without an address is finished; any other is
    /// probed.
    pub fn step(&self) -> (res: CheckStep)
        requires
            self.wf(),
        ensures
            match res {
                CheckStep::Done(count) => self.next == self.apps.len() && count == self.finished,
                CheckStep::Finish(update) => {
                    &&& self.next < self.apps.len()
                    &&& self.apps@[self.next as int].address is None
                    &&& finishes(update, self.apps@[self.next as int])
                    &&& brings_on(update, model_views(self.apps@), self.next as int)
                },
                CheckStep::Probe(message) => {
                    &&& self.next < self.apps.len()
                    &&& self.apps@[self.next as int].address matches Some(address)
                    &&& tells(
                        message,
                        address@,
                        self.apps@[self.next as int].token@,
                        "health"@,
                    )
                },
            },
    {
        if self.next == self.apps.len() {
            return CheckStep::Done(self.finished);
        }
        let app = &self.apps[self.next];
        match &app.address {
            Some(address) => CheckStep::Probe(
                session_message(address.as_str(), app.token.as_str(), "health"),
            ),
            None => CheckStep::Finish(finish_update(app.id)),
        }
    }

    /// Goes on after the application was probed: one that did not answer is finished, and one
    /// that did is left as it is.
    pub fn probed(&mut self, result: Result<(), String>) -> (res: Option<Update>)
        requires
            old(self).wf(),
            old(self).next < old(self).apps.len(),
        ensures
            final(self).wf(),
            final(self).apps == old(self).apps,
            final(self).finished == old(self).finished,
            match res {
                None => {
                    &&& result is Ok
                    &&& final(self).next == old(self).next + 1
                    &&& leaves_alone(model_views(old(self).apps@), old(self).next as int)
                },
                Some(update) => {
                    &&& result is Err
                    &&& final(self).next == old(self).next
                    &&& finishes(update, old(self).apps@[old(self).next as int])
                    &&& brings_on(update, model_views(old(self).apps@), old(self).next as int)
                },
            },
    {
        match result {
            Ok(_) => {
                self.next = self.next + 1;
                None
            },
            Err(_) => Some(finish_update(self.apps[self.next].id)),
        }
    }

    /// Goes on after the application was marked as finished in so many rows, or stops where that
    /// failed or the application is gone.
    pub fn marked(&mut self, rows_affected: Result<u64, DbError>) -> (res: Result<(), DbError>)
        requires
            old(self).wf(),
            old(self).next < old(self).apps.len(),
        ensures
            is_one_update(rows_affected, res),
            final(self).wf(),
            final(self).apps == old(self).apps,
            res is Ok ==> final(self).next == old(self).next + 1 && final(self).finished
                == old(self).finished + 1,
            res is Err ==> final(self).next == old(self).next && final(self).finished
                == old(self).finished,
    {
        match one_updated(rows_affected) {
            Ok(done) => {
                self.next = self.next + 1;
                self.finished = self.finished + 1;
                Ok(done)
            },
            Err(e) => Err(e),
        }
    }
}

/// Finishing an application changes no other application, as long as numbers tell applications
/// apart.
pub proof fn law_finishing_changes_one_application(table: Seq<ModelView>, app: int, i: int)
    requires
        0 <= app < table.len(),
        0 <= i < table.len(),
        forall|j: int, k: int|
            0 <= j < k < table.len() ==> (#[trigger] table[j]).id != (#[trigger] table[k]).id,
    ensures
        ({
            let filter = FilterView { id: Some(table[app].id), ..any_row() };
            let after = updated(table, filter, ended(State::FINISHED));
            &&& after.len() == table.len()
            &&& i != app ==> after[i] == table[i]
            &&& after[app].state == State::FINISHED
            &&& after[app].address is None
        }),
{
}

/// Whether an application is reachable: it has an address, and has answered its probe.
pub open spec fn is_reachable(app: ModelView, answered: bool) -> bool {
    app.address is Some && answered
}

/// The table once the first `n` of the applications are checked, where `answered[i]` says whether
/// the application `apps[i]` has answered its probe.
pub open spec fn checked(
    table: Seq<ModelView>,
    apps: Seq<ModelView>,
    answered: Seq<bool>,
    n: int,
) -> Seq<ModelView>
    decreases n,
{
    if n <= 0 {
        table
    } else if is_reachable(apps[n - 1], answered[n - 1]) {
        checked(table, apps, answered, n - 1)
    } else {
        updated(
            checked(table, apps, answered, n - 1),
            FilterView { id: Some(apps[n - 1].id), ..any_row() },
            ended(State::FINISHED),
        )
    }
}

/// The views of a sequence of rows.
pub open spec fn model_views(apps: Seq<Model>) -> Seq<ModelView> {
    apps.map_values(|app: Model| app@)
}

/// Whether the update makes the table right for the application `apps[next]`, where that is not
/// reachable: whatever the table was and the others have answered, it takes the table from before
/// the application is checked to after.
pub open spec fn brings_on(update: Update, apps: Seq<ModelView>, next: int) -> bool {
    forall|table: Seq<ModelView>, answered: Seq<bool>|
        !is_reachable(apps[next], answered[next]) ==> updated(
            #[trigger] checked(table, apps, answered, next),
            update.filter@,
            update.changes@,
        ) == checked(table, apps, answered, next + 1)
}

/// Whether the table needs no update for the application `apps[next]`, where that is reachable.
pub open spec fn leaves_alone(apps: Seq<ModelView>, next: int) -> bool {
    forall|table: Seq<ModelView>, answered: Seq<bool>|
        is_reachable(apps[next], answered[next]) ==> #[trigger] checked(
            table,
            apps,
            answered,
            next,
        ) == checked(table, apps, answered, next + 1)
}

/// The table after the first `n` of the updates, where there is one, in their order.
pub open spec fn all_updated(
    table: Seq<ModelView>,
    updates: Seq<Option<Update>>,
    n: int,
) -> Seq<ModelView>
    decreases n,
{
    if n <= 0 {
        table
    } else {
        match updates[n - 1] {
            Some(update) => updated(
                all_updated(table, updates, n - 1),
                update.filter@,
                update.changes@,
            ),
            None => all_updated(table, updates, n - 1),
        }
    }
}

/// A whole check builds the table that it should: the updates that its steps ask for, one for
/// each application that is not reachable and none for the others, make of every table what
/// `checked` says.
pub proof fn law_check_builds_the_table(
    table: Seq<ModelView>,
    apps: Seq<ModelView>,
    answered: Seq<bool>,
    updates: Seq<Option<Update>>,
    n: int,
)
    requires
        0 <= n <= apps.len(),
        forall|i: int|
            0 <= i < n ==> match #[trigger] updates[i] {
                Some(update) => !is_reachable(apps[i], answered[i]) && brings_on(update, apps, i),
                None => is_reachable(apps[i], answered[i]),
            },
    ensures
        all_updated(table, updates, n) == checked(table, apps, answered, n),
    decreases n,
{
    if n > 0 {
        law_check_builds_the_table(table, apps, answered, updates, n - 1);
        let last = updates[n - 1];
        if let Some(update) = last {
            assert(brings_on(update, apps, n - 1));
        }
    }
}

/// Whether one of the first `n` applications has the number and is not reachable.
pub open spec fn is_unreachable(
    apps: Seq<ModelView>,
    answered: Seq<bool>,
    n: int,
    id: i32,
) -> bool {
    exists|k: int|
        0 <= k < n && (#[trigger] apps[k]).id == id && !is_reachable(apps[k], answered[k])
}

/// A check ends exactly the applications that are not reachable: they are finished and have no
/// address, and all others stay as they are.
pub proof fn law_check_is_exact(
    table: Seq<ModelView>,
    apps: Seq<ModelView>,
    answered: Seq<bool>,
    n: int,
    i: int,
)
    requires
        0 <= n <= apps.len(),
        0 <= i < table.len(),
    ensures
        checked(table, apps, answered, n).len() == table.len(),
        checked(table, apps, answered, n)[i] == (if is_unreachable(
            apps,
            answered,
            n,
            table[i].id,
        ) {
            ended(State::FINISHED).applied(table[i])
        } else {
            table[i]
        }),
    decreases n,
{
    if n > 0 {
        let id = table[i].id;
        law_check_is_exact(table, apps, answered, n - 1, i);
        if is_unreachable(apps, answered, n - 1, id) {
            let k = choose|k: int|
                0 <= k < n - 1 && (#[trigger] apps[k]).id == id && !is_reachable(
                    apps[k],
                    answered[k],
                );
            assert(is_unreachable(apps, answered, n, id)) by {
                assert(apps[k].id == id);
            }
        } else if apps[n - 1].id == id && !is_reachable(apps[n - 1], answered[n - 1]) {
            assert(is_unreachable(apps, answered, n, id));
        } else {
            assert(!is_unreachable(apps, answered, n, id));
        }
    }
}

fn finish_update(id: i32) -> (res: Update)
    ensures
        res.filter@ == (FilterView { id: Some(id), ..any_row() }),
        res.changes@ == ended(State::FINISHED),
{
    Update { filter: Filter::by_id(id), changes: Changes::end(State::FINISHED) }
}

/// How far a server that was started has come.
#[derive(Clone, Copy, PartialEq, Eq, Structural, Debug)]
pub enum ServerState {
    /// It takes connections.
    Accepting,
    /// It takes no more connections, and waits for those that are open.
    Draining,
    /// It has ended.
    Stopped,
}

/// What happens to a server.
#[derive(Clone, Copy, PartialEq, Eq, Structural, Debug)]
pub enum ServerEvent {
    Connected,
    ShutdownSignal,
    /// No connection is open any more.
    AllClosed,
}

/// What a server does.
#[derive(Clone, Copy, PartialEq, Eq, Structural, Debug)]
pub enum ServerAction {
    /// Serve the connection that came in, after the TLS handshake where `tls` is set.
    Serve { tls: bool },
    /// Close the listener.
    StopListening,
    /// End.
    Return,
    Nothing,
}

/// What a server does when something happens to it.
pub open spec fn server_turn(state: ServerState, event: ServerEvent, tls: bool) -> (
    ServerState,
    ServerAction,
) {
    match (state, event) {
        (ServerState::Accepting, ServerEvent::Connected) => (
            ServerState::Accepting,
            ServerAction::Serve { tls },
        ),
        (ServerState::Accepting, ServerEvent::ShutdownSignal) => (
            ServerState::Draining,
            ServerAction::StopListening,
        ),
        (ServerState::Draining, ServerEvent::AllClosed) => (
            ServerState::Stopped,
            ServerAction::Return,
        ),
        _ => (state, ServerAction::Nothing),
    }
}

impl ServerState {
    /// What a server does when something happens to it.
    pub fn next(self, event: ServerEvent, tls: bool) -> (res: (ServerState, ServerAction))
        ensures
            res == server_turn(self, event, tls),
    {
        match (self, event) {
            (ServerState::Accepting, ServerEvent::Connected) => (
                ServerState::Accepting,
                ServerAction::Serve { tls },
            ),
            (ServerState::Accepting, ServerEvent::ShutdownSignal) => (
                ServerState::Draining,
                ServerAction::StopListening,
            ),
            (ServerState::Draining, ServerEvent::AllClosed) => (
                ServerState::Stopped,
                ServerAction::Return,
            ),
            _ => (self, ServerAction::Nothing),
        }
    }
}

/// The state after a series of events.
pub open spec fn server_after(
    state: ServerState,
    events: Seq<ServerEvent>,
    tls: bool,
) -> ServerState
    decreases events.len(),
{
    if events.len() == 0 {
        state
    } else {
        server_turn(server_after(state, events.drop_last(), tls), events.last(), tls).0
    }
}

/// Shutting down is graceful: once it has begun, no connection is taken any more, and the server
/// ends only when all connections are closed.
pub proof fn law_shutdown_is_graceful(events: Seq<ServerEvent>, event: ServerEvent, tls: bool)
    requires
        events.contains(ServerEvent::ShutdownSignal),
    ensures
        ({
            let state = server_after(ServerState::Accepting, events, tls);
            let (next, action) = server_turn(state, event, tls);
            &&& action !is Serve
            &&& action is Return ==> event == ServerEvent::AllClosed
            &&& state != ServerState::Accepting
        }),
    decreases events.len(),
{
    let earlier = events.drop_last();
    if earlier.contains(ServerEvent::ShutdownSignal) {
        law_shutdown_is_graceful(earlier, events.last(), tls);
    } else {
        let i = choose|i: int| 0 <= i < events.len() && events[i] == ServerEvent::ShutdownSignal;
        if i < events.len() - 1 {
            assert(earlier[i] == ServerEvent::ShutdownSignal);
        }
    }
}

/// What happens to a connection that is served.
#[derive(Clone, Copy, PartialEq, Eq, Structural, Debug)]
pub enum ConnectionEvent {
    /// It has ended, with or without an error.
    Ended,
    ShutdownSignal,
}

/// What is done with a connection that is served.
#[derive(Clone, Copy, PartialEq, Eq, Structural, Debug)]
pub enum ConnectionAction {
    /// It is let go.
    Close,
    /// It is told to end once its requests are answered.
    ShutDownGracefully,
}

/// What is done with a connection when something happens to it.
pub fn connection_turn(event: ConnectionEvent) -> (res: ConnectionAction)
    ensures
        res == (match event {
            ConnectionEvent::Ended => ConnectionAction::Close,
            ConnectionEvent::ShutdownSignal => ConnectionAction::ShutDownGracefully,
        }),
{
    match event {
        ConnectionEvent::Ended => ConnectionAction::Close,
        ConnectionEvent::ShutdownSignal => ConnectionAction::ShutDownGracefully,
    }
}

} // verus!
