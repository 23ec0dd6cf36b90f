//! The API of the server: what users ask of their applications, and what applications report.
//!
//! Every handler is a series of steps. A step says what to ask of the store, the launcher or
//! the session; the next step takes the answer.
use crate::application::{
    active_means_running, any_row, deleted, ended, found_view, lemma_filter_holds, row_of, selected,
    updated, Changes, ChangesView, DbError, Filter, FilterView, Model, ModelView, NewRow, State,
    StatusCode, Timestamp, Update,
};
use crate::auth::{BearerToken, UserId};
use crate::config::{ui_url, ConfigMap, ProxyConfig};
use crate::connection::{session_message, tells};
use crate::proxy::SessionMessage;
use crate::text::{opt_view, pieces, split, trim, trimmed, views};
use crate::text_map::TextMap;
use crate::trusted::calendar::{parse_time, time_in_text};
use crate::trusted::token::{is_random_uuid, random_uuid};
use vstd::prelude::*;

verus! {

/// A request for a new application.
pub struct CreateApplicationRequest {
    pub version: Option<String>,
    pub config: Option<ConfigMap>,
    pub python_packages: Option<Vec<String>>,
}

/// A request for the user's applications.
pub struct ListApplicationsRequest {
    /// The states to list, separated by commas.
    pub state: Option<String>,
    pub created_at_after: Option<Timestamp>,
    pub created_at_before: Option<Timestamp>,
}

/// A request for the user's applications, as it comes in.
pub struct ListApplicationsQuery {
    pub state: Option<String>,
    pub created_at_after: Option<String>,
    pub created_at_before: Option<String>,
}

/// What was read of a point in time that a request may name.
#[derive(Clone, Copy, PartialEq, Eq, Structural, Debug)]
pub enum TimeRead {
    Absent,
    Unreadable,
    Time(Timestamp),
}

impl TimeRead {
    /// The time, if one was named.
    pub open spec fn time(self) -> Option<Timestamp> {
        match self {
            TimeRead::Time(time) => Some(time),
            _ => None,
        }
    }
}

/// What is read of a point in time that a request may name.
pub open spec fn time_read(text: Option<Seq<char>>) -> TimeRead {
    match text {
        None => TimeRead::Absent,
        Some(text) => match time_in_text(text) {
            Some((secs, nanos)) => TimeRead::Time(Timestamp { secs, nanos }),
            None => TimeRead::Unreadable,
        },
    }
}

/// Reads a point in time that a request may name.
fn read_time(text: &Option<String>) -> (res: TimeRead)
    ensures
        res == time_read(opt_view(*text)),
{
    match text {
        None => TimeRead::Absent,
        Some(text) => match parse_time(text.as_str()) {
            Some(time) => TimeRead::Time(time),
            None => TimeRead::Unreadable,
        },
    }
}

/// Whether `res` is the request with the given states and times, or a refusal where one of the
/// times cannot be read.
pub open spec fn is_list_request(
    state: Option<String>,
    after: TimeRead,
    before: TimeRead,
    res: Result<ListApplicationsRequest, StatusCode>,
) -> bool {
    match res {
        Ok(request) => {
            &&& after != TimeRead::Unreadable
            &&& before != TimeRead::Unreadable
            &&& request.state == state
            &&& request.created_at_after == after.time()
            &&& request.created_at_before == before.time()
        },
        Err(status) => {
            &&& after == TimeRead::Unreadable || before == TimeRead::Unreadable
            &&& status == StatusCode::BadRequest
        },
    }
}

/// A request for the user's applications, once the times in it have been read.
pub fn list_request(state: Option<String>, after: TimeRead, before: TimeRead) -> (res: Result<
    ListApplicationsRequest,
    StatusCode,
>)
    ensures
        is_list_request(state, after, before, res),
{
    let created_at_after = match after {
        TimeRead::Absent => None,
        TimeRead::Unreadable => {
            return Err(StatusCode::BadRequest);
        },
        TimeRead::Time(time) => Some(time),
    };
    let created_at_before = match before {
        TimeRead::Absent => None,
        TimeRead::Unreadable => {
            return Err(StatusCode::BadRequest);
        },
        TimeRead::Time(time) => Some(time),
    };
    Ok(ListApplicationsRequest { state, created_at_after, created_at_before })
}

/// Reads a request for the user's applications.
pub fn read_list_request(query: ListApplicationsQuery) -> (res: Result<
    ListApplicationsRequest,
    StatusCode,
>)
    ensures
        is_list_request(
            query.state,
            time_read(opt_view(query.created_at_after)),
            time_read(opt_view(query.created_at_before)),
            res,
        ),
{
    let after = read_time(&query.created_at_after);
    let before = read_time(&query.created_at_before);
    list_request(query.state, after, before)
}

/// What users are told of an application.
#[derive(PartialEq, Debug)]
pub struct ApplicationInfo {
    pub id: i32,
    pub token: String,
    pub state: String,
    pub active: bool,
    /// The address of the application's UI, if one is configured and known.
    pub ui_url: Option<String>,
}

/// What an `ApplicationInfo` says.
pub struct ApplicationInfoView {
    pub id: i32,
    pub token: Seq<char>,
    pub state: Seq<char>,
    pub active: bool,
    pub ui_url: Option<Seq<char>>,
}

impl View for ApplicationInfo {
    type V = ApplicationInfoView;

    open spec fn view(&self) -> ApplicationInfoView {
        ApplicationInfoView {
            id: self.id,
            token: self.token@,
            state: self.state@,
            active: self.active,
            ui_url: opt_view(self.ui_url),
        }
    }
}

/// What users are told of the application in the row.
pub open spec fn info_of(row: ModelView, config: ProxyConfig) -> ApplicationInfoView {
    ApplicationInfoView {
        id: row.id,
        token: row.token,
        state: row.state.name(),
        active: row.address is Some,
        ui_url: ui_url(opt_view(config.ui_url_template), row.application_id),
    }
}

impl ApplicationInfo {
    /// What users are told of the application in the row.
    pub fn of(row: Model, config: &ProxyConfig) -> (res: ApplicationInfo)
        ensures
            res@ == info_of(row@, *config),
    {
        let ui_url = config.render_ui_url(
            match &row.application_id {
                Some(id) => Some(id.as_str()),
                None => None,
            },
        );
        ApplicationInfo {
            id: row.id,
            token: row.token,
            state: row.state.to_value().to_owned(),
            active: row.address.is_some(),
            ui_url,
        }
    }
}

/// A new application that is being stored.
pub struct CreateApp {
    pub user: UserId,
    pub token: String,
    pub params: CreateApplicationRequest,
}

/// A new application that is being launched.
pub struct LaunchApp {
    pub row: Model,
}

/// What the launcher is asked for.
pub struct LaunchRequest {
    pub version: Option<String>,
    pub session_id: i32,
    pub app_name: Option<String>,
    pub username: String,
    pub token: String,
    pub user_config: ConfigMap,
    pub python_packages: Option<Vec<String>>,
}

/// What follows from a launch.
pub enum LaunchOutcome {
    /// The user is told of the application. Once the launch has ended, the update is made: an
    /// application that has not called back by then has failed.
    Started { info: ApplicationInfo, once_ended: Update },
    /// The update is made, and the user is told the status.
    Failed { update: Update, status: StatusCode },
}

/// The application of the given number, if it has not called back.
pub open spec fn still_launching(id: i32) -> FilterView {
    FilterView { id: Some(id), states: Some(seq![State::LAUNCHING]), ..any_row() }
}

/// The application has failed, and is otherwise as it was.
pub open spec fn marked_failed() -> ChangesView {
    ChangesView { state: Some(State::FAILED), address: None, application_id: None }
}

/// The settings that a request asks for.
pub open spec fn requested_settings(config: Option<ConfigMap>) -> Map<Seq<char>, String> {
    match config {
        Some(settings) => settings@,
        None => Map::empty(),
    }
}

/// Begins to create an application for the user, with a token of its own.
pub fn create_app(user: UserId, params: CreateApplicationRequest) -> (res: (CreateApp, NewRow))
    ensures
        is_random_uuid(res.0.token@),
        res.0.user == user,
        res.0.params == params,
        res.1.username@ == user.0@,
        res.1.state == State::LAUNCHING,
        res.1.token@ == res.0.token@,
{
    create_app_with_token(user, random_uuid(), params)
}

/// Begins to create an application with the given token: what is to be stored of it.
pub fn create_app_with_token(
    user: UserId,
    token: String,
    params: CreateApplicationRequest,
) -> (res: (CreateApp, NewRow))
    ensures
        res.0 == (CreateApp { user, token, params }),
        res.1.username@ == user.0@,
        res.1.state == State::LAUNCHING,
        res.1.token@ == token@,
{
    let row = NewRow {
        username: user.0.clone(),
        state: State::LAUNCHING,
        token: token.clone(),
    };
    (CreateApp { user, token, params }, row)
}

impl CreateApp {
    /// Goes on after the application was stored, or was not: what is to be launched.
    pub fn inserted(self, stored: Result<Model, DbError>) -> (res: Result<
        (LaunchApp, LaunchRequest),
        StatusCode,
    >)
        ensures
            match (stored, res) {
                (Ok(row), Ok((app, launch))) => {
                    &&& app.row == row
                    &&& launch.version == self.params.version
                    &&& launch.session_id == row.id
                    &&& launch.app_name is None
                    &&& launch.username == self.user.0
                    &&& launch.token == self.token
                    &&& launch.user_config@ == requested_settings(self.params.config)
                    &&& launch.python_packages == self.params.python_packages
                },
                (Err(_), Err(status)) => status == StatusCode::InternalServerError,
                _ => false,
            },
    {
        let row = match stored {
            Ok(row) => row,
            Err(_) => {
                return Err(StatusCode::InternalServerError);
            },
        };
        let user_config = match self.params.config {
            Some(settings) => settings,
            None => TextMap::new(),
        };
        let launch = LaunchRequest {
            version: self.params.version,
            session_id: row.id,
            app_name: None,
            username: self.user.0,
            token: self.token,
            user_config,
            python_packages: self.params.python_packages,
        };
        Ok((LaunchApp { row }, launch))
    }
}

impl LaunchApp {
    /// Goes on after the application was launched, or was not.
    pub fn launched(self, started: bool, config: &ProxyConfig) -> (res: LaunchOutcome)
        ensures
            match res {
                LaunchOutcome::Started { info, once_ended } => {
                    &&& started
                    &&& info@ == info_of(self.row@, *config)
                    &&& once_ended.filter@ == still_launching(self.row.id)
                    &&& once_ended.changes@ == marked_failed()
                },
                LaunchOutcome::Failed { update, status } => {
                    &&& !started
                    &&& update.filter@ == (FilterView { id: Some(self.row.id), ..any_row() })
                    &&& update.changes@ == marked_failed()
                    &&& status == StatusCode::InternalServerError
                },
            },
    {
        let id: i32 = self.row.id;
        if !started {
            return LaunchOutcome::Failed {
                update: Update {
                    filter: Filter::by_id(id),
                    changes: Changes::state(State::FAILED),
                },
                status: StatusCode::InternalServerError,
            };
        }
        let mut states: Vec<State> = Vec::new();
        states.push(State::LAUNCHING);
        assert(states@ =~= seq![State::LAUNCHING]);
        let filter = Filter { states: Some(states), ..Filter::by_id(id) };
        let once_ended = Update { filter, changes: Changes::state(State::FAILED) };
        LaunchOutcome::Started { info: ApplicationInfo::of(self.row, config), once_ended }
    }
}

/// The user's application of the given number, or the status that answers the request.
pub open spec fn own_app(found: Result<Option<ModelView>, Seq<char>>) -> Result<
    ModelView,
    StatusCode,
> {
    match found {
        Ok(Some(row)) => Ok(row),
        Ok(None) => Err(StatusCode::NotFound),
        Err(_) => Err(StatusCode::InternalServerError),
    }
}

/// What to ask the store for a user's application.
pub fn app_query(app_id: i32, user: &UserId) -> (res: Filter)
    ensures
        res@ == (FilterView { id: Some(app_id), username: Some(user.0@), ..any_row() }),
{
    Filter::by_owner(app_id, user.0.clone())
}

/// What the user is told of an application, once the store has answered `app_query`.
pub fn get_app(found: Result<Option<Model>, DbError>, config: &ProxyConfig) -> (res: Result<
    ApplicationInfo,
    StatusCode,
>)
    ensures
        match (own_app(found_view(found)), res) {
            (Ok(row), Ok(info)) => info@ == info_of(row, *config),
            (Err(status), Err(s)) => s == status,
            _ => false,
        },
{
    match found {
        Ok(Some(row)) => Ok(ApplicationInfo::of(row, config)),
        Ok(None) => Err(StatusCode::NotFound),
        Err(_) => Err(StatusCode::InternalServerError),
    }
}

/// The state of the given name, after blanks around it are cut off.
pub open spec fn state_named(name: Seq<char>, state: State) -> bool {
    trimmed(name) == state.name()
}

/// Whether `states` are the states that `names` name, in their order; blank names are passed
/// over.
pub open spec fn states_named(names: Seq<Seq<char>>, states: Seq<State>) -> bool
    decreases names.len(),
{
    if names.len() == 0 {
        states.len() == 0
    } else if trimmed(names.last()).len() == 0 {
        states_named(names.drop_last(), states)
    } else {
        &&& states.len() > 0
        &&& state_named(names.last(), states.last())
        &&& states_named(names.drop_last(), states.drop_last())
    }
}

/// Whether a name is neither blank nor the name of a state.
pub open spec fn names_no_state(name: Seq<char>) -> bool {
    trimmed(name).len() > 0 && forall|state: State| !#[trigger] state_named(name, state)
}

/// The states that a request lists, or a refusal where one of the names is unknown.
fn read_states(text: &str) -> (res: Result<Vec<State>, StatusCode>)
    ensures
        match res {
            Ok(states) => states_named(pieces(text@, ','), states@),
            Err(status) => {
                &&& status == StatusCode::BadRequest
                &&& exists|i: int|
                    0 <= i < pieces(text@, ',').len() && names_no_state(
                        #[trigger] pieces(text@, ',')[i],
                    )
            },
        },
{
    let names = split(text, ',');
    let ghost all = pieces(text@, ',');
    let mut states: Vec<State> = Vec::new();
    let mut i: usize = 0;
    assert(all.take(0) =~= Seq::<Seq<char>>::empty());
    while i < names.len()
        invariant
            i <= names.len(),
            views(names@) == all,
            all == pieces(text@, ','),
            states_named(all.take(i as int), states@),
        decreases names.len() - i,
    {
        assert(names@[i as int]@ == all[i as int]);
        assert(all.take(i + 1).drop_last() =~= all.take(i as int));
        assert(all.take(i + 1).last() == all[i as int]);
        let name = trim(names[i].as_str());
        if !name.as_str().is_empty() {
            match State::try_from_value(name.as_str()) {
                Some(state) => {
                    let ghost before = states@;
                    states.push(state);
                    assert(states@.drop_last() =~= before);
                },
                None => {
                    assert(names_no_state(all[i as int]));
                    return Err(StatusCode::BadRequest);
                },
            }
        }
        i += 1;
    }
    assert(all.take(i as int) =~= all);
    Ok(states)
}

/// What to ask the store for a user's applications: those in the listed states, if any are
/// listed, and created in the given time. A request that lists an unknown state is refused.
pub fn list_query(user: &UserId, params: ListApplicationsRequest) -> (res: Result<
    Filter,
    StatusCode,
>)
    ensures
        match res {
            Ok(filter) => {
                &&& filter.id is None
                &&& filter.token is None
                &&& opt_view(filter.username) == Some(user.0@)
                &&& filter.created_at_after == params.created_at_after
                &&& filter.created_at_before == params.created_at_before
                &&& match (params.state, filter.states) {
                    (None, None) => true,
                    (Some(text), None) => states_named(pieces(text@, ','), seq![]),
                    (Some(text), Some(states)) => states@.len() > 0 && states_named(
                        pieces(text@, ','),
                        states@,
                    ),
                    (None, Some(_)) => false,
                }
            },
            Err(status) => {
                &&& status == StatusCode::BadRequest
                &&& params.state matches Some(text)
                &&& exists|i: int|
                    0 <= i < pieces(text@, ',').len() && names_no_state(
                        #[trigger] pieces(text@, ',')[i],
                    )
            },
        },
{
    let states = match &params.state {
        None => None,
        Some(text) => {
            let listed = match read_states(text.as_str()) {
                Ok(states) => states,
                Err(status) => {
                    return Err(status);
                },
            };
            if listed.len() == 0 {
                assert(listed@ =~= seq![]);
                None
            } else {
                Some(listed)
            }
        },
    };
    Ok(
        Filter {
            id: None,
            username: Some(user.0.clone()),
            token: None,
            states,
            created_at_after: params.created_at_after,
            created_at_before: params.created_at_before,
        },
    )
}

/// What the user is told of their applications, once the store has answered `list_query`.
pub fn list_apps(found: Result<Vec<Model>, DbError>, config: &ProxyConfig) -> (res: Result<
    Vec<ApplicationInfo>,
    StatusCode,
>)
    ensures
        match (found, res) {
            (Ok(rows), Ok(infos)) => {
                &&& infos@.len() == rows@.len()
                &&& forall|i: int|
                    0 <= i < rows@.len() ==> (#[trigger] infos@[i])@ == info_of(
                        rows@[i]@,
                        *config,
                    )
            },
            (Err(_), Err(status)) => status == StatusCode::InternalServerError,
            _ => false,
        },
{
    let rows = match found {
        Ok(rows) => rows,
        Err(_) => {
            return Err(StatusCode::InternalServerError);
        },
    };
    let mut infos: Vec<ApplicationInfo> = Vec::new();
    for row in it: rows
        invariant
            it.seq() == rows@,
            infos@.len() == it.index(),
            forall|i: int|
                0 <= i < infos@.len() ==> (#[trigger] infos@[i])@ == info_of(rows@[i]@, *config),
    {
        infos.push(ApplicationInfo::of(row, config));
    }
    Ok(infos)
}

/// An application that is being ended for its user.
pub struct DeleteApp {
    /// Where its session is, if it runs.
    pub address: Option<String>,
    pub token: String,
}

/// Begins to end a user's application, once the store has answered `app_query`: what to update.
pub fn delete_app(
    found: Result<Option<Model>, DbError>,
    app_id: i32,
    user: &UserId,
) -> (res: Result<(DeleteApp, Update), StatusCode>)
    ensures
        match (own_app(found_view(found)), res) {
            (Ok(row), Ok((app, update))) => {
                &&& opt_view(app.address) == row.address
                &&& app.token@ == row.token
                &&& update.filter@ == (FilterView {
                    id: Some(app_id),
                    username: Some(user.0@),
                    ..any_row()
                })
                &&& update.changes@ == ended(State::FINISHED)
            },
            (Err(status), Err(s)) => s == status,
            _ => false,
        },
{
    match found {
        Ok(Some(row)) => {
            let update = Update {
                filter: app_query(app_id, user),
                changes: Changes::end(State::FINISHED),
            };
            Ok((DeleteApp { address: row.address, token: row.token }, update))
        },
        Ok(None) => Err(StatusCode::NotFound),
        Err(_) => Err(StatusCode::InternalServerError),
    }
}

impl DeleteApp {
    /// Goes on after the application was marked, or was not: its session is told to stop, if
    /// it has one.
    pub fn marked(&self, result: Result<(), DbError>) -> (res: Result<
        Option<SessionMessage>,
        StatusCode,
    >)
        ensures
            match (result, res) {
                (Ok(_), Ok(Some(message))) => {
                    &&& self.address matches Some(address)
                    &&& tells(message, address@, self.token@, "stop"@)
                },
                (Ok(_), Ok(None)) => self.address is None,
                (Err(_), Err(status)) => status == StatusCode::InternalServerError,
                _ => false,
            },
    {
        if result.is_err() {
            return Err(StatusCode::InternalServerError);
        }
        match &self.address {
            Some(address) => Ok(
                Some(session_message(address.as_str(), self.token.as_str(), "stop")),
            ),
            None => Ok(None),
        }
    }
}

/// What the user is told once the session has answered the message to stop.
pub fn stopped(result: Result<(), String>) -> (res: Result<(), StatusCode>)
    ensures
        match result {
            Ok(_) => res == Ok::<(), StatusCode>(()),
            Err(_) => res == Err::<(), StatusCode>(StatusCode::InternalServerError),
        },
{
    match result {
        Ok(_) => Ok(()),
        Err(_) => Err(StatusCode::InternalServerError),
    }
}

/// What an application reports once it listens.
pub struct ApplicationCallbackRequest {
    pub address: String,
    pub application_id: String,
}

/// The application runs at the address, under the identifier.
pub open spec fn called_back(address: Seq<char>, application_id: Seq<char>) -> ChangesView {
    ChangesView {
        state: Some(State::RUNNING),
        address: Some(Some(address)),
        application_id: Some(Some(application_id)),
    }
}

/// What to update when an application reports that it listens.
pub fn app_callback(token: BearerToken, params: ApplicationCallbackRequest) -> (res: Update)
    ensures
        res.filter@ == (FilterView { token: Some(token.0@), ..any_row() }),
        res.changes@ == called_back(params.address@, params.application_id@),
{
    Update {
        filter: Filter::by_token(token.0),
        changes: Changes {
            state: Some(State::RUNNING),
            address: Some(Some(params.address)),
            application_id: Some(Some(params.application_id)),
        },
    }
}

/// What to update when an application reports that it ends.
pub fn app_callback_delete(token: BearerToken) -> (res: Update)
    ensures
        res.filter@ == (FilterView { token: Some(token.0@), ..any_row() }),
        res.changes@ == ended(State::FINISHED),
{
    Update { filter: Filter::by_token(token.0), changes: Changes::end(State::FINISHED) }
}

/// What an application is told once the update it asked for was made in so many rows, or
/// failed: a token of no application is not found.
pub fn reported(rows_affected: Result<u64, DbError>) -> (res: Result<(), StatusCode>)
    ensures
        match rows_affected {
            Ok(rows) => if rows == 0 {
                res == Err::<(), StatusCode>(StatusCode::NotFound)
            } else {
                res == Ok::<(), StatusCode>(())
            },
            Err(_) => res == Err::<(), StatusCode>(StatusCode::InternalServerError),
        },
{
    match rows_affected {
        Ok(rows) => if rows == 0 {
            Err(StatusCode::NotFound)
        } else {
            Ok(())
        },
        Err(_) => Err(StatusCode::InternalServerError),
    }
}

/// Users are shown no applications but their own, whatever else they ask for.
pub proof fn law_users_see_their_own(
    table: Seq<ModelView>,
    filter: FilterView,
    user: Seq<char>,
    row: ModelView,
)
    requires
        filter.username == Some(user),
        selected(table, filter).contains(row),
    ensures
        row.username == user,
{
    lemma_filter_holds(table, |r: ModelView| filter.selects(r), row);
}

/// Ending an application changes no other application, and none of another user.
pub proof fn law_ending_changes_only_the_users_application(
    table: Seq<ModelView>,
    id: i32,
    user: Seq<char>,
    i: int,
)
    requires
        0 <= i < table.len(),
    ensures
        ({
            let filter = FilterView { id: Some(id), username: Some(user), ..any_row() };
            let after = updated(table, filter, ended(State::FINISHED));
            &&& after.len() == table.len()
            &&& table[i].id != id || table[i].username != user ==> after[i] == table[i]
            &&& table[i].id == id && table[i].username == user ==> after[i].state
                == State::FINISHED && after[i].address is None && after[i].token == table[i].token
        }),
{
}

/// A report with a token reaches the applications with that token, and no others: they run at
/// the reported address, and users are told so.
pub proof fn law_callback_reaches_its_application(
    table: Seq<ModelView>,
    token: Seq<char>,
    address: Seq<char>,
    application_id: Seq<char>,
    config: ProxyConfig,
    i: int,
)
    requires
        0 <= i < table.len(),
    ensures
        ({
            let filter = FilterView { token: Some(token), ..any_row() };
            let after = updated(table, filter, called_back(address, application_id));
            let info = info_of(after[i], config);
            &&& after.len() == table.len()
            &&& table[i].token != token ==> after[i] == table[i]
            &&& table[i].token == token ==> {
                &&& after[i].address == Some(address)
                &&& info.active
                &&& info.state == "RUNNING"@
                &&& info.ui_url == ui_url(opt_view(config.ui_url_template), Some(application_id))
            }
        }),
{
}

/// An application that reports that it ends is shown as finished and no longer active, also
/// after it has run.
pub proof fn law_ended_application_is_inactive(
    row: ModelView,
    address: Seq<char>,
    application_id: Seq<char>,
    config: ProxyConfig,
)
    ensures
        ({
            let running = called_back(address, application_id).applied(row);
            let over = ended(State::FINISHED).applied(running);
            let info = info_of(over, config);
            &&& info.state == "FINISHED"@
            &&& !info.active
            &&& info.id == row.id
            &&& info.token == row.token
        }),
{
}

/// A new application is launching and not active.
pub proof fn law_new_application_is_inactive(new: NewRow, row: ModelView, config: ProxyConfig)
    requires
        new.state == State::LAUNCHING,
        row_of(new, row),
    ensures
        active_means_running(row),
        !info_of(row, config).active,
        info_of(row, config).state == "LAUNCHING"@,
        info_of(row, config).ui_url is None,
{
}

/// A new application is found by its token, and by its user under its number.
pub proof fn law_new_application_is_found(new: NewRow, row: ModelView)
    requires
        row_of(new, row),
    ensures
        (FilterView { token: Some(new.token@), ..any_row() }).selects(row),
        (FilterView { id: Some(row.id), username: Some(new.username@), ..any_row() }).selects(row),
        new.state == State::LAUNCHING ==> still_launching(row.id).selects(row),
{
    lemma_only_launching(row.state);
}

/// Whether every application of a table has an address exactly while it runs.
pub open spec fn all_active_run(table: Seq<ModelView>) -> bool {
    forall|i: int| 0 <= i < table.len() ==> active_means_running(#[trigger] table[i])
}

/// Reports of applications keep it true that an application has an address exactly while it
/// runs.
pub proof fn law_callback_keeps_active_means_running(
    table: Seq<ModelView>,
    filter: FilterView,
    address: Seq<char>,
    application_id: Seq<char>,
)
    requires
        all_active_run(table),
    ensures
        all_active_run(updated(table, filter, called_back(address, application_id))),
{
}

/// Ending or failing applications keeps it true that an application has an address exactly
/// while it runs.
pub proof fn law_ending_keeps_active_means_running(
    table: Seq<ModelView>,
    filter: FilterView,
    state: State,
)
    requires
        all_active_run(table),
        state.is_over(),
    ensures
        all_active_run(updated(table, filter, ended(state))),
{
}

/// The end of a launch keeps it true that an application has an address exactly while it runs,
/// and leaves an application alone that has called back.
pub proof fn law_launch_end_keeps_active_means_running(table: Seq<ModelView>, id: i32, i: int)
    requires
        all_active_run(table),
        0 <= i < table.len(),
    ensures
        all_active_run(updated(table, still_launching(id), marked_failed())),
        table[i].state != State::LAUNCHING ==> updated(
            table,
            still_launching(id),
            marked_failed(),
        )[i] == table[i],
{
    let filter = still_launching(id);
    let after = updated(table, filter, marked_failed());
    assert forall|j: int| 0 <= j < after.len() implies active_means_running(
        #[trigger] after[j],
    ) by {
        if filter.selects(table[j]) {
            lemma_only_launching(table[j].state);
        }
        assert(active_means_running(table[j]));
    }
    lemma_only_launching(table[i].state);
}

/// A launch that failed keeps it true that an application has an address exactly while it
/// runs, for an application that has not called back meanwhile.
pub proof fn law_launch_failure_keeps_active_means_running(table: Seq<ModelView>, id: i32)
    requires
        all_active_run(table),
        forall|i: int|
            0 <= i < table.len() && (#[trigger] table[i]).id == id ==> table[i].address is None,
    ensures
        all_active_run(
            updated(table, (FilterView { id: Some(id), ..any_row() }), marked_failed()),
        ),
{
    let filter = FilterView { id: Some(id), ..any_row() };
    let after = updated(table, filter, marked_failed());
    assert forall|j: int| 0 <= j < after.len() implies active_means_running(
        #[trigger] after[j],
    ) by {
        assert(active_means_running(table[j]));
    }
}

/// Deleting applications keeps it true that an application has an address exactly while it
/// runs.
pub proof fn law_deleting_keeps_active_means_running(table: Seq<ModelView>, filter: FilterView)
    requires
        all_active_run(table),
    ensures
        all_active_run(deleted(table, filter)),
{
    let after = deleted(table, filter);
    assert forall|i: int| 0 <= i < after.len() implies active_means_running(
        #[trigger] after[i],
    ) by {
        lemma_filter_holds(table, |row: ModelView| !filter.selects(row), after[i]);
        assert(after.contains(after[i]));
    }
}

/// Whether tokens tell the applications of a table apart.
pub open spec fn tokens_differ(table: Seq<ModelView>) -> bool {
    forall|i: int, j: int|
        0 <= i < j < table.len() ==> (#[trigger] table[i]).token != (#[trigger] table[j]).token
}

/// Tokens go on telling applications apart: whatever is updated or deleted, and when an
/// application is added whose token no other has.
pub proof fn law_tokens_stay_apart(
    table: Seq<ModelView>,
    filter: FilterView,
    changes: ChangesView,
    row: ModelView,
)
    requires
        tokens_differ(table),
    ensures
        tokens_differ(updated(table, filter, changes)),
        tokens_differ(deleted(table, filter)),
        (forall|i: int| 0 <= i < table.len() ==> (#[trigger] table[i]).token != row.token)
            ==> tokens_differ(table.push(row)),
{
    lemma_filter_keeps_apart(table, |r: ModelView| !filter.selects(r));
}

proof fn lemma_filter_keeps_apart(table: Seq<ModelView>, pred: spec_fn(ModelView) -> bool)
    requires
        tokens_differ(table),
    ensures
        tokens_differ(table.filter(pred)),
    decreases table.len(),
{
    reveal(Seq::filter);
    if table.len() > 0 {
        let rest = table.drop_last();
        let kept = rest.filter(pred);
        lemma_filter_keeps_apart(rest, pred);
        assert forall|i: int| 0 <= i < kept.len() implies (#[trigger] kept[i]).token
            != table.last().token by {
            lemma_filter_holds(rest, pred, kept[i]);
            assert(kept.contains(kept[i]));
            let j = choose|j: int| 0 <= j < rest.len() && rest[j] == kept[i];
            assert(table[j].token != table[table.len() - 1].token);
        }
    }
}

/// Where tokens tell applications apart, a report with a token changes no more than the one
/// application that has it.
pub proof fn law_report_changes_one_application(
    table: Seq<ModelView>,
    token: Seq<char>,
    changes: ChangesView,
    app: int,
    i: int,
)
    requires
        tokens_differ(table),
        0 <= app < table.len(),
        table[app].token == token,
        0 <= i < table.len(),
        i != app,
    ensures
        updated(table, (FilterView { token: Some(token), ..any_row() }), changes)[i] == table[i],
{
    if i < app {
        assert(table[i].token != table[app].token);
    } else {
        assert(table[app].token != table[i].token);
    }
}

proof fn lemma_only_launching(state: State)
    ensures
        seq![State::LAUNCHING].contains(state) <==> state == State::LAUNCHING,
{
    assert(seq![State::LAUNCHING][0] == State::LAUNCHING);
}

/// Listing applications shows exactly those of the user's applications that are in one of the
/// states, where states are named, and were created in the given time.
pub proof fn law_listing_is_exact(
    table: Seq<ModelView>,
    user: Seq<char>,
    states: Option<Seq<State>>,
    after: Option<Timestamp>,
    before: Option<Timestamp>,
    row: ModelView,
)
    ensures
        ({
            let filter = FilterView {
                username: Some(user),
                states,
                created_at_after: after,
                created_at_before: before,
                ..any_row()
            };
            selected(table, filter).contains(row) <==> {
                &&& table.contains(row)
                &&& row.username == user
                &&& states matches Some(named) ==> named.contains(row.state)
                &&& after matches Some(time) ==> time.precedes(row.created_at)
                &&& before matches Some(time) ==> row.created_at.precedes(time)
            }
        }),
{
    let filter = FilterView {
        username: Some(user),
        states,
        created_at_after: after,
        created_at_before: before,
        ..any_row()
    };
    lemma_filter_holds(table, |r: ModelView| filter.selects(r), row);
}

} // verus!
