//! Laws of the API.
use crate::application::{
    selected, DbError, Filter, Model, ModelView, NewRow, State, StatusCode, Timestamp,
    Update,
};
use crate::auth::{BearerToken, UserId};
use crate::config::ProxyConfig;
use crate::laws::table::{lemma_written_differ, law_selected_or_left, written};
use crate::laws::text::law_trimmed_text_stays;
use crate::proxy::{header_views, SessionMessage};
use crate::routes::{
    app_callback, app_callback_delete, app_query, create_app, create_app_with_token, delete_app,
    get_app, list_apps, list_query, list_request, names_no_state, read_list_request, reported,
    state_named, states_named, stopped, ApplicationCallbackRequest, ApplicationInfo, CreateApp,
    CreateApplicationRequest, DeleteApp, LaunchApp, LaunchOutcome, LaunchRequest,
    ListApplicationsQuery, ListApplicationsRequest, TimeRead,
};
use crate::text::{lemma_first_index, opt_view, pieces, replaced, trimmed};
use crate::trusted::calendar::time_in_text;
use vstd::prelude::*;

verus! {

/// A new application is launching, belongs to its user and has the token that its session gets.
pub proof fn law_new_application(
    user: UserId,
    params: CreateApplicationRequest,
    app: CreateApp,
    row: NewRow,
)
    requires
        call_ensures(create_app, (user, params), (app, row)),
    ensures
        row.username@ == user.0@,
        row.state == State::LAUNCHING,
        row.token@ == app.token@,
        row.token@.len() == 36,
        app.user == user,
        app.params == params,
{
}

/// A new application with a given token has that token.
pub proof fn law_new_application_has_its_token(
    user: UserId,
    token: String,
    params: CreateApplicationRequest,
    app: CreateApp,
    row: NewRow,
)
    requires
        call_ensures(create_app_with_token, (user, token, params), (app, row)),
    ensures
        row.username@ == user.0@,
        row.state == State::LAUNCHING,
        row.token@ == token@,
        app.token@ == token@,
        app.user == user,
        app.params == params,
{
}

/// The application that is launched is the one that was stored, for the user, with the token and
/// with all that the request asks for; where it could not be stored, nothing is launched.
pub proof fn law_stored_application_is_launched(
    app: CreateApp,
    stored: Result<Model, DbError>,
    res: Result<(LaunchApp, LaunchRequest), StatusCode>,
)
    requires
        call_ensures(CreateApp::inserted, (app, stored), res),
    ensures
        res is Ok <==> stored is Ok,
        res matches Err(status) ==> status == StatusCode::InternalServerError,
        res matches Ok((launching, launch)) ==> {
            &&& Ok::<Model, DbError>(launching.row) == stored
            &&& launch.session_id == launching.row.id
            &&& launch.username@ == app.user.0@
            &&& launch.token@ == app.token@
            &&& opt_view(launch.version) == opt_view(app.params.version)
            &&& launch.app_name is None
            &&& launch.python_packages == app.params.python_packages
            &&& match app.params.config {
                Some(settings) => launch.user_config@ == settings@,
                None => launch.user_config@ == Map::<Seq<char>, String>::empty(),
            }
        },
{
}

/// What users are told of an application: its number, token and state as stored, that it is
/// active exactly where it has an address, and its UI address, where there is a template and the
/// application has an identifier.
pub open spec fn describes(info: ApplicationInfo, row: ModelView, config: ProxyConfig) -> bool {
    &&& info.id == row.id
    &&& info.token@ == row.token
    &&& info.state@ == written(row.state)
    &&& info.active == (row.address is Some)
    &&& match (config.ui_url_template, row.application_id) {
        (Some(template), Some(id)) => info.ui_url matches Some(url) && url@ == replaced(
            template@,
            "{{ application_id }}"@,
            id,
        ),
        _ => info.ui_url is None,
    }
}

/// Whatever shows an application to its user describes it.
pub proof fn law_applications_are_described(row: Model, config: ProxyConfig, info: ApplicationInfo)
    requires
        call_ensures(ApplicationInfo::of, (row, &config), info),
    ensures
        describes(info, row@, config),
{
}

/// Where the launch has begun, the user is told of the application. Once the launch has ended, it
/// is marked as failed, if it is still launching, and no other application is touched.
pub proof fn law_begun_launch(
    app: LaunchApp,
    started: bool,
    config: ProxyConfig,
    info: ApplicationInfo,
    once_ended: Update,
    row: ModelView,
)
    requires
        call_ensures(
            LaunchApp::launched,
            (app, started, &config),
            LaunchOutcome::Started { info, once_ended },
        ),
    ensures
        started,
        describes(info, app.row@, config),
        once_ended.filter@.selects(row) <==> row.id == app.row.id && row.state == State::LAUNCHING,
        once_ended.changes@.applied(row) == (ModelView { state: State::FAILED, ..row }),
{
    let only = seq![State::LAUNCHING];
    assert(only[0] == State::LAUNCHING);
    assert(only.contains(row.state) <==> row.state == State::LAUNCHING);
}

/// Where the launch could not begin, the application is marked as failed, no other one is touched,
/// and the user is told that the server failed.
pub proof fn law_failed_launch(
    app: LaunchApp,
    started: bool,
    config: ProxyConfig,
    update: Update,
    status: StatusCode,
    row: ModelView,
)
    requires
        call_ensures(
            LaunchApp::launched,
            (app, started, &config),
            LaunchOutcome::Failed { update, status },
        ),
    ensures
        !started,
        update.filter@.selects(row) <==> row.id == app.row.id,
        update.changes@.applied(row) == (ModelView { state: State::FAILED, ..row }),
        status == StatusCode::InternalServerError,
{
}

/// A user's application is asked for by its number, and only among the user's own.
pub proof fn law_users_ask_for_their_own(id: i32, user: UserId, filter: Filter, row: ModelView)
    requires
        call_ensures(app_query, (id, &user), filter),
    ensures
        filter@.selects(row) <==> row.id == id && row.username == user.0@,
{
}

/// An application that was found is described, one that was not is not found, and where the store
/// fails the server does.
pub proof fn law_found_application_is_described(
    found: Result<Option<Model>, DbError>,
    config: ProxyConfig,
    res: Result<ApplicationInfo, StatusCode>,
)
    requires
        call_ensures(get_app, (found, &config), res),
    ensures
        match found {
            Ok(Some(row)) => res matches Ok(info) && describes(info, row@, config),
            Ok(None) => res == Err::<ApplicationInfo, StatusCode>(StatusCode::NotFound),
            Err(_) => res == Err::<ApplicationInfo, StatusCode>(StatusCode::InternalServerError),
        },
{
}

/// All applications that were found are described, in their order.
pub proof fn law_listed_applications_are_described(
    found: Result<Vec<Model>, DbError>,
    config: ProxyConfig,
    res: Result<Vec<ApplicationInfo>, StatusCode>,
    i: int,
)
    requires
        call_ensures(list_apps, (found, &config), res),
    ensures
        match found {
            Ok(rows) => {
                &&& res matches Ok(infos)
                &&& infos@.len() == rows@.len()
                &&& 0 <= i < rows@.len() ==> describes(infos@[i], rows@[i]@, config)
            },
            Err(_) => res == Err::<Vec<ApplicationInfo>, StatusCode>(
                StatusCode::InternalServerError,
            ),
        },
{
    if let (Ok(rows), Ok(infos)) = (found, res) {
        if 0 <= i < rows@.len() {
            assert(infos@[i]@ == crate::routes::info_of(rows@[i]@, config));
        }
    }
}

/// The names that a text lists: its pieces between commas, without white space around them and
/// without the blank ones, in their order.
pub open spec fn listed(names: Seq<Seq<char>>) -> Seq<Seq<char>>
    decreases names.len(),
{
    if names.len() == 0 {
        seq![]
    } else if trimmed(names.last()).len() == 0 {
        listed(names.drop_last())
    } else {
        listed(names.drop_last()).push(trimmed(names.last()))
    }
}

/// States, as they are written.
pub open spec fn all_written(states: Seq<State>) -> Seq<Seq<char>> {
    states.map_values(|state: State| written(state))
}

proof fn lemma_states_named(names: Seq<Seq<char>>, states: Seq<State>)
    requires
        states_named(names, states),
    ensures
        all_written(states) == listed(names),
    decreases names.len(),
{
    if names.len() == 0 {
        assert(all_written(states) =~= seq![]);
    } else if trimmed(names.last()).len() == 0 {
        lemma_states_named(names.drop_last(), states);
    } else {
        lemma_states_named(names.drop_last(), states.drop_last());
        assert(state_named(names.last(), states.last()));
        assert(states.last().name() == written(states.last()));
        assert(all_written(states) =~= all_written(states.drop_last()).push(
            written(states.last()),
        ));
    }
}

/// A list is asked for by the user's name, by the times of the request and by the states that it
/// lists: these, each as it is written, are the names in the text. Where no name is listed, the
/// state does not matter. A name that no state is written by is refused.
pub proof fn law_listed_states_are_the_named_ones(
    user: UserId,
    params: ListApplicationsRequest,
    res: Result<Filter, StatusCode>,
)
    requires
        call_ensures(list_query, (&user, params), res),
    ensures
        match res {
            Ok(filter) => {
                &&& filter.id is None
                &&& filter.token is None
                &&& opt_view(filter.username) == Some(user.0@)
                &&& filter.created_at_after == params.created_at_after
                &&& filter.created_at_before == params.created_at_before
                &&& match (params.state, filter.states) {
                    (None, states) => states is None,
                    (Some(text), None) => listed(pieces(text@, ',')).len() == 0,
                    (Some(text), Some(states)) => {
                        &&& states@.len() > 0
                        &&& all_written(states@) == listed(pieces(text@, ','))
                    },
                }
            },
            Err(status) => {
                &&& status == StatusCode::BadRequest
                &&& params.state matches Some(text)
                &&& exists|i: int|
                    {
                        let name = trimmed(pieces(text@, ',')[i]);
                        &&& 0 <= i < pieces(text@, ',').len()
                        &&& #[trigger] names_no_state(pieces(text@, ',')[i])
                        &&& name.len() > 0
                        &&& forall|state: State| name != #[trigger] written(state)
                    }
            },
        },
{
    match res {
        Ok(filter) => {
            if let (Some(text), Some(states)) = (params.state, filter.states) {
                lemma_states_named(pieces(text@, ','), states@);
            } else if let (Some(text), None) = (params.state, filter.states) {
                lemma_states_named(pieces(text@, ','), seq![]);
                assert(all_written(seq![]).len() == 0);
            }
        },
        Err(_) => {
            if let Some(text) = params.state {
                let i = choose|i: int|
                    0 <= i < pieces(text@, ',').len() && names_no_state(
                        #[trigger] pieces(text@, ',')[i],
                    );
                let name = pieces(text@, ',')[i];
                assert forall|state: State| trimmed(name) != #[trigger] written(state) by {
                    assert(!state_named(name, state));
                    assert(state.name() == written(state));
                }
                assert(names_no_state(pieces(text@, ',')[i]));
            }
        },
    }
}

/// A request that lists the name of one state is for the applications in that state: it is not
/// refused, and shows exactly those of the user's applications that are in the state and were
/// created in the times of the request.
pub proof fn law_one_state_is_listed(
    user: UserId,
    params: ListApplicationsRequest,
    res: Result<Filter, StatusCode>,
    state: State,
    table: Seq<ModelView>,
    row: ModelView,
)
    requires
        call_ensures(list_query, (&user, params), res),
        params.state matches Some(text) && text@ == written(state),
    ensures
        res is Ok,
        opt_states(res->Ok_0.states) == Some(seq![state]),
        selected(table, res->Ok_0@).contains(row) <==> {
            &&& table.contains(row)
            &&& row.username == user.0@
            &&& row.state == state
            &&& params.created_at_after matches Some(time) ==> time.precedes(row.created_at)
            &&& params.created_at_before matches Some(time) ==> row.created_at.precedes(time)
        },
{
    let text = params.state->0@;
    lemma_written_differ();
    lemma_one_piece(state);
    law_listed_states_are_the_named_ones(user, params, res);
    match res {
        Ok(filter) => {
            let states = filter.states->0@;
            assert(all_written(states) == seq![written(state)]);
            assert(states.len() == all_written(states).len());
            assert(written(states[0]) == all_written(states)[0]);
            assert(states =~= seq![state]);
            assert(seq![state][0] == state);
            law_selected_or_left(table, filter@, row);
        },
        Err(_) => {
            let i = choose|i: int|
                0 <= i < pieces(text, ',').len() && #[trigger] names_no_state(pieces(text, ',')[i])
                    && forall|s: State| trimmed(pieces(text, ',')[i]) != #[trigger] written(s);
            assert(pieces(text, ',')[i] == written(state));
        },
    }
}

/// The states of an optional list.
pub open spec fn opt_states(states: Option<Vec<State>>) -> Option<Seq<State>> {
    match states {
        Some(all) => Some(all@),
        None => None,
    }
}

proof fn lemma_one_piece(state: State)
    ensures
        pieces(written(state), ',') == seq![written(state)],
        listed(pieces(written(state), ',')) == seq![written(state)],
        trimmed(written(state)) == written(state),
{
    let text = written(state);
    lemma_written_differ();
    lemma_first_index(text, ',');
    if text.contains(',') {
        let i = choose|i: int| 0 <= i < text.len() && text[i] == ',';
        assert('A' <= written(state)[i]);
    }
    assert(pieces(text, ',') =~= seq![text]);
    assert('A' <= written(state)[0] <= 'Z');
    assert('A' <= written(state)[text.len() - 1] <= 'Z');
    law_trimmed_text_stays(text);
    assert(seq![text].drop_last() =~= seq![]);
    assert(listed(seq![text].drop_last()) =~= seq![]);
    assert(listed(seq![text]) =~= seq![text]);
}

/// Times that a request names are read, and a request with a time that cannot be read is refused.
pub proof fn law_times_are_read(
    query: ListApplicationsQuery,
    res: Result<ListApplicationsRequest, StatusCode>,
)
    requires
        call_ensures(read_list_request, (query,), res),
    ensures
        ({
            let after_is_bad = query.created_at_after matches Some(text) && time_in_text(text@) is None;
            let before_is_bad = query.created_at_before matches Some(text) && time_in_text(text@) is None;
            match res {
                Err(status) => status == StatusCode::BadRequest && (after_is_bad || before_is_bad),
                Ok(request) => {
                    &&& !after_is_bad && !before_is_bad
                    &&& request.state == query.state
                    &&& is_time_in(query.created_at_after, request.created_at_after)
                    &&& is_time_in(query.created_at_before, request.created_at_before)
                },
            }
        }),
{
}

/// Whether the time is the one in the text, and there is none where there is no text.
pub open spec fn is_time_in(text: Option<String>, time: Option<Timestamp>) -> bool {
    match (text, time) {
        (None, None) => true,
        (Some(t), Some(read)) => time_in_text(t@) == Some((read.secs, read.nanos)),
        _ => false,
    }
}

/// Times that were read are asked for as they are.
pub proof fn law_read_times_are_asked_for(
    state: Option<String>,
    after: TimeRead,
    before: TimeRead,
    res: Result<ListApplicationsRequest, StatusCode>,
)
    requires
        call_ensures(list_request, (state, after, before), res),
    ensures
        res is Err <==> after == TimeRead::Unreadable || before == TimeRead::Unreadable,
        res matches Err(status) ==> status == StatusCode::BadRequest,
        res matches Ok(request) ==> {
            &&& request.state == state
            &&& match after {
                TimeRead::Time(time) => request.created_at_after == Some(time),
                _ => request.created_at_after is None,
            }
            &&& match before {
                TimeRead::Time(time) => request.created_at_before == Some(time),
                _ => request.created_at_before is None,
            }
        },
{
}

/// Ending an application touches the user's application of that number alone: it is finished and
/// has no address. Its session is remembered, to be told. What the store did not find or could not
/// look for is not ended.
pub proof fn law_application_is_ended(
    found: Result<Option<Model>, DbError>,
    id: i32,
    user: UserId,
    res: Result<(DeleteApp, Update), StatusCode>,
    row: ModelView,
)
    requires
        call_ensures(delete_app, (found, id, &user), res),
    ensures
        match found {
            Ok(Some(app)) => {
                &&& res matches Ok((ending, update))
                &&& opt_view(ending.address) == opt_view(app.address)
                &&& ending.token@ == app.token@
                &&& update.filter@.selects(row) <==> row.id == id && row.username == user.0@
                &&& update.changes@.applied(row) == (ModelView {
                    state: State::FINISHED,
                    address: None,
                    ..row
                })
            },
            Ok(None) => res == Err::<(DeleteApp, Update), StatusCode>(StatusCode::NotFound),
            Err(_) => res == Err::<(DeleteApp, Update), StatusCode>(
                StatusCode::InternalServerError,
            ),
        },
{
}

/// A session is told to stop at its address and with its token, where the application had an
/// address; and only once the store has been told.
pub proof fn law_session_is_told_to_stop(
    app: DeleteApp,
    marked: Result<(), DbError>,
    res: Result<Option<SessionMessage>, StatusCode>,
)
    requires
        call_ensures(DeleteApp::marked, (&app, marked), res),
    ensures
        marked is Err ==> res == Err::<Option<SessionMessage>, StatusCode>(
            StatusCode::InternalServerError,
        ),
        marked is Ok ==> match app.address {
            None => res == Ok::<Option<SessionMessage>, StatusCode>(None),
            Some(address) => {
                &&& res matches Ok(Some(message))
                &&& message.url@ == "http://"@ + address@
                    + "/spark.connect.SparkConnectService/Config"@
                &&& message.token@ == app.token@
                &&& header_views(message.headers@) == seq![
                    ("X-Connect-Proxy"@, "stop"@),
                    ("Content-Type"@, "application/grpc"@),
                    ("TE"@, "trailers"@),
                ]
                &&& !message.no_proxy
            },
        },
{
}

/// The user is told whether the session could be stopped.
pub proof fn law_stopping_may_fail(result: Result<(), String>, res: Result<(), StatusCode>)
    requires
        call_ensures(stopped, (result,), res),
    ensures
        result is Ok <==> res is Ok,
        res matches Err(status) ==> status == StatusCode::InternalServerError,
{
}

/// An application that reports runs at the reported address, under the reported identifier; the
/// report reaches the application with its token alone.
pub proof fn law_report_of_a_running_application(
    token: BearerToken,
    params: ApplicationCallbackRequest,
    update: Update,
    row: ModelView,
)
    requires
        call_ensures(app_callback, (token, params), update),
    ensures
        update.filter@.selects(row) <==> row.token == token.0@,
        update.changes@.applied(row) == (ModelView {
            state: State::RUNNING,
            address: Some(params.address@),
            application_id: Some(params.application_id@),
            ..row
        }),
{
}

/// An application that reports its end is finished and has no address; the report reaches the
/// application with its token alone.
pub proof fn law_report_of_an_ending_application(
    token: BearerToken,
    update: Update,
    row: ModelView,
)
    requires
        call_ensures(app_callback_delete, (token,), update),
    ensures
        update.filter@.selects(row) <==> row.token == token.0@,
        update.changes@.applied(row) == (ModelView { state: State::FINISHED, address: None, ..row }),
{
}

/// A report that reaches no application is not found.
pub proof fn law_report_must_reach_an_application(
    rows: Result<u64, DbError>,
    res: Result<(), StatusCode>,
)
    requires
        call_ensures(reported, (rows,), res),
    ensures
        res is Ok <==> (rows matches Ok(count) && count > 0),
        rows == Ok::<u64, DbError>(0) ==> res == Err::<(), StatusCode>(StatusCode::NotFound),
        rows is Err ==> res == Err::<(), StatusCode>(StatusCode::InternalServerError),
{
}

} // verus!
