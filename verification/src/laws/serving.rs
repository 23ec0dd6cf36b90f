//! Laws of the server's commands.
use crate::application::{deleted, DbError, Filter, Model, ModelView, State, Update};
use crate::laws::table::law_selected_or_left;
use crate::proxy::header_views;
use crate::server::{
    check_query, connection_turn, prune, Args, CheckStep, ConnectionAction, ConnectionEvent,
    HealthCheck, NoCutoff, ProxyCommand, ServerAction, ServerEvent, ServerState,
};
use crate::tls::{alpn_protocols, key_of, read_certificates, read_private_key, TlsError};
use crate::trusted::calendar::{FIRST_SECOND, LAST_SECOND};
use crate::trusted::tls::{contents, pem_certificates, pem_private_key};
use tokio_rustls::rustls::pki_types::PrivateKeyDer;
use vstd::prelude::*;
use vstd::utf8::encode_utf8;

verus! {

/// The server is started where no other command is given.
pub proof fn law_default_command(args: Args, command: ProxyCommand)
    requires
        call_ensures(Args::command_or_start, (&args,), command),
    ensures
        args.command matches Some(given) ==> command == given,
        args.command is None ==> command == ProxyCommand::Start,
{
}

/// Pruning deletes an application exactly where it has failed or finished and is at least of the
/// given age. What is launching or running stays, whatever its age.
pub proof fn law_pruned_applications(
    now: u64,
    age: u64,
    filter: Filter,
    table: Seq<ModelView>,
    row: ModelView,
)
    requires
        call_ensures(prune, (now, age), Ok(filter)),
        table.contains(row),
    ensures
        !deleted(table, filter@).contains(row) <==> {
            &&& row.state == State::FAILED || row.state == State::FINISHED
            &&& now - row.created_at.secs > age || (now - row.created_at.secs == age
                && row.created_at.nanos == 0)
        },
{
    law_selected_or_left(table, filter@, row);
    let over = seq![State::FAILED, State::FINISHED];
    assert(over[0] == State::FAILED && over[1] == State::FINISHED);
    assert(over.contains(row.state) <==> row.state == State::FAILED || row.state
        == State::FINISHED);
}

/// Pruning does not look at whose an application is, at its number or at its token.
pub proof fn law_pruning_looks_at_state_and_age(
    now: u64,
    age: u64,
    filter: Filter,
    a: ModelView,
    b: ModelView,
)
    requires
        call_ensures(prune, (now, age), Ok(filter)),
        a.state == b.state,
        a.created_at == b.created_at,
    ensures
        filter@.selects(a) == filter@.selects(b),
{
}

/// Pruning fails exactly where the time of the given age lies outside of the calendar.
pub proof fn law_pruning_fails_outside_of_the_calendar(
    now: u64,
    age: u64,
    res: Result<Filter, NoCutoff>,
)
    requires
        call_ensures(prune, (now, age), res),
    ensures
        res is Ok <==> FIRST_SECOND <= now - age <= LAST_SECOND,
        FIRST_SECOND == -8334601228800,
        LAST_SECOND == 8210266876799,
{
}

/// A check looks at all running applications, and at no others.
pub proof fn law_running_applications_are_checked(filter: Filter, row: ModelView)
    requires
        call_ensures(check_query, (), filter),
    ensures
        filter@.selects(row) <==> row.state == State::RUNNING,
{
    let only = seq![State::RUNNING];
    assert(only[0] == State::RUNNING);
    assert(only.contains(row.state) <==> row.state == State::RUNNING);
}

/// Whether the update finishes this application and touches no other.
pub open spec fn finishes_only(update: Update, app: Model, row: ModelView) -> bool {
    &&& update.filter@.selects(row) <==> row.id == app.id
    &&& update.changes@.applied(row) == (ModelView { state: State::FINISHED, address: None, ..row })
}

/// The next application is probed at its address, with its token, or finished where it has no
/// address; the check is done where none is left.
pub proof fn law_next_application_is_checked(check: HealthCheck, step: CheckStep, row: ModelView)
    requires
        call_ensures(HealthCheck::step, (&check,), step),
        check.finished <= check.next <= check.apps@.len(),
    ensures
        check.next == check.apps@.len() ==> (step matches CheckStep::Done(count) && count
            == check.finished),
        check.next < check.apps@.len() ==> {
            let app = check.apps@[check.next as int];
            match app.address {
                None => step matches CheckStep::Finish(update) && finishes_only(update, app, row),
                Some(address) => {
                    &&& step matches CheckStep::Probe(message)
                    &&& message.url@ == "http://"@ + address@
                        + "/spark.connect.SparkConnectService/Config"@
                    &&& message.token@ == app.token@
                    &&& header_views(message.headers@) == seq![
                        ("X-Connect-Proxy"@, "health"@),
                        ("Content-Type"@, "application/grpc"@),
                        ("TE"@, "trailers"@),
                    ]
                    &&& !message.no_proxy
                },
            }
        },
{
}

/// An application that answers is left, and the next one is checked; one that does not is
/// finished.
pub proof fn law_probed_application(
    check: &mut HealthCheck,
    result: Result<(), String>,
    res: Option<Update>,
    row: ModelView,
)
    requires
        call_ensures(HealthCheck::probed, (check, result), res),
        old(check).next < old(check).apps@.len(),
    ensures
        final(check).apps == old(check).apps,
        final(check).finished == old(check).finished,
        result is Ok ==> res is None && final(check).next == old(check).next + 1,
        result is Err ==> (res matches Some(update) && finishes_only(
            update,
            old(check).apps@[old(check).next as int],
            row,
        )) && final(check).next == old(check).next,
{
}

/// Once an application was finished, it is counted and the next one is checked; where that failed
/// or it was gone, the check stops there.
pub proof fn law_finished_application_is_counted(
    check: &mut HealthCheck,
    rows: Result<u64, DbError>,
    res: Result<(), DbError>,
)
    requires
        call_ensures(HealthCheck::marked, (check, rows), res),
    ensures
        final(check).apps == old(check).apps,
        res is Ok <==> (rows matches Ok(count) && count > 0),
        res is Ok ==> final(check).next == old(check).next + 1 && final(check).finished
            == old(check).finished + 1,
        res is Err ==> final(check).next == old(check).next && final(check).finished
            == old(check).finished,
{
}

/// A check begins with the first application, and nothing counted.
pub proof fn law_check_begins(apps: Vec<Model>, check: HealthCheck)
    requires
        call_ensures(HealthCheck::start, (apps,), check),
    ensures
        check.apps == apps,
        check.next == 0,
        check.finished == 0,
{
}

/// A server serves connections, by TLS where it speaks it, until it is told to shut down. Then it
/// stops listening, and ends when no connection is left.
pub proof fn law_server_turns(
    state: ServerState,
    event: ServerEvent,
    tls: bool,
    next: ServerState,
    action: ServerAction,
)
    requires
        call_ensures(ServerState::next, (state, event, tls), (next, action)),
    ensures
        action is Serve <==> state == ServerState::Accepting && event == ServerEvent::Connected,
        action matches ServerAction::Serve { tls: by_tls } ==> by_tls == tls,
        action is StopListening <==> state == ServerState::Accepting && event
            == ServerEvent::ShutdownSignal,
        action is Return <==> state == ServerState::Draining && event == ServerEvent::AllClosed,
        next == (if action is StopListening {
            ServerState::Draining
        } else if action is Return {
            ServerState::Stopped
        } else {
            state
        }),
{
}

/// A connection is closed when it has ended, and told to end when the server shuts down.
pub proof fn law_connection_turns(event: ConnectionEvent, action: ConnectionAction)
    requires
        call_ensures(connection_turn, (event,), action),
    ensures
        event == ConnectionEvent::Ended <==> action == ConnectionAction::Close,
        event == ConnectionEvent::ShutdownSignal <==> action
            == ConnectionAction::ShutDownGracefully,
{
}

/// The server speaks HTTP/2 before HTTP/1.1.
pub proof fn law_protocols(protocols: Vec<Vec<u8>>)
    requires
        call_ensures(alpn_protocols, (), protocols),
    ensures
        protocols@.len() == 2,
        protocols@[0]@ == encode_utf8("h2"@),
        protocols@[1]@ == encode_utf8("http/1.1"@),
{
    assert(contents(protocols@).len() == protocols@.len());
    assert(contents(protocols@)[0] == protocols@[0]@);
    assert(contents(protocols@)[1] == protocols@[1]@);
}

/// The key of the server is the first of the key file.
pub proof fn law_key_file(pem: &[u8], key: Result<PrivateKeyDer<'static>, TlsError>)
    requires
        call_ensures(read_private_key, (pem,), key),
    ensures
        match pem_private_key(pem@) {
            Ok(Some(k)) => key == Ok::<PrivateKeyDer<'static>, TlsError>(k),
            Ok(None) => key matches Err(TlsError::NoKey),
            Err(reason) => key matches Err(TlsError::Key(words)) && words@ == reason,
        },
{
}

/// A time outside of the calendar is told in words.
pub proof fn law_no_cutoff_in_words(error: NoCutoff, words: &'static str)
    requires
        call_ensures(NoCutoff::message, (&error,), words),
    ensures
        words@ == "Failed to create prune cutoff timestamp"@,
{
}

/// All certificates of the file are used, in their order, and a key file without a key is refused.
pub proof fn law_certificates_and_keys(
    pem: &[u8],
    certs: Result<Vec<Vec<u8>>, TlsError>,
    read: Result<Option<PrivateKeyDer<'static>>, String>,
    key: Result<PrivateKeyDer<'static>, TlsError>,
)
    requires
        call_ensures(read_certificates, (pem,), certs),
        call_ensures(key_of, (read,), key),
    ensures
        match pem_certificates(pem@) {
            Ok(all) => certs matches Ok(used) && contents(used@) == all,
            Err(reason) => certs matches Err(TlsError::Certificates(words)) && words@ == reason,
        },
        match read {
            Ok(Some(k)) => key == Ok::<PrivateKeyDer<'static>, TlsError>(k),
            Ok(None) => key matches Err(TlsError::NoKey),
            Err(reason) => key matches Err(TlsError::Key(words)) && words@ == reason@,
        },
{
}

} // verus!
