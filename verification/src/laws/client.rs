//! Laws of the client.
use crate::client::{
    Application, AwaitApplication, AwaitStep, ClientError, ConnectProxyClient, TIMED_OUT,
};
use crate::text::{decimal, opt_view, signed_decimal};
use crate::trusted::address::url_parts;
use vstd::prelude::*;

verus! {

/// Paths are asked for at the server's address: applications are created at `/apps`, and each is
/// described and stopped under its number there.
pub proof fn law_addresses_of_the_server(
    url: String,
    client: ConnectProxyClient,
    path: &str,
    at: String,
    apps: String,
    id: i32,
    app: String,
)
    requires
        call_ensures(ConnectProxyClient::new, (url,), client),
        call_ensures(ConnectProxyClient::url, (&client, path), at),
        call_ensures(ConnectProxyClient::apps_url, (&client,), apps),
        call_ensures(ConnectProxyClient::app_url, (&client, id), app),
    ensures
        at@ == url@ + path@,
        apps@ == url@ + "/apps"@,
        app@ == url@ + "/apps/"@ + signed_decimal(id as int),
{
    assert(app@ =~= url@ + "/apps/"@ + signed_decimal(id as int));
}

/// A new application is asked for ten times at most, until it is active; one that is not by then
/// did not start in time.
pub proof fn law_application_is_awaited(
    created: Application,
    first: AwaitApplication,
    waiting: AwaitApplication,
    app: Application,
    step: AwaitStep,
)
    requires
        call_ensures(AwaitApplication::start, (&created,), first),
        call_ensures(AwaitApplication::answered, (waiting, app), step),
        waiting.attempts < 10,
    ensures
        first.id == created.id,
        first.attempts == 0,
        app.active ==> step == AwaitStep::Ready(app),
        !app.active && waiting.attempts < 9 ==> (step matches AwaitStep::Again(next) && next.id
            == waiting.id && next.attempts == waiting.attempts + 1),
        !app.active && waiting.attempts == 9 ==> step is TimedOut,
        TIMED_OUT@ == "App didn't start in time"@,
{
}

/// How the port of a server is written.
pub open spec fn port_text(port: Option<u16>) -> Seq<char> {
    match port {
        Some(p) => ":"@ + decimal(p as nat),
        None => seq![],
    }
}

/// An application is connected to at the server's host and port, with the application's token, and
/// by TLS exactly where the server's address asks for it.
pub proof fn law_connection_strings(
    client: ConnectProxyClient,
    parts: Result<(Option<String>, Option<u16>), String>,
    app: Application,
    res: Result<String, ClientError>,
)
    requires
        call_ensures(ConnectProxyClient::connection_to, (&client, parts, &app), res),
    ensures
        match parts {
            Err(reason) => res matches Err(ClientError::InvalidUrl(words)) && words@ == reason@,
            Ok((None, _)) => res matches Err(ClientError::NoHost),
            Ok((Some(host), port)) => {
                let plain = "sc://"@ + host@ + port_text(port) + "/;token="@ + app.token@;
                res matches Ok(text) && if "https"@.is_prefix_of(client.base_url@) {
                    text@ == plain + ";use_ssl=true"@
                } else {
                    text@ == plain
                }
            },
        },
{
    if let Ok((Some(host), port)) = parts {
        let plain = "sc://"@ + host@ + port_text(port) + "/;token="@ + app.token@;
        if !"https"@.is_prefix_of(client.base_url@) {
            assert(plain + Seq::<char>::empty() =~= plain);
        }
    }
}

/// A session is created at what is read of the server's own address.
pub proof fn law_sessions_are_created_at_the_server(
    client: ConnectProxyClient,
    app: Application,
    res: Result<String, ClientError>,
    parts: Result<(Option<String>, Option<u16>), String>,
    by_parts: Result<String, ClientError>,
)
    requires
        call_ensures(ConnectProxyClient::create_session, (&client, &app), res),
        call_ensures(ConnectProxyClient::connection_to, (&client, parts, &app), by_parts),
        url_parts(client.base_url@) == (match parts {
            Ok((host, port)) => Ok::<(Option<Seq<char>>, Option<u16>), Seq<char>>(
                (opt_view(host), port),
            ),
            Err(reason) => Err(reason@),
        }),
    ensures
        match (res, by_parts) {
            (Ok(a), Ok(b)) => a@ == b@,
            (Err(a), Err(b)) => a@ == b@,
            _ => false,
        },
{
}

} // verus!
