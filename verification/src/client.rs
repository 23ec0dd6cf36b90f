//! The client: how an application is created, awaited, connected to and stopped through the
//! server.
use crate::text::{
    concat2, concat3, decimal, decimal_text, opt_view, signed_decimal, signed_decimal_text,
    starts_with,
};
use crate::trusted::address::{read_url, url_parts};
use vstd::prelude::*;

verus! {

/// An application, as the server describes it.
pub struct Application {
    pub id: i32,
    pub token: String,
    pub active: bool,
}

/// How often a new application is asked for before it is given up.
pub const MAX_ATTEMPTS: usize = 10;

/// How long to wait before a new application is asked for again.
pub const ATTEMPT_DELAY_SECONDS: u64 = 1;

/// Waiting for a new application.
pub struct AwaitApplication {
    pub id: i32,
    /// How often the application was asked for.
    pub attempts: usize,
}

/// What follows from an answer to a question for a new application.
pub enum AwaitStep {
    Ready(Application),
    /// Ask again after `ATTEMPT_DELAY_SECONDS`.
    Again(AwaitApplication),
    /// It did not start in time. The delay passes once more before that is said.
    TimedOut,
}

/// What is said of an application that did not start in time.
pub const TIMED_OUT: &'static str = "App didn't start in time";

impl AwaitApplication {
    /// How many questions are left, the current one among them.
    pub open spec fn left(self) -> int {
        MAX_ATTEMPTS - self.attempts
    }

    /// Begins to wait for the application that the server has created.
    pub fn start(created: &Application) -> (res: AwaitApplication)
        ensures
            res.id == created.id,
            res.left() == 10,
    {
        AwaitApplication { id: created.id, attempts: 0 }
    }

    /// Goes on after the server has described the application.
    pub fn answered(self, app: Application) -> (res: AwaitStep)
        requires
            self.left() > 0,
        ensures
            match res {
                AwaitStep::Ready(ready) => app.active && ready == app,
                AwaitStep::Again(next) => {
                    &&& !app.active
                    &&& next.id == self.id
                    &&& next.left() == self.left() - 1
                    &&& next.left() > 0
                },
                AwaitStep::TimedOut => !app.active && self.left() == 1,
            },
    {
        if app.active {
            AwaitStep::Ready(app)
        } else if self.attempts + 1 < MAX_ATTEMPTS {
            AwaitStep::Again(AwaitApplication { id: self.id, attempts: self.attempts + 1 })
        } else {
            AwaitStep::TimedOut
        }
    }
}

/// Why there is no way to connect to an application.
#[derive(Debug)]
pub enum ClientError {
    /// The server's address is no address.
    InvalidUrl(String),
    /// The server's address has no host.
    NoHost,
}

/// What a `ClientError` says.
pub enum ClientErrorView {
    InvalidUrl(Seq<char>),
    NoHost,
}

impl View for ClientError {
    type V = ClientErrorView;

    open spec fn view(&self) -> ClientErrorView {
        match self {
            ClientError::InvalidUrl(reason) => ClientErrorView::InvalidUrl(reason@),
            ClientError::NoHost => ClientErrorView::NoHost,
        }
    }
}

/// The connection string of an application with the given token, on a server with the given
/// host and port.
pub open spec fn connection_text(
    host: Seq<char>,
    port: Option<u16>,
    use_ssl: bool,
    token: Seq<char>,
) -> Seq<char> {
    "sc://"@ + host + (match port {
        Some(p) => ":"@ + decimal(p as nat),
        None => seq![],
    }) + "/;token="@ + token + (if use_ssl {
        ";use_ssl=true"@
    } else {
        seq![]
    })
}

/// The connection string, by what was read of the server's address.
pub open spec fn connection_of(
    base_url: Seq<char>,
    parts: Result<(Option<Seq<char>>, Option<u16>), Seq<char>>,
    token: Seq<char>,
) -> Result<Seq<char>, ClientErrorView> {
    match parts {
        Err(reason) => Err(ClientErrorView::InvalidUrl(reason)),
        Ok((None, _)) => Err(ClientErrorView::NoHost),
        Ok((Some(host), port)) => Ok(
            connection_text(host, port, "https"@.is_prefix_of(base_url), token),
        ),
    }
}

/// A client of the server at an address.
pub struct ConnectProxyClient {
    pub base_url: String,
}

impl ConnectProxyClient {
    /// The client of the server at the address.
    pub fn new(url: String) -> (res: ConnectProxyClient)
        ensures
            res.base_url == url,
    {
        ConnectProxyClient { base_url: url }
    }

    /// The address of a path on the server.
    pub fn url(&self, path: &str) -> (res: String)
        ensures
            res@ == self.base_url@ + path@,
    {
        concat2(self.base_url.as_str(), path)
    }

    /// Where applications are created.
    pub fn apps_url(&self) -> (res: String)
        ensures
            res@ == self.base_url@ + "/apps"@,
    {
        self.url("/apps")
    }

    /// Where an application is described and stopped.
    pub fn app_url(&self, app_id: i32) -> (res: String)
        ensures
            res@ == self.base_url@ + ("/apps/"@ + signed_decimal(app_id as int)),
    {
        let number = signed_decimal_text(app_id);
        self.url(concat2("/apps/", number.as_str()).as_str())
    }

    /// The connection string of an application, by what was read of the server's address.
    pub fn connection_to(
        &self,
        parts: Result<(Option<String>, Option<u16>), String>,
        app: &Application,
    ) -> (res: Result<String, ClientError>)
        ensures
            ({
                let read = match parts {
                    Ok((host, port)) => Ok((opt_view(host), port)),
                    Err(reason) => Err(reason@),
                };
                match (connection_of(self.base_url@, read, app.token@), res) {
                    (Ok(text), Ok(connection)) => connection@ == text,
                    (Err(reason), Err(e)) => e@ == reason,
                    _ => false,
                }
            }),
    {
        let (host, port) = match parts {
            Err(reason) => {
                return Err(ClientError::InvalidUrl(reason));
            },
            Ok((None, _)) => {
                return Err(ClientError::NoHost);
            },
            Ok((Some(host), port)) => (host, port),
        };
        let port_text = match port {
            Some(p) => concat2(":", decimal_text(p as u64).as_str()),
            None => String::new(),
        };
        let server = concat3("sc://", host.as_str(), port_text.as_str());
        let mut connection = concat3(server.as_str(), "/;token=", app.token.as_str());
        if starts_with(self.base_url.as_str(), "https") {
            connection.append(";use_ssl=true");
        }
        assert(connection@ =~= connection_text(
            host@,
            port,
            "https"@.is_prefix_of(self.base_url@),
            app.token@,
        ));
        Ok(connection)
    }

    /// The connection string of an application.
    pub fn create_session(&self, app: &Application) -> (res: Result<String, ClientError>)
        ensures
            match (connection_of(self.base_url@, url_parts(self.base_url@), app.token@), res) {
                (Ok(text), Ok(connection)) => connection@ == text,
                (Err(reason), Err(e)) => e@ == reason,
                _ => false,
            },
    {
        self.connection_to(read_url(self.base_url.as_str()), app)
    }
}

} // verus!
