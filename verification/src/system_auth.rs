//! Authenticating users with the accounts of the system: every configured method is asked, and
//! the last that recognises a user decides.
use crate::application::StatusCode;
use crate::auth::{
    named_user, option_of, options_of, AuthSetupError, AuthSetupErrorView, CurrentUserAuth,
    RemoteUserAuth, UserId,
};
use crate::config::{AuthConfig, ConfigMap, ProxyConfig};
use crate::headers::{header_read, read_header, HeaderRead, HeaderReadView, AUTHORIZATION};
use crate::text::{cut_once, equals, opt_view, split_once, starts_with};
use crate::text_map::TextMap;
use crate::trusted::basic::{base64_bytes, decode_base64, text_of_bytes};
use crate::trusted::host::current_username;
use http::header::HeaderMap;
use vstd::prelude::*;
use vstd::string::StrSliceExecFns;
use vstd::utf8::{decode_utf8, encode_utf8_decode_utf8, encode_utf8_valid_utf8, valid_utf8};

verus! {

/// A user's name and password.
#[derive(Debug)]
pub struct Credentials {
    pub username: String,
    pub password: String,
}

/// What is wrong with an authorization of the scheme `Basic`.
#[derive(Clone, Copy, PartialEq, Eq, Structural, Debug)]
pub enum BasicError {
    NotBase64,
    NotText,
    NoColon,
}

/// The name and the password in the bytes of an authorization of the scheme `Basic`.
pub open spec fn credentials_in(bytes: Option<Seq<u8>>) -> Result<
    (Seq<char>, Seq<char>),
    BasicError,
> {
    match bytes {
        None => Err(BasicError::NotBase64),
        Some(b) => if !valid_utf8(b) {
            Err(BasicError::NotText)
        } else {
            match cut_once(decode_utf8(b), ':') {
                Some((username, password)) => Ok((username, password)),
                None => Err(BasicError::NoColon),
            }
        },
    }
}

/// Whether the result is what the specification says.
pub open spec fn credentials_are(
    res: Result<Credentials, BasicError>,
    expected: Result<(Seq<char>, Seq<char>), BasicError>,
) -> bool {
    match (res, expected) {
        (Ok(c), Ok((username, password))) => c.username@ == username && c.password@ == password,
        (Err(e), Err(reason)) => e == reason,
        _ => false,
    }
}

/// The name and the password in the bytes of an authorization of the scheme `Basic`.
pub fn read_credentials(bytes: Option<Vec<u8>>) -> (res: Result<Credentials, BasicError>)
    ensures
        credentials_are(
            res,
            credentials_in(
                match bytes {
                    Some(b) => Some(b@),
                    None => None,
                },
            ),
        ),
{
    let text = match bytes {
        None => {
            return Err(BasicError::NotBase64);
        },
        Some(b) => match text_of_bytes(b) {
            None => {
                return Err(BasicError::NotText);
            },
            Some(text) => text,
        },
    };
    proof {
        encode_utf8_valid_utf8(text@);
        encode_utf8_decode_utf8(text@);
    }
    match split_once(text.as_str(), ':') {
        Some((username, password)) => Ok(Credentials { username, password }),
        None => Err(BasicError::NoColon),
    }
}

/// Authenticates users by the accounts of the system.
pub struct PamAuth {}

/// The credentials that an authorization header offers, if it is of the scheme `Basic`.
pub open spec fn offered_credentials(auth_header: Seq<char>) -> Option<
    Result<(Seq<char>, Seq<char>), BasicError>,
> {
    if "Basic "@.is_prefix_of(auth_header) {
        Some(credentials_in(base64_bytes(auth_header.skip(6))))
    } else {
        None
    }
}

impl PamAuth {
    /// The credentials to verify for a request with the given authorization header, if it is
    /// of the scheme `Basic`.
    pub fn credentials(&self, auth_header: &str) -> (res: Option<Result<Credentials, BasicError>>)
        ensures
            match (offered_credentials(auth_header@), res) {
                (Some(expected), Some(result)) => credentials_are(result, expected),
                (None, None) => true,
                _ => false,
            },
    {
        if !starts_with(auth_header, "Basic ") {
            return None;
        }
        proof {
            reveal_strlit("Basic ");
        }
        let length: usize = auth_header.unicode_len();
        let encoded = auth_header.substring_char(6, length);
        assert(encoded@ =~= auth_header@.skip(6));
        Some(read_credentials(decode_base64(encoded)))
    }
}

/// A method that is set up.
pub enum SystemMethod {
    CurrentUser(CurrentUserAuth),
    RemoteUser(RemoteUserAuth),
    Pam(PamAuth),
}

/// What a method says of a request.
pub enum SystemAnswer {
    /// It does not recognise a user.
    Pass,
    /// It recognises this user.
    User(Seq<char>),
    /// It recognises the user that runs the server.
    CurrentUser,
    /// It recognises the user of these credentials, if the system verifies them.
    Verify(Seq<char>, Seq<char>),
    /// The credentials cannot be read.
    Malformed(BasicError),
}

/// What a method says of a request with the given headers.
pub open spec fn system_answer(method: SystemMethod, headers: HeaderMap) -> SystemAnswer {
    match method {
        SystemMethod::CurrentUser(_) => SystemAnswer::CurrentUser,
        SystemMethod::RemoteUser(remote) => match named_user(
            header_read(headers, remote.header@),
        ) {
            Some(user) => SystemAnswer::User(user),
            None => SystemAnswer::Pass,
        },
        SystemMethod::Pam(_) => match header_read(headers, AUTHORIZATION@) {
            HeaderReadView::Text(text) => match offered_credentials(text) {
                Some(Ok((username, password))) => SystemAnswer::Verify(username, password),
                Some(Err(e)) => SystemAnswer::Malformed(e),
                None => SystemAnswer::Pass,
            },
            _ => SystemAnswer::Pass,
        },
    }
}

/// Whether a method settles by itself what it says.
pub open spec fn settles(answer: SystemAnswer) -> bool {
    answer !is Verify && answer !is Malformed
}

/// The user after the methods from `from` up to `to` were asked, where `user` was recognised
/// before and `current_user` runs the server: the last one that was recognised.
pub open spec fn user_after(
    methods: Seq<SystemMethod>,
    headers: HeaderMap,
    current_user: Seq<char>,
    from: int,
    to: int,
    user: Option<Seq<char>>,
) -> Option<Seq<char>>
    decreases to - from,
{
    if to <= from {
        user
    } else {
        match system_answer(methods[to - 1], headers) {
            SystemAnswer::User(u) => Some(u),
            SystemAnswer::CurrentUser => Some(current_user),
            _ => user_after(methods, headers, current_user, from, to - 1, user),
        }
    }
}

/// How far the authentication of a request has come.
pub struct SystemAuthRun {
    /// The method to ask next.
    pub next: usize,
    /// The user that was recognised last.
    pub user: Option<String>,
}

/// What follows for a request.
pub enum SystemAuthStep {
    Allowed(UserId),
    Refused(StatusCode),
    /// Verify the credentials, and go on with `SystemAuth::verified`.
    Verify(SystemAuthRun, Credentials),
    /// The credentials cannot be read.
    Malformed(BasicError),
}

/// Whether the methods from `from` up to `to` settle by themselves what they say.
pub open spec fn all_settle(
    methods: Seq<SystemMethod>,
    headers: HeaderMap,
    from: int,
    to: int,
) -> bool {
    forall|i: int| from <= i < to ==> settles(system_answer(#[trigger] methods[i], headers))
}

/// Whether the step is right, where `current_user` runs the server.
pub open spec fn system_step_is(
    step: SystemAuthStep,
    methods: Seq<SystemMethod>,
    headers: HeaderMap,
    current_user: Seq<char>,
    from: int,
    user: Option<Seq<char>>,
) -> bool {
    let end = methods.len() as int;
    match step {
        SystemAuthStep::Allowed(id) => {
            &&& all_settle(methods, headers, from, end)
            &&& user_after(methods, headers, current_user, from, end, user) == Some(id.0@)
        },
        SystemAuthStep::Refused(status) => {
            &&& all_settle(methods, headers, from, end)
            &&& user_after(methods, headers, current_user, from, end, user) is None
            &&& status == StatusCode::Unauthorized
        },
        SystemAuthStep::Verify(run, credentials) => {
            &&& from <= run.next < end
            &&& all_settle(methods, headers, from, run.next as int)
            &&& system_answer(methods[run.next as int], headers) == SystemAnswer::Verify(
                credentials.username@,
                credentials.password@,
            )
            &&& opt_view(run.user) == user_after(
                methods,
                headers,
                current_user,
                from,
                run.next as int,
                user,
            )
        },
        SystemAuthStep::Malformed(e) => exists|i: int|
            {
                &&& from <= i < end
                &&& all_settle(methods, headers, from, i)
                &&& system_answer(#[trigger] methods[i], headers) == SystemAnswer::Malformed(e)
            },
    }
}

/// The user that was recognised last, now or before.
pub open spec fn latest(now: Option<String>, before: Option<String>) -> Option<Seq<char>> {
    match now {
        Some(name) => Some(name@),
        None => opt_view(before),
    }
}

/// Authenticates users by the last method that recognises them.
pub struct SystemAuth {
    pub auth_methods: Vec<SystemMethod>,
}

/// Why a configured method cannot be set up, if it cannot.
pub open spec fn system_method_fault(config: AuthConfig, pam_enabled: bool) -> Option<
    AuthSetupErrorView,
> {
    if config.name@ == "remote_user"@ {
        match option_of(options_of(config), "header"@) {
            Some(_) => None,
            None => Some(AuthSetupErrorView::MissingHeader),
        }
    } else if config.name@ == "pam"@ && pam_enabled {
        None
    } else {
        Some(AuthSetupErrorView::UnknownMethod(config.name@))
    }
}

/// The faults of the configured methods.
pub open spec fn system_faults(configs: Seq<AuthConfig>, pam_enabled: bool) -> Seq<
    Option<AuthSetupErrorView>,
> {
    configs.map_values(|c: AuthConfig| system_method_fault(c, pam_enabled))
}

/// Whether the method is the configured one.
pub open spec fn system_method_is(config: AuthConfig, method: SystemMethod) -> bool {
    if config.name@ == "remote_user"@ {
        method matches SystemMethod::RemoteUser(remote) && Some(remote.header@) == option_of(
            options_of(config),
            "header"@,
        )
    } else {
        method is Pam
    }
}

/// Sets up one configured method.
fn create_method(config: &AuthConfig, pam_enabled: bool) -> (res: Result<
    SystemMethod,
    AuthSetupError,
>)
    ensures
        match res {
            Ok(method) => system_method_fault(*config, pam_enabled) is None && system_method_is(
                *config,
                method,
            ),
            Err(e) => system_method_fault(*config, pam_enabled) == Some(e@),
        },
{
    let none: ConfigMap = TextMap::new();
    assert(none.texts() =~= Map::empty());
    let options: &ConfigMap = match &config.options {
        Some(options) => options,
        None => &none,
    };
    if equals(config.name.as_str(), "remote_user") {
        if !options.contains_key("header") {
            return Err(AuthSetupError::MissingHeader);
        }
        Ok(SystemMethod::RemoteUser(RemoteUserAuth::create(options)))
    } else if equals(config.name.as_str(), "pam") && pam_enabled {
        Ok(SystemMethod::Pam(PamAuth {  }))
    } else {
        Err(AuthSetupError::UnknownMethod(config.name.clone()))
    }
}

/// Whether the methods are those that are configured first, in their order.
spec fn are_set_up(configs: Seq<AuthConfig>, pam_enabled: bool, methods: Seq<SystemMethod>) -> bool {
    &&& methods.len() <= configs.len()
    &&& forall|j: int|
        0 <= j < methods.len() ==> system_method_is(configs[j], #[trigger] methods[j])
            && system_faults(configs, pam_enabled)[j] is None
}

proof fn lemma_one_more_set_up(
    configs: Seq<AuthConfig>,
    pam_enabled: bool,
    methods: Seq<SystemMethod>,
    method: SystemMethod,
)
    requires
        are_set_up(configs, pam_enabled, methods),
        methods.len() < configs.len(),
        system_method_fault(configs[methods.len() as int], pam_enabled) is None,
        system_method_is(configs[methods.len() as int], method),
    ensures
        are_set_up(configs, pam_enabled, methods.push(method)),
{
    let more = methods.push(method);
    assert forall|j: int| 0 <= j < more.len() implies system_method_is(
        configs[j],
        #[trigger] more[j],
    ) && system_faults(configs, pam_enabled)[j] is None by {
        if j < methods.len() {
            assert(more[j] == methods[j]);
        }
    }
}

impl SystemAuth {
    /// Sets up the configured methods in their order, or the current user where none are
    /// configured. The configuration is refused for the first method that cannot be set up.
    pub fn new(config: &ProxyConfig, pam_enabled: bool) -> (res: Result<
        SystemAuth,
        AuthSetupError,
    >)
        ensures
            match (config.auth_methods, res) {
                (None, Ok(auth)) => auth.auth_methods@.len() == 1
                    && auth.auth_methods@[0] is CurrentUser,
                (Some(configs), Ok(auth)) => {
                    &&& auth.auth_methods@.len() == configs@.len()
                    &&& forall|i: int|
                        0 <= i < configs@.len() ==> system_method_is(
                            configs@[i],
                            #[trigger] auth.auth_methods@[i],
                        ) && system_faults(configs@, pam_enabled)[i] is None
                },
                (Some(configs), Err(e)) => exists|i: int|
                    {
                        &&& 0 <= i < configs@.len()
                        &&& #[trigger] system_faults(configs@, pam_enabled)[i] == Some(e@)
                        &&& forall|j: int|
                            0 <= j < i ==> #[trigger] system_faults(
                                configs@,
                                pam_enabled,
                            )[j] is None
                    },
                (None, Err(_)) => false,
            },
    {
        let mut auth_methods: Vec<SystemMethod> = Vec::new();
        match &config.auth_methods {
            None => {
                auth_methods.push(SystemMethod::CurrentUser(CurrentUserAuth {  }));
            },
            Some(configs) => {
                let mut i: usize = 0;
                while i < configs.len()
                    invariant
                        i <= configs.len(),
                        auth_methods@.len() == i,
                        config.auth_methods == Some(*configs),
                        are_set_up(configs@, pam_enabled, auth_methods@),
                    decreases configs.len() - i,
                {
                    match create_method(&configs[i], pam_enabled) {
                        Ok(method) => {
                            let ghost before = auth_methods@;
                            auth_methods.push(method);
                            proof {
                                lemma_one_more_set_up(configs@, pam_enabled, before, method);
                            }
                        },
                        Err(e) => {
                            assert forall|j: int| 0 <= j < i implies (#[trigger] system_faults(
                                configs@,
                                pam_enabled,
                            )[j]) is None by {
                                assert(system_method_is(configs@[j], auth_methods@[j]));
                            }
                            assert(system_faults(configs@, pam_enabled)[i as int] == Some(e@));
                            return Err(e);
                        },
                    }
                    i += 1;
                }
            },
        }
        Ok(SystemAuth { auth_methods })
    }

    /// Begins to authenticate the user of a request. Who runs the server depends on the machine.
    pub fn authorize(&self, headers: &HeaderMap) -> (res: SystemAuthStep)
        ensures
            exists|current_user: Seq<char>| #[trigger]
                system_step_is(res, self.auth_methods@, *headers, current_user, 0, None),
    {
        self.authorize_as(headers, current_username().as_str())
    }

    /// Begins to authenticate the user of a request, where `current_user` runs the server.
    pub fn authorize_as(&self, headers: &HeaderMap, current_user: &str) -> (res: SystemAuthStep)
        ensures
            system_step_is(res, self.auth_methods@, *headers, current_user@, 0, None),
    {
        self.authorize_from(headers, SystemAuthRun { next: 0, user: None }, current_user)
    }

    /// Goes on after the system has verified the credentials of the current method, or has not.
    /// Their user is then the one that was recognised last. Who runs the server depends on the
    /// machine.
    pub fn verified(
        &self,
        headers: &HeaderMap,
        run: SystemAuthRun,
        username: Option<String>,
    ) -> (res: SystemAuthStep)
        requires
            run.next < self.auth_methods.len(),
        ensures
            exists|current_user: Seq<char>| #[trigger]
                system_step_is(
                    res,
                    self.auth_methods@,
                    *headers,
                    current_user,
                    run.next + 1,
                    latest(username, run.user),
                ),
    {
        self.verified_as(headers, run, username, current_username().as_str())
    }

    /// Goes on after the system has verified the credentials of the current method, or has not,
    /// where `current_user` runs the server.
    pub fn verified_as(
        &self,
        headers: &HeaderMap,
        run: SystemAuthRun,
        username: Option<String>,
        current_user: &str,
    ) -> (res: SystemAuthStep)
        requires
            run.next < self.auth_methods.len(),
        ensures
            system_step_is(
                res,
                self.auth_methods@,
                *headers,
                current_user@,
                run.next + 1,
                latest(username, run.user),
            ),
    {
        let user = match username {
            Some(name) => Some(name),
            None => run.user,
        };
        self.authorize_from(headers, SystemAuthRun { next: run.next + 1, user }, current_user)
    }

    /// Authenticates the user of a request by the methods from the next one on.
    fn authorize_from(&self, headers: &HeaderMap, run: SystemAuthRun, current_user: &str) -> (res:
        SystemAuthStep)
        requires
            run.next <= self.auth_methods.len(),
        ensures
            system_step_is(
                res,
                self.auth_methods@,
                *headers,
                current_user@,
                run.next as int,
                opt_view(run.user),
            ),
    {
        let ghost methods = self.auth_methods@;
        let ghost from = run.next as int;
        let ghost first = opt_view(run.user);
        let mut i: usize = run.next;
        let mut user: Option<String> = run.user;
        while i < self.auth_methods.len()
            invariant
                methods == self.auth_methods@,
                from == run.next,
                first == opt_view(run.user),
                0 <= from <= i <= methods.len(),
                all_settle(methods, *headers, from, i as int),
                opt_view(user) == user_after(
                    methods,
                    *headers,
                    current_user@,
                    from,
                    i as int,
                    first,
                ),
            decreases self.auth_methods.len() - i,
        {
            match &self.auth_methods[i] {
                SystemMethod::CurrentUser(method) => {
                    if let Ok(Some(name)) = method.authorize_as(current_user) {
                        user = Some(name);
                    }
                },
                SystemMethod::RemoteUser(method) => {
                    if let Ok(Some(name)) = method.authorize_user(headers) {
                        user = Some(name);
                    }
                },
                SystemMethod::Pam(method) => {
                    if let HeaderRead::Text(text) = read_header(headers, AUTHORIZATION) {
                        match method.credentials(text) {
                            Some(Ok(credentials)) => {
                                let run = SystemAuthRun { next: i, user };
                                return SystemAuthStep::Verify(run, credentials);
                            },
                            Some(Err(e)) => {
                                assert(system_answer(methods[i as int], *headers)
                                    == SystemAnswer::Malformed(e));
                                return SystemAuthStep::Malformed(e);
                            },
                            None => (),
                        }
                    }
                },
            }
            i += 1;
        }
        match user {
            Some(name) => SystemAuthStep::Allowed(UserId(name)),
            None => SystemAuthStep::Refused(StatusCode::Unauthorized),
        }
    }
}

/// The last method that recognises a user decides, whatever the methods before it say.
pub proof fn law_last_method_decides(
    methods: Seq<SystemMethod>,
    headers: HeaderMap,
    current_user: Seq<char>,
    from: int,
    last: int,
    to: int,
    user: Option<Seq<char>>,
    recognised: Seq<char>,
)
    requires
        from <= last < to,
        system_answer(methods[last], headers) == SystemAnswer::User(recognised) || (
        system_answer(methods[last], headers) is CurrentUser && recognised == current_user),
        forall|i: int|
            last < i < to ==> system_answer(#[trigger] methods[i], headers) is Pass,
    ensures
        user_after(methods, headers, current_user, from, to, user) == Some(recognised),
    decreases to - last,
{
    if last < to - 1 {
        assert(system_answer(methods[to - 1], headers) is Pass);
        law_last_method_decides(
            methods,
            headers,
            current_user,
            from,
            last,
            to - 1,
            user,
            recognised,
        );
    }
}

/// A request that no method recognises is refused: no user comes of it.
pub proof fn law_no_method_no_user(
    methods: Seq<SystemMethod>,
    headers: HeaderMap,
    current_user: Seq<char>,
    from: int,
    to: int,
)
    requires
        forall|i: int|
            from <= i < to ==> system_answer(#[trigger] methods[i], headers) is Pass,
    ensures
        user_after(methods, headers, current_user, from, to, None) is None,
    decreases to - from,
{
    if from < to {
        assert(system_answer(methods[to - 1], headers) is Pass);
        law_no_method_no_user(methods, headers, current_user, from, to - 1);
    }
}

} // verus!
