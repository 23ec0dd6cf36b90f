//! Authenticating callers: users by the configured methods, sessions by their tokens.
use crate::application::StatusCode;
use crate::config::{AuthConfig, ConfigMap, ProxyConfig};
use crate::connection::{scheme_token, token_of_scheme};
use crate::error::{Error, ErrorView};
use crate::headers::{header_read, read_header, HeaderRead, HeaderReadView, AUTHORIZATION};
use crate::text::{concat2, equals, lemma_cut_at, opt_view, starts_with, str_view};
use crate::text_map::TextMap;
use crate::trusted::host::current_username;
use crate::trusted::jwt::{
    ec_pem_key, ed_pem_key, read_ec_pem, read_ed_pem, read_key_id, read_rsa_pem, rsa_pem_key,
    token_key_id,
};
use http::header::HeaderMap;
use jsonwebtoken::DecodingKey;
use vstd::prelude::*;
use vstd::string::StrSliceExecFns;
use vstd::utf8::encode_utf8;

verus! {

/// The user that a request is made for.
#[derive(Debug)]
pub struct UserId(pub String);

/// The token of the session that a request comes from.
#[derive(Debug)]
pub struct BearerToken(pub String);

impl Clone for UserId {
    fn clone(&self) -> (res: UserId)
        ensures
            res == *self,
    {
        UserId(self.0.clone())
    }
}

impl Clone for BearerToken {
    fn clone(&self) -> (res: BearerToken)
        ensures
            res == *self,
    {
        BearerToken(self.0.clone())
    }
}

/// What an authorization header holds for methods that verify tokens: the text after
/// `Bearer `, nothing where the header is absent or of another kind, or an error where it
/// cannot be read.
pub open spec fn offered_token(header: HeaderReadView) -> Result<Option<Seq<char>>, ErrorView> {
    match header {
        HeaderReadView::Absent => Ok(None),
        HeaderReadView::Unreadable(reason) => Err(ErrorView::InvalidAuthorizationHeader(reason)),
        HeaderReadView::Text(text) => if "Bearer "@.is_prefix_of(text) {
            Ok(Some(text.skip(7)))
        } else {
            Ok(None)
        },
    }
}

/// The token in an authorization header that was read.
pub fn token_of_header<'a>(header: HeaderRead<'a>) -> (res: Result<Option<&'a str>, Error>)
    ensures
        match (offered_token(header@), res) {
            (Ok(None), Ok(None)) => true,
            (Ok(Some(token)), Ok(Some(text))) => text@ == token,
            (Err(reason), Err(e)) => e@ == reason,
            _ => false,
        },
{
    match header {
        HeaderRead::Absent => Ok(None),
        HeaderRead::Unreadable(reason) => Err(Error::InvalidAuthorizationHeader(reason)),
        HeaderRead::Text(text) => {
            if starts_with(text, "Bearer ") {
                proof {
                    reveal_strlit("Bearer ");
                }
                let length: usize = text.unicode_len();
                let token = text.substring_char(7, length);
                assert(token@ =~= text@.skip(7));
                Ok(Some(token))
            } else {
                Ok(None)
            }
        },
    }
}

/// The token that a request offers for verification.
pub fn extract_bearer_token(header_map: &HeaderMap) -> (res: Result<Option<&str>, Error>)
    ensures
        match (offered_token(header_read(*header_map, AUTHORIZATION@)), res) {
            (Ok(None), Ok(None)) => true,
            (Ok(Some(token)), Ok(Some(text))) => text@ == token,
            (Err(reason), Err(e)) => e@ == reason,
            _ => false,
        },
{
    token_of_header(read_header(header_map, AUTHORIZATION))
}

/// Authenticates every caller as the user that runs the server.
pub struct CurrentUserAuth {}

impl CurrentUserAuth {
    /// The user that runs the server. Who that is depends on the machine.
    pub fn authorize_user(&self, _header_map: &HeaderMap) -> (res: Result<Option<String>, Error>)
        ensures
            res matches Ok(Some(_)),
    {
        self.authorize_as(current_username().as_str())
    }

    /// The user that runs the server, where that is the given one.
    pub fn authorize_as(&self, current_user: &str) -> (res: Result<Option<String>, Error>)
        ensures
            res matches Ok(Some(user)) && user@ == current_user@,
    {
        Ok(Some(current_user.to_owned()))
    }
}

/// Authenticates users by a header that holds their name. This assumes that they have been
/// authenticated already by a proxy that passes the name on.
pub struct RemoteUserAuth {
    pub header: String,
}

/// The user that a header names, if it can be read.
pub open spec fn named_user(header: HeaderReadView) -> Option<Seq<char>> {
    match header {
        HeaderReadView::Text(text) => Some(text),
        _ => None,
    }
}

impl RemoteUserAuth {
    /// The method with the given options, which must name the header.
    pub fn create(options: &ConfigMap) -> (res: RemoteUserAuth)
        requires
            options@.contains_key("header"@),
        ensures
            res.header == options@["header"@],
    {
        RemoteUserAuth { header: options.get("header").unwrap().clone() }
    }

    /// The user that the header names.
    pub fn authorize_user(&self, header_map: &HeaderMap) -> (res: Result<Option<String>, Error>)
        ensures
            res matches Ok(user) && opt_view(user) == named_user(
                header_read(*header_map, self.header@),
            ),
    {
        match read_header(header_map, self.header.as_str()) {
            HeaderRead::Text(text) => Ok(Some(text.to_owned())),
            _ => Ok(None),
        }
    }
}

/// The kind of a key.
#[derive(Clone, Copy, PartialEq, Eq, Structural, Debug)]
pub enum PemType {
    Rsa,
    Ec,
    Ed,
}

/// Where a key is.
pub enum PemSource {
    /// This is the key.
    Inline(String),
    /// The key is in the file of this name.
    File(String),
}

/// Where a set of keys is.
pub enum KeySetSource {
    JwksUrl(String),
    OidcUrl(String),
}

/// Why an authentication method cannot be set up.
#[derive(Debug)]
pub enum AuthSetupError {
    MissingHeader,
    BothPems,
    NoPem,
    UnknownPemType(String),
    UnreadablePem(PemType),
    BothUrls,
    NoUrl,
    UnknownMethod(String),
}

/// What an `AuthSetupError` says.
pub enum AuthSetupErrorView {
    MissingHeader,
    BothPems,
    NoPem,
    UnknownPemType(Seq<char>),
    UnreadablePem(PemType),
    BothUrls,
    NoUrl,
    UnknownMethod(Seq<char>),
}

impl View for AuthSetupError {
    type V = AuthSetupErrorView;

    open spec fn view(&self) -> AuthSetupErrorView {
        match self {
            AuthSetupError::MissingHeader => AuthSetupErrorView::MissingHeader,
            AuthSetupError::BothPems => AuthSetupErrorView::BothPems,
            AuthSetupError::NoPem => AuthSetupErrorView::NoPem,
            AuthSetupError::UnknownPemType(name) => AuthSetupErrorView::UnknownPemType(name@),
            AuthSetupError::UnreadablePem(kind) => AuthSetupErrorView::UnreadablePem(*kind),
            AuthSetupError::BothUrls => AuthSetupErrorView::BothUrls,
            AuthSetupError::NoUrl => AuthSetupErrorView::NoUrl,
            AuthSetupError::UnknownMethod(name) => AuthSetupErrorView::UnknownMethod(name@),
        }
    }
}

impl AuthSetupErrorView {
    /// The error in words.
    pub open spec fn message(self) -> Seq<char> {
        match self {
            AuthSetupErrorView::MissingHeader =>
                "'header' option must be set for remote_user authentication"@,
            AuthSetupErrorView::BothPems => "pem and pem_file cannot both be defined"@,
            AuthSetupErrorView::NoPem => "One of pem or pem_file must be defined for JWT auth"@,
            AuthSetupErrorView::UnknownPemType(name) => "Unknown PEM type "@ + name,
            AuthSetupErrorView::UnreadablePem(kind) => match kind {
                PemType::Rsa => "Failed to load RSA pem"@,
                PemType::Ec => "Failed to load EC pem"@,
                PemType::Ed => "Failed to load ED pem"@,
            },
            AuthSetupErrorView::BothUrls => "JWKS and OIDC URL cannot both be specified"@,
            AuthSetupErrorView::NoUrl => "Either jwks_url or oidc_url must be provided"@,
            AuthSetupErrorView::UnknownMethod(name) => "Unknown authentication method: "@ + name,
        }
    }
}

impl AuthSetupError {
    /// The error in words.
    pub fn message(&self) -> (res: String)
        ensures
            res@ == self@.message(),
    {
        match self {
            AuthSetupError::MissingHeader =>
                "'header' option must be set for remote_user authentication".to_owned(),
            AuthSetupError::BothPems => "pem and pem_file cannot both be defined".to_owned(),
            AuthSetupError::NoPem =>
                "One of pem or pem_file must be defined for JWT auth".to_owned(),
            AuthSetupError::UnknownPemType(name) => concat2("Unknown PEM type ", name.as_str()),
            AuthSetupError::UnreadablePem(kind) => match kind {
                PemType::Rsa => "Failed to load RSA pem".to_owned(),
                PemType::Ec => "Failed to load EC pem".to_owned(),
                PemType::Ed => "Failed to load ED pem".to_owned(),
            },
            AuthSetupError::BothUrls => "JWKS and OIDC URL cannot both be specified".to_owned(),
            AuthSetupError::NoUrl => "Either jwks_url or oidc_url must be provided".to_owned(),
            AuthSetupError::UnknownMethod(name) => concat2(
                "Unknown authentication method: ",
                name.as_str(),
            ),
        }
    }
}

/// What is set up for an authentication method, and what is still to be fetched for it.
pub enum MethodPlan {
    CurrentUser,
    RemoteUser(RemoteUserAuth),
    Jwt { pem: PemSource, pem_type: PemType },
    Jwks { keys: KeySetSource, audience: Option<String> },
}

/// What a `MethodPlan` says.
pub enum MethodPlanView {
    CurrentUser,
    RemoteUser(Seq<char>),
    /// The key, or the file that it is in, and its kind.
    Jwt(Result<Seq<char>, Seq<char>>, PemType),
    /// The address of the keys, or of the provider that knows it, and the audience.
    Jwks(Result<Seq<char>, Seq<char>>, Option<Seq<char>>),
}

impl View for MethodPlan {
    type V = MethodPlanView;

    open spec fn view(&self) -> MethodPlanView {
        match self {
            MethodPlan::CurrentUser => MethodPlanView::CurrentUser,
            MethodPlan::RemoteUser(method) => MethodPlanView::RemoteUser(method.header@),
            MethodPlan::Jwt { pem, pem_type } => MethodPlanView::Jwt(
                match pem {
                    PemSource::Inline(text) => Ok(text@),
                    PemSource::File(name) => Err(name@),
                },
                *pem_type,
            ),
            MethodPlan::Jwks { keys, audience } => MethodPlanView::Jwks(
                match keys {
                    KeySetSource::JwksUrl(url) => Ok(url@),
                    KeySetSource::OidcUrl(url) => Err(url@),
                },
                opt_view(*audience),
            ),
        }
    }
}

/// The option of the given name.
pub open spec fn option_of(options: Map<Seq<char>, Seq<char>>, name: Seq<char>) -> Option<
    Seq<char>,
> {
    if options.contains_key(name) {
        Some(options[name])
    } else {
        None
    }
}

/// The kind of key of the given name; RSA where none is named.
pub open spec fn pem_type_of(name: Option<Seq<char>>) -> Option<PemType> {
    match name {
        None => Some(PemType::Rsa),
        Some(n) => if n == "rsa"@ {
            Some(PemType::Rsa)
        } else if n == "ec"@ {
            Some(PemType::Ec)
        } else if n == "ed"@ {
            Some(PemType::Ed)
        } else {
            None
        },
    }
}

/// The plan of a method that verifies tokens with one key.
pub open spec fn jwt_plan(options: Map<Seq<char>, Seq<char>>) -> Result<
    MethodPlanView,
    AuthSetupErrorView,
> {
    match (option_of(options, "pem"@), option_of(options, "pem_file"@)) {
        (Some(_), Some(_)) => Err(AuthSetupErrorView::BothPems),
        (None, None) => Err(AuthSetupErrorView::NoPem),
        (pem, file) => match pem_type_of(option_of(options, "pem_type"@)) {
            None => Err(AuthSetupErrorView::UnknownPemType(options["pem_type"@])),
            Some(kind) => Ok(
                MethodPlanView::Jwt(
                    match pem {
                        Some(text) => Ok(text),
                        None => Err(file->0),
                    },
                    kind,
                ),
            ),
        },
    }
}

/// The plan of a method that verifies tokens with a set of keys.
pub open spec fn jwks_plan(options: Map<Seq<char>, Seq<char>>) -> Result<
    MethodPlanView,
    AuthSetupErrorView,
> {
    let audience = option_of(options, "audience"@);
    match (option_of(options, "jwks_url"@), option_of(options, "oidc_url"@)) {
        (Some(_), Some(_)) => Err(AuthSetupErrorView::BothUrls),
        (Some(url), None) => Ok(MethodPlanView::Jwks(Ok(url), audience)),
        (None, Some(url)) => Ok(MethodPlanView::Jwks(Err(url), audience)),
        (None, None) => Err(AuthSetupErrorView::NoUrl),
    }
}

/// The plan of the method of the given name.
pub open spec fn method_plan(name: Seq<char>, options: Map<Seq<char>, Seq<char>>) -> Result<
    MethodPlanView,
    AuthSetupErrorView,
> {
    if name == "remote_user"@ {
        match option_of(options, "header"@) {
            Some(header) => Ok(MethodPlanView::RemoteUser(header)),
            None => Err(AuthSetupErrorView::MissingHeader),
        }
    } else if name == "jwt"@ {
        jwt_plan(options)
    } else if name == "jwks"@ {
        jwks_plan(options)
    } else {
        Err(AuthSetupErrorView::UnknownMethod(name))
    }
}

/// Whether a result is what the specification says.
pub open spec fn plan_is(
    plan: Result<MethodPlan, AuthSetupError>,
    expected: Result<MethodPlanView, AuthSetupErrorView>,
) -> bool {
    match (plan, expected) {
        (Ok(p), Ok(v)) => p@ == v,
        (Err(e), Err(v)) => e@ == v,
        _ => false,
    }
}

/// The kind of key of the given name; RSA where none is named.
fn read_pem_type(name: Option<&String>) -> (res: Option<PemType>)
    ensures
        res == pem_type_of(
            match name {
                Some(n) => Some(n@),
                None => None,
            },
        ),
{
    match name {
        None => Some(PemType::Rsa),
        Some(n) => if equals(n.as_str(), "rsa") {
            Some(PemType::Rsa)
        } else if equals(n.as_str(), "ec") {
            Some(PemType::Ec)
        } else if equals(n.as_str(), "ed") {
            Some(PemType::Ed)
        } else {
            None
        },
    }
}

/// Authenticates users by tokens that one key verifies.
pub struct JWTAuth {
    pub key: DecodingKey,
}

/// The key of the given kind in the text, if there is one.
pub open spec fn pem_key(pem_type: PemType, pem: Seq<char>) -> Option<DecodingKey> {
    match pem_type {
        PemType::Rsa => rsa_pem_key(encode_utf8(pem)),
        PemType::Ec => ec_pem_key(encode_utf8(pem)),
        PemType::Ed => ed_pem_key(encode_utf8(pem)),
    }
}

impl JWTAuth {
    /// What the options ask for.
    pub fn plan(options: &ConfigMap) -> (res: Result<MethodPlan, AuthSetupError>)
        ensures
            plan_is(res, jwt_plan(options.texts())),
    {
        let pem_type = options.get("pem_type");
        let pem = match (options.get("pem"), options.get("pem_file")) {
            (Some(_), Some(_)) => {
                return Err(AuthSetupError::BothPems);
            },
            (Some(text), None) => PemSource::Inline(text.clone()),
            (None, Some(name)) => PemSource::File(name.clone()),
            (None, None) => {
                return Err(AuthSetupError::NoPem);
            },
        };
        match (read_pem_type(pem_type), pem_type) {
            (Some(pem_type), _) => Ok(MethodPlan::Jwt { pem, pem_type }),
            (None, Some(name)) => Err(AuthSetupError::UnknownPemType(name.clone())),
            (None, None) => Err(AuthSetupError::NoPem),
        }
    }

    /// The method with the key of the given kind.
    pub fn create(pem_type: PemType, pem: &str) -> (res: Result<JWTAuth, AuthSetupError>)
        ensures
            match (pem_key(pem_type, pem@), res) {
                (Some(key), Ok(method)) => method.key == key,
                (None, Err(e)) => e@ == AuthSetupErrorView::UnreadablePem(pem_type),
                _ => false,
            },
    {
        let key = match pem_type {
            PemType::Rsa => read_rsa_pem(pem.as_bytes()),
            PemType::Ec => read_ec_pem(pem.as_bytes()),
            PemType::Ed => read_ed_pem(pem.as_bytes()),
        };
        match key {
            Some(key) => Ok(JWTAuth { key }),
            None => Err(AuthSetupError::UnreadablePem(pem_type)),
        }
    }

    /// The token whose subject is the user, if the key verifies it.
    pub fn authorize_user(&self, header_map: &HeaderMap) -> (res: Result<Option<String>, Error>)
        ensures
            match (offered_token(header_read(*header_map, AUTHORIZATION@)), res) {
                (Ok(token), Ok(offered)) => opt_view(offered) == token,
                (Err(reason), Err(e)) => e@ == reason,
                _ => false,
            },
    {
        match extract_bearer_token(header_map) {
            Ok(Some(token)) => Ok(Some(token.to_owned())),
            Ok(None) => Ok(None),
            Err(e) => Err(e),
        }
    }
}

/// Authenticates users by tokens that name the key that verifies them. `K` is a key of the
/// set.
pub struct JWKSAuth<K> {
    pub keys: TextMap<K>,
    pub audience: Option<String>,
}

/// Which key of the set verifies a token with the given key identifier.
pub open spec fn key_for<K>(
    keys: Map<Seq<char>, K>,
    key_id: Result<Option<Seq<char>>, Seq<char>>,
) -> Result<K, ErrorView> {
    match key_id {
        Err(reason) => Err(ErrorView::Authorization(reason)),
        Ok(None) => Err(ErrorView::Authorization("jwt header should have a kid"@)),
        Ok(Some(id)) => if keys.contains_key(id) {
            Ok(keys[id])
        } else {
            Err(ErrorView::Authorization("jwt refer to a unknown key id"@))
        },
    }
}

impl<K> JWKSAuth<K> {
    /// What the options ask for.
    pub fn plan(options: &ConfigMap) -> (res: Result<MethodPlan, AuthSetupError>)
        ensures
            plan_is(res, jwks_plan(options.texts())),
    {
        let audience = match options.get("audience") {
            Some(name) => Some(name.clone()),
            None => None,
        };
        match (options.get("jwks_url"), options.get("oidc_url")) {
            (Some(_), Some(_)) => Err(AuthSetupError::BothUrls),
            (Some(url), None) => Ok(
                MethodPlan::Jwks { keys: KeySetSource::JwksUrl(url.clone()), audience },
            ),
            (None, Some(url)) => Ok(
                MethodPlan::Jwks { keys: KeySetSource::OidcUrl(url.clone()), audience },
            ),
            (None, None) => Err(AuthSetupError::NoUrl),
        }
    }

    /// The key that verifies a token with the given key identifier.
    pub fn find_key(&self, key_id: Result<Option<String>, String>) -> (res: Result<&K, Error>)
        ensures
            ({
                let id = match key_id {
                    Ok(Some(id)) => Ok(Some(id@)),
                    Ok(None) => Ok(None),
                    Err(reason) => Err(reason@),
                };
                match (key_for(self.keys@, id), res) {
                    (Ok(key), Ok(found)) => *found == key,
                    (Err(reason), Err(e)) => e@ == reason,
                    _ => false,
                }
            }),
    {
        match key_id {
            Err(reason) => Err(Error::Authorization(reason)),
            Ok(None) => Err(Error::Authorization("jwt header should have a kid".to_owned())),
            Ok(Some(id)) => match self.keys.get(id.as_str()) {
                Some(key) => Ok(key),
                None => Err(Error::Authorization("jwt refer to a unknown key id".to_owned())),
            },
        }
    }
}

/// The token and the key that verifies it, by what an authorization header offers.
pub open spec fn token_and_key<K>(
    offered: Result<Option<Seq<char>>, ErrorView>,
    keys: Map<Seq<char>, K>,
) -> Result<Option<(Seq<char>, K)>, ErrorView> {
    match offered {
        Err(e) => Err(e),
        Ok(None) => Ok(None),
        Ok(Some(token)) => match key_for(keys, token_key_id(token)) {
            Err(e) => Err(e),
            Ok(key) => Ok(Some((token, key))),
        },
    }
}

impl<K> JWKSAuth<K> {
    /// The token whose subject is the user, with the key that has to verify it.
    pub fn authorize_user<'a>(&'a self, header_map: &HeaderMap) -> (res: Result<
        Option<(String, &'a K)>,
        Error,
    >)
        ensures
            match (
                token_and_key(
                    offered_token(header_read(*header_map, AUTHORIZATION@)),
                    self.keys@,
                ),
                res,
            ) {
                (Ok(None), Ok(None)) => true,
                (Ok(Some((token, key))), Ok(Some((t, k)))) => t@ == token && *k == key,
                (Err(reason), Err(e)) => e@ == reason,
                _ => false,
            },
    {
        let token = match extract_bearer_token(header_map) {
            Ok(Some(token)) => token,
            Ok(None) => {
                return Ok(None);
            },
            Err(e) => {
                return Err(e);
            },
        };
        match self.find_key(read_key_id(token)) {
            Ok(key) => Ok(Some((token.to_owned(), key))),
            Err(e) => Err(e),
        }
    }
}

/// What the configuration of one method asks for.
pub fn plan_method(auth_config: &AuthConfig) -> (res: Result<MethodPlan, AuthSetupError>)
    ensures
        plan_is(res, method_plan(auth_config.name@, options_of(*auth_config))),
{
    let none: ConfigMap = TextMap::new();
    assert(none.texts() =~= Map::empty());
    let options: &ConfigMap = match &auth_config.options {
        Some(options) => options,
        None => &none,
    };
    if equals(auth_config.name.as_str(), "remote_user") {
        if !options.contains_key("header") {
            return Err(AuthSetupError::MissingHeader);
        }
        Ok(MethodPlan::RemoteUser(RemoteUserAuth::create(options)))
    } else if equals(auth_config.name.as_str(), "jwt") {
        JWTAuth::plan(options)
    } else if equals(auth_config.name.as_str(), "jwks") {
        JWKSAuth::<()>::plan(options)
    } else {
        Err(AuthSetupError::UnknownMethod(auth_config.name.clone()))
    }
}

/// The options of a configured method, none where there are none.
pub open spec fn options_of(auth_config: AuthConfig) -> Map<Seq<char>, Seq<char>> {
    match auth_config.options {
        Some(options) => options.texts(),
        None => Map::empty(),
    }
}

/// The plan of each of the configured methods.
pub open spec fn method_plans(configs: Seq<AuthConfig>) -> Seq<
    Result<MethodPlanView, AuthSetupErrorView>,
> {
    configs.map_values(|c: AuthConfig| method_plan(c.name@, options_of(c)))
}

/// What the configuration asks for: the configured methods in their order, or the current user
/// where none are configured. It is refused for the first method that cannot be set up.
pub fn plan_methods(config: &ProxyConfig) -> (res: Result<Vec<MethodPlan>, AuthSetupError>)
    ensures
        match (config.auth_methods, res) {
            (None, Ok(plans)) => plans@.len() == 1 && plans@[0]@ == MethodPlanView::CurrentUser,
            (Some(configs), Ok(plans)) => {
                &&& plans@.len() == configs@.len()
                &&& forall|i: int|
                    0 <= i < plans@.len() ==> method_plans(configs@)[i] == Ok::<
                        MethodPlanView,
                        AuthSetupErrorView,
                    >((#[trigger] plans@[i])@)
            },
            (Some(configs), Err(e)) => exists|i: int|
                {
                    &&& 0 <= i < configs@.len()
                    &&& #[trigger] method_plans(configs@)[i] == Err::<
                        MethodPlanView,
                        AuthSetupErrorView,
                    >(e@)
                    &&& forall|j: int| 0 <= j < i ==> #[trigger] method_plans(configs@)[j] is Ok
                },
            (None, Err(_)) => false,
        },
{
    let mut plans: Vec<MethodPlan> = Vec::new();
    match &config.auth_methods {
        None => {
            plans.push(MethodPlan::CurrentUser);
        },
        Some(configs) => {
            let mut i: usize = 0;
            while i < configs.len()
                invariant
                    i <= configs.len(),
                    plans@.len() == i,
                    config.auth_methods == Some(*configs),
                    forall|j: int|
                        0 <= j < i ==> method_plans(configs@)[j] == Ok::<
                            MethodPlanView,
                            AuthSetupErrorView,
                        >((#[trigger] plans@[j])@),
                decreases configs.len() - i,
            {
                match plan_method(&configs[i]) {
                    Ok(plan) => {
                        plans.push(plan);
                    },
                    Err(e) => {
                        assert forall|j: int| 0 <= j < i implies (#[trigger] method_plans(
                            configs@,
                        )[j]) is Ok by {
                            assert(method_plans(configs@)[j] == Ok::<
                                MethodPlanView,
                                AuthSetupErrorView,
                            >(plans@[j]@));
                        }
                        assert(method_plans(configs@)[i as int] == Err::<
                            MethodPlanView,
                            AuthSetupErrorView,
                        >(e@));
                        return Err(e);
                    },
                }
                i += 1;
            }
        },
    }
    Ok(plans)
}

/// A method that is set up.
pub enum AuthMethod<K> {
    CurrentUser(CurrentUserAuth),
    RemoteUser(RemoteUserAuth),
    Jwt(JWTAuth),
    Jwks(JWKSAuth<K>),
}

/// What a method says of a request.
pub enum Answer<K> {
    /// It does not recognise a user, or fails to.
    Pass,
    /// It recognises this user.
    User(Seq<char>),
    /// It recognises the user that runs the server.
    CurrentUser,
    /// It recognises the subject of this token, if the key verifies it by the rule.
    Verify(Seq<char>, VerifyKey<K>, TokenRuleView),
}

/// What verifies a token.
pub enum VerifyKey<K> {
    Jwt(DecodingKey),
    Jwks(K),
}

/// Which algorithms a token may be signed with.
#[derive(Clone, Copy, PartialEq, Eq, Structural, Debug)]
pub enum TokenAlgorithms {
    /// Those that are accepted by default.
    Default,
    /// The one that its key is for, and no other.
    OfKey,
}

/// By which rule a token is verified, besides its signature and its expiry.
pub struct TokenRule<'a> {
    pub algorithms: TokenAlgorithms,
    /// Whom the token must be for, if that is checked.
    pub audience: Option<&'a str>,
}

/// What a `TokenRule` says.
pub struct TokenRuleView {
    pub algorithms: TokenAlgorithms,
    pub audience: Option<Seq<char>>,
}

impl<'a> View for TokenRule<'a> {
    type V = TokenRuleView;

    open spec fn view(&self) -> TokenRuleView {
        TokenRuleView { algorithms: self.algorithms, audience: str_view(self.audience) }
    }
}

/// The rule for tokens that one key verifies: the default one, for any audience.
pub open spec fn one_key_rule() -> TokenRuleView {
    TokenRuleView { algorithms: TokenAlgorithms::Default, audience: None }
}

/// The rule for tokens that a key of a set verifies: they are signed as the key says, and are
/// for the audience where one is configured.
pub open spec fn key_set_rule(audience: Option<Seq<char>>) -> TokenRuleView {
    TokenRuleView { algorithms: TokenAlgorithms::OfKey, audience }
}

impl JWTAuth {
    /// By which rule the key verifies tokens.
    pub fn rule(&self) -> (res: TokenRule<'_>)
        ensures
            res@ == one_key_rule(),
    {
        TokenRule { algorithms: TokenAlgorithms::Default, audience: None }
    }
}

impl<K> JWKSAuth<K> {
    /// By which rule a key of the set verifies tokens.
    pub fn rule(&self) -> (res: TokenRule<'_>)
        ensures
            res@ == key_set_rule(opt_view(self.audience)),
    {
        TokenRule {
            algorithms: TokenAlgorithms::OfKey,
            audience: match &self.audience {
                Some(audience) => Some(audience.as_str()),
                None => None,
            },
        }
    }
}

/// What a method says of a request with the given headers.
pub open spec fn answer<K>(method: AuthMethod<K>, headers: HeaderMap) -> Answer<K> {
    let token = offered_token(header_read(headers, AUTHORIZATION@));
    match method {
        AuthMethod::CurrentUser(_) => Answer::CurrentUser,
        AuthMethod::RemoteUser(remote) => match named_user(
            header_read(headers, remote.header@),
        ) {
            Some(user) => Answer::User(user),
            None => Answer::Pass,
        },
        AuthMethod::Jwt(jwt) => match token {
            Ok(Some(t)) => Answer::Verify(t, VerifyKey::Jwt(jwt.key), one_key_rule()),
            _ => Answer::Pass,
        },
        AuthMethod::Jwks(jwks) => match token_and_key(token, jwks.keys@) {
            Ok(Some((t, key))) => Answer::Verify(
                t,
                VerifyKey::Jwks(key),
                key_set_rule(opt_view(jwks.audience)),
            ),
            _ => Answer::Pass,
        },
    }
}

/// The first method, from the given one on, that does not pass, and what it says.
pub open spec fn first_answer<K>(
    methods: Seq<AuthMethod<K>>,
    headers: HeaderMap,
    from: int,
) -> Option<(int, Answer<K>)>
    decreases methods.len() - from,
{
    if from < 0 || from >= methods.len() {
        None
    } else if answer(methods[from], headers) is Pass {
        first_answer(methods, headers, from + 1)
    } else {
        Some((from, answer(methods[from], headers)))
    }
}

/// What verifies a token.
pub enum TokenKey<'a, K> {
    Jwt(&'a DecodingKey),
    Jwks(&'a K),
}

/// A token to verify, for the method of the given number: by this key, and by this rule.
pub struct TokenCheck<'a, K> {
    pub method: usize,
    pub token: String,
    pub key: TokenKey<'a, K>,
    pub rule: TokenRule<'a>,
}

/// How far the authentication of a request has come.
pub enum AuthStep<'a, K> {
    Allowed(UserId),
    Refused(StatusCode),
    /// Verify the token, and go on with `UserAuth::verified`.
    Verify(TokenCheck<'a, K>),
}

/// Whether the step is what the first answer asks for, where `current_user` runs the server.
pub open spec fn step_is<K>(
    step: AuthStep<K>,
    first: Option<(int, Answer<K>)>,
    current_user: Seq<char>,
) -> bool {
    match first {
        None => step matches AuthStep::Refused(status) && status == StatusCode::Unauthorized,
        Some((_, Answer::Pass)) => false,
        Some((_, Answer::User(user))) => step matches AuthStep::Allowed(id) && id.0@ == user,
        Some((_, Answer::CurrentUser)) => step matches AuthStep::Allowed(id) && id.0@
            == current_user,
        Some((i, Answer::Verify(token, key, rule))) => {
            &&& step matches AuthStep::Verify(check)
            &&& check.method == i
            &&& check.token@ == token
            &&& match (check.key, key) {
                (TokenKey::Jwt(k), VerifyKey::Jwt(v)) => *k == v,
                (TokenKey::Jwks(k), VerifyKey::Jwks(v)) => *k == v,
                _ => false,
            }
            &&& check.rule@ == rule
        },
    }
}

/// Authenticates users by the first method that recognises them.
pub struct UserAuth<K> {
    pub auth_methods: Vec<AuthMethod<K>>,
}

impl<K> UserAuth<K> {
    /// Begins to authenticate the user of a request. Who runs the server depends on the machine.
    pub fn authorize<'a>(&'a self, headers: &HeaderMap) -> (res: AuthStep<'a, K>)
        ensures
            exists|current_user: Seq<char>| #[trigger]
                step_is(res, first_answer(self.auth_methods@, *headers, 0), current_user),
    {
        self.authorize_as(headers, current_username().as_str())
    }

    /// Begins to authenticate the user of a request, where `current_user` runs the server.
    pub fn authorize_as<'a>(&'a self, headers: &HeaderMap, current_user: &str) -> (res: AuthStep<
        'a,
        K,
    >)
        ensures
            step_is(res, first_answer(self.auth_methods@, *headers, 0), current_user@),
    {
        self.authorize_from(headers, 0, current_user)
    }

    /// Goes on after a token was verified for the method of the given number, or was not. The
    /// subject of a verified token is the user. Who runs the server depends on the machine.
    pub fn verified<'a>(
        &'a self,
        headers: &HeaderMap,
        method: usize,
        verdict: Result<String, String>,
    ) -> (res: AuthStep<'a, K>)
        requires
            method < self.auth_methods.len(),
        ensures
            match verdict {
                Ok(user) => res matches AuthStep::Allowed(id) && id.0 == user,
                Err(_) => exists|current_user: Seq<char>| #[trigger]
                    step_is(
                        res,
                        first_answer(self.auth_methods@, *headers, method + 1),
                        current_user,
                    ),
            },
    {
        self.verified_as(headers, method, verdict, current_username().as_str())
    }

    /// Goes on after a token was verified for the method of the given number, or was not, where
    /// `current_user` runs the server.
    pub fn verified_as<'a>(
        &'a self,
        headers: &HeaderMap,
        method: usize,
        verdict: Result<String, String>,
        current_user: &str,
    ) -> (res: AuthStep<'a, K>)
        requires
            method < self.auth_methods.len(),
        ensures
            match verdict {
                Ok(user) => res matches AuthStep::Allowed(id) && id.0 == user,
                Err(_) => step_is(
                    res,
                    first_answer(self.auth_methods@, *headers, method + 1),
                    current_user@,
                ),
            },
    {
        match verdict {
            Ok(user) => AuthStep::Allowed(UserId(user)),
            Err(_) => self.authorize_from(headers, method + 1, current_user),
        }
    }

    /// Authenticates the user of a request by the methods from the given one on.
    fn authorize_from<'a>(&'a self, headers: &HeaderMap, from: usize, current_user: &str) -> (res:
        AuthStep<'a, K>)
        requires
            from <= self.auth_methods@.len(),
        ensures
            step_is(
                res,
                first_answer(self.auth_methods@, *headers, from as int),
                current_user@,
            ),
    {
        let mut i: usize = from;
        while i < self.auth_methods.len()
            invariant
                from <= i <= self.auth_methods.len(),
                first_answer(self.auth_methods@, *headers, from as int) == first_answer(
                    self.auth_methods@,
                    *headers,
                    i as int,
                ),
            decreases self.auth_methods.len() - i,
        {
            match &self.auth_methods[i] {
                AuthMethod::CurrentUser(method) => {
                    if let Ok(Some(user)) = method.authorize_as(current_user) {
                        return AuthStep::Allowed(UserId(user));
                    }
                },
                AuthMethod::RemoteUser(method) => {
                    if let Ok(Some(user)) = method.authorize_user(headers) {
                        return AuthStep::Allowed(UserId(user));
                    }
                },
                AuthMethod::Jwt(method) => {
                    if let Ok(Some(token)) = method.authorize_user(headers) {
                        let key = TokenKey::Jwt(&method.key);
                        let rule = method.rule();
                        return AuthStep::Verify(TokenCheck { method: i, token, key, rule });
                    }
                },
                AuthMethod::Jwks(method) => {
                    if let Ok(Some((token, key))) = method.authorize_user(headers) {
                        let key = TokenKey::Jwks(key);
                        let rule = method.rule();
                        return AuthStep::Verify(TokenCheck { method: i, token, key, rule });
                    }
                },
            }
            i += 1;
        }
        AuthStep::Refused(StatusCode::Unauthorized)
    }
}

/// A request that no method recognises is refused.
pub proof fn law_unrecognised_is_refused<K>(
    methods: Seq<AuthMethod<K>>,
    headers: HeaderMap,
    from: int,
)
    requires
        0 <= from <= methods.len(),
        forall|i: int| from <= i < methods.len() ==> answer(#[trigger] methods[i], headers) is Pass,
    ensures
        first_answer(methods, headers, from) is None,
    decreases methods.len() - from,
{
    if from < methods.len() {
        law_unrecognised_is_refused(methods, headers, from + 1);
    }
}

/// A method is asked only where all methods before it have passed: the first that recognises
/// a user decides.
pub proof fn law_first_method_decides<K>(
    methods: Seq<AuthMethod<K>>,
    headers: HeaderMap,
    from: int,
    i: int,
)
    requires
        0 <= from <= i < methods.len(),
        forall|j: int| from <= j < i ==> answer(#[trigger] methods[j], headers) is Pass,
        answer(methods[i], headers) !is Pass,
    ensures
        first_answer(methods, headers, from) == Some((i, answer(methods[i], headers))),
    decreases i - from,
{
    if from < i {
        law_first_method_decides(methods, headers, from + 1, i);
    }
}

/// Authenticates sessions by their tokens.
pub struct TokenAuth {}

/// The token that an application gets when it is created is the one that the server reads when
/// the application calls back with it.
pub proof fn law_session_token_reads_back(token: Seq<char>)
    ensures
        session_token(HeaderReadView::Text("Bearer"@ + seq![' '] + token)) == Ok::<
            Seq<char>,
            StatusCode,
        >(token),
{
    reveal_strlit("Bearer");
    assert(!"Bearer"@.contains(' '));
    lemma_cut_at("Bearer"@, ' ', token);
}

/// The token of a session, or the status that refuses the request.
pub open spec fn session_token(header: HeaderReadView) -> Result<Seq<char>, StatusCode> {
    match header {
        HeaderReadView::Absent => Err(StatusCode::Unauthorized),
        HeaderReadView::Unreadable(_) => Err(StatusCode::BadRequest),
        HeaderReadView::Text(text) => match scheme_token(text) {
            Some(token) => Ok(token),
            None => Err(StatusCode::Unauthorized),
        },
    }
}

impl TokenAuth {
    /// The token in an authorization header that was read.
    pub fn authorize_read(&self, header: HeaderRead) -> (res: Result<BearerToken, StatusCode>)
        ensures
            match (session_token(header@), res) {
                (Ok(token), Ok(read)) => read.0@ == token,
                (Err(status), Err(s)) => s == status,
                _ => false,
            },
    {
        match header {
            HeaderRead::Absent => Err(StatusCode::Unauthorized),
            HeaderRead::Unreadable(_) => Err(StatusCode::BadRequest),
            HeaderRead::Text(text) => match token_of_scheme(text) {
                Some(token) => Ok(BearerToken(token)),
                None => Err(StatusCode::Unauthorized),
            },
        }
    }

    /// The token of the session that a request comes from.
    pub fn authorize(&self, headers: &HeaderMap) -> (res: Result<BearerToken, StatusCode>)
        ensures
            match (session_token(header_read(*headers, AUTHORIZATION@)), res) {
                (Ok(token), Ok(read)) => read.0@ == token,
                (Err(status), Err(s)) => s == status,
                _ => false,
            },
    {
        self.authorize_read(read_header(headers, AUTHORIZATION))
    }
}

} // verus!
