//! Laws of authentication.
use crate::application::StatusCode;
use crate::auth::{
    answer, first_answer, law_first_method_decides, law_unrecognised_is_refused, method_plan,
    method_plans, option_of, options_of, plan_method, plan_methods, step_is, token_of_header,
    Answer, AuthMethod, AuthSetupError, AuthStep, BearerToken, CurrentUserAuth, JWKSAuth, JWTAuth,
    KeySetSource, MethodPlan, PemSource, PemType, RemoteUserAuth, TokenAlgorithms, TokenAuth,
    TokenKey, TokenRule, UserAuth, UserId,
};
use crate::config::{AuthConfig, ConfigMap, ProxyConfig};
use crate::error::Error;
use crate::headers::{header_read, HeaderRead, HeaderReadView};
use crate::laws::launching::{held, held_in};
use crate::laws::proxying::offers;
use crate::laws::text::{law_cut_is_unique, law_cut_once};
use crate::system_auth::{
    all_settle, read_credentials, system_answer, system_faults, system_method_fault,
    system_step_is, user_after,
    BasicError, Credentials, PamAuth, SystemAnswer, SystemAuth, SystemAuthRun, SystemAuthStep,
    SystemMethod,
};
use crate::text::{cut_once, opt_view, str_view};
use crate::trusted::basic::base64_bytes;
use crate::trusted::jwt::{ec_pem_key, ed_pem_key, rsa_pem_key, token_key_id};
use http::header::HeaderMap;
use vstd::prelude::*;
use vstd::utf8::{decode_utf8, encode_utf8, valid_utf8};

verus! {

/// Methods that verify tokens take what follows `Bearer` and a space, whatever it is. There is no
/// token where the authorization is absent or another, and an error where it cannot be read.
pub proof fn law_offered_tokens(header: HeaderRead, res: Result<Option<&str>, Error>)
    requires
        call_ensures(token_of_header, (header,), res),
    ensures
        match res {
            Ok(Some(token)) => header@ matches HeaderReadView::Text(text) && text == "Bearer "@
                + token@,
            Ok(None) => match header@ {
                HeaderReadView::Absent => true,
                HeaderReadView::Unreadable(_) => false,
                HeaderReadView::Text(text) => !"Bearer "@.is_prefix_of(text),
            },
            Err(e) => {
                &&& header@ matches HeaderReadView::Unreadable(words)
                &&& e matches Error::InvalidAuthorizationHeader(reason)
                &&& reason@ == words
            },
        },
{
    reveal_strlit("Bearer ");
    if let HeaderReadView::Text(text) = header@ {
        if "Bearer "@.is_prefix_of(text) {
            assert(text =~= "Bearer "@ + text.skip(7));
        }
    }
}

/// The token that a request offers is that of its authorization header.
pub proof fn law_request_offers_its_token(
    headers: &HeaderMap,
    res: Result<Option<&str>, Error>,
    header: HeaderRead,
    read: Result<Option<&str>, Error>,
)
    requires
        call_ensures(crate::auth::extract_bearer_token, (headers,), res),
        call_ensures(crate::headers::read_header, (headers, "authorization"), header),
        call_ensures(token_of_header, (header,), read),
    ensures
        match (res, read) {
            (Ok(a), Ok(b)) => str_view(a) == str_view(b),
            (Err(a), Err(b)) => a@ == b@,
            _ => false,
        },
{
}

/// The current user is always recognised.
pub proof fn law_current_user(
    method: CurrentUserAuth,
    headers: &HeaderMap,
    res: Result<Option<String>, Error>,
    name: &str,
    known: Result<Option<String>, Error>,
)
    requires
        call_ensures(CurrentUserAuth::authorize_user, (&method, headers), res),
        call_ensures(CurrentUserAuth::authorize_as, (&method, name), known),
    ensures
        res matches Ok(Some(_)),
        known matches Ok(Some(user)) && user@ == name@,
{
}

/// A remote user is whoever the configured header names, where it can be read as text.
pub proof fn law_remote_user(
    method: RemoteUserAuth,
    headers: &HeaderMap,
    res: Result<Option<String>, Error>,
)
    requires
        call_ensures(RemoteUserAuth::authorize_user, (&method, headers), res),
    ensures
        match header_read(*headers, method.header@) {
            HeaderReadView::Text(name) => res matches Ok(Some(user)) && user@ == name,
            _ => res matches Ok(None),
        },
{
}

/// The header of remote users is the one that the options name.
pub proof fn law_remote_user_header(options: ConfigMap, method: RemoteUserAuth)
    requires
        call_ensures(RemoteUserAuth::create, (&options,), method),
        options@.contains_key("header"@),
    ensures
        Some(method.header@) == held(options, "header"@),
{
}

/// A key is read by its kind.
pub proof fn law_keys_are_read_by_kind(
    kind: PemType,
    pem: &str,
    res: Result<JWTAuth, AuthSetupError>,
)
    requires
        call_ensures(JWTAuth::create, (kind, pem), res),
    ensures
        ({
            let bytes = encode_utf8(pem@);
            let key = match kind {
                PemType::Rsa => rsa_pem_key(bytes),
                PemType::Ec => ec_pem_key(bytes),
                PemType::Ed => ed_pem_key(bytes),
            };
            match res {
                Ok(method) => key == Some(method.key),
                Err(e) => key is None && (e matches AuthSetupError::UnreadablePem(k) && k == kind),
            }
        }),
{
}

/// A method with one key needs a key or the name of its file, and not both. The key is of the kind
/// that the options name, or RSA.
pub proof fn law_one_key_is_planned(options: ConfigMap, res: Result<MethodPlan, AuthSetupError>)
    requires
        call_ensures(JWTAuth::plan, (&options,), res),
    ensures
        ({
            let inline = held(options, "pem"@);
            let file = held(options, "pem_file"@);
            let kind = held(options, "pem_type"@);
            match res {
                Ok(MethodPlan::Jwt { pem, pem_type }) => {
                    &&& match pem {
                        PemSource::Inline(text) => inline == Some(text@) && file is None,
                        PemSource::File(name) => file == Some(name@) && inline is None,
                    }
                    &&& match pem_type {
                        PemType::Rsa => kind is None || kind == Some("rsa"@),
                        PemType::Ec => kind == Some("ec"@),
                        PemType::Ed => kind == Some("ed"@),
                    }
                },
                Ok(_) => false,
                Err(AuthSetupError::BothPems) => inline is Some && file is Some,
                Err(AuthSetupError::NoPem) => inline is None && file is None,
                Err(AuthSetupError::UnknownPemType(name)) => {
                    &&& kind == Some(name@)
                    &&& kind != Some("rsa"@) && kind != Some("ec"@) && kind != Some("ed"@)
                    &&& inline is Some <==> file is None
                },
                Err(_) => false,
            }
        }),
{
    lemma_options(options);
    reveal_strlit("rsa");
    reveal_strlit("ec");
    reveal_strlit("ed");
    assert("rsa"@.len() == 3);
    assert("ec"@[1] == 'c');
    assert("ed"@[1] == 'd');
}

/// A method with a set of keys needs the address of the keys or of the provider that knows them,
/// and not both. Tokens must be for the audience that the options name, whichever of the two it
/// is; where they name none, the audience is not checked.
pub proof fn law_key_set_is_planned<K>(options: ConfigMap, res: Result<MethodPlan, AuthSetupError>)
    requires
        call_ensures(JWKSAuth::<K>::plan, (&options,), res),
    ensures
        ({
            let jwks = held(options, "jwks_url"@);
            let oidc = held(options, "oidc_url"@);
            match res {
                Ok(MethodPlan::Jwks { keys, audience }) => {
                    &&& opt_view(audience) == held(options, "audience"@)
                    &&& match keys {
                        KeySetSource::JwksUrl(url) => jwks == Some(url@) && oidc is None,
                        KeySetSource::OidcUrl(url) => oidc == Some(url@) && jwks is None,
                    }
                },
                Ok(_) => false,
                Err(AuthSetupError::BothUrls) => jwks is Some && oidc is Some,
                Err(AuthSetupError::NoUrl) => jwks is None && oidc is None,
                Err(_) => false,
            }
        }),
{
    lemma_options(options);
}

/// What options hold is what their texts are.
proof fn lemma_options(options: ConfigMap)
    ensures
        forall|name: Seq<char>| #[trigger]
            option_of(options.texts(), name) == held(options, name),
{
}

/// A method is set up by its name: that of remote users with the header in its options, the others
/// as their own options say. A name that no method has is refused.
pub proof fn law_methods_are_planned_by_name(
    config: AuthConfig,
    res: Result<MethodPlan, AuthSetupError>,
)
    requires
        call_ensures(plan_method, (&config,), res),
    ensures
        if config.name@ == "remote_user"@ {
            match res {
                Ok(MethodPlan::RemoteUser(method)) => Some(method.header@) == held_in(
                    config.options,
                    "header"@,
                ),
                Ok(_) => false,
                Err(e) => e is MissingHeader && held_in(config.options, "header"@) is None,
            }
        } else if config.name@ == "jwt"@ {
            match res {
                Ok(plan) => plan is Jwt,
                Err(e) => e is BothPems || e is NoPem || e is UnknownPemType,
            }
        } else if config.name@ == "jwks"@ {
            match res {
                Ok(plan) => plan is Jwks,
                Err(e) => e is BothUrls || e is NoUrl,
            }
        } else {
            res matches Err(AuthSetupError::UnknownMethod(name)) && name@ == config.name@
        },
{
    if let Some(options) = config.options {
        lemma_options(options);
    }
}

/// The options of a method are its own: it is planned as its name and its options say, and a
/// method without options as one with none set.
pub proof fn law_methods_are_planned_by_their_options(
    config: AuthConfig,
    options: ConfigMap,
    res: Result<MethodPlan, AuthSetupError>,
    jwt: Result<MethodPlan, AuthSetupError>,
    jwks: Result<MethodPlan, AuthSetupError>,
)
    requires
        call_ensures(plan_method, (&config,), res),
        call_ensures(JWTAuth::plan, (&options,), jwt),
        call_ensures(JWKSAuth::<()>::plan, (&options,), jwks),
        match config.options {
            Some(own) => own == options,
            None => options@ == Map::<Seq<char>, String>::empty(),
        },
    ensures
        config.name@ == "jwt"@ ==> same_plan(res, jwt),
        config.name@ == "jwks"@ ==> same_plan(res, jwks),
{
    reveal_strlit("jwt");
    reveal_strlit("jwks");
    reveal_strlit("remote_user");
    assert("jwt"@.len() == 3);
    assert("jwks"@.len() == 4);
    assert("remote_user"@.len() == 11);
    assert(options_of(config) =~= options.texts());
}

/// Whether two results say the same.
pub open spec fn same_plan(
    a: Result<MethodPlan, AuthSetupError>,
    b: Result<MethodPlan, AuthSetupError>,
) -> bool {
    match (a, b) {
        (Ok(x), Ok(y)) => x@ == y@,
        (Err(x), Err(y)) => x@ == y@,
        _ => false,
    }
}

/// All configured methods are planned, each as it is planned alone, in their order; where none are
/// configured, the current user is. The configuration is refused for the first method that is.
pub proof fn law_all_methods_are_planned(
    config: ProxyConfig,
    res: Result<Vec<MethodPlan>, AuthSetupError>,
    i: int,
    alone: Result<MethodPlan, AuthSetupError>,
)
    requires
        call_ensures(plan_methods, (&config,), res),
        config.auth_methods matches Some(configs) ==> 0 <= i < configs@.len() && call_ensures(
            plan_method,
            (&configs@[i],),
            alone,
        ),
    ensures
        config.auth_methods is None ==> (res matches Ok(plans) && plans@.len() == 1 && plans@[0]
            is CurrentUser),
        config.auth_methods matches Some(configs) ==> {
            &&& res matches Ok(plans) ==> plans@.len() == configs@.len() && (alone matches Ok(
                plan,
            ) && plan@ == plans@[i]@)
            &&& alone is Err ==> res is Err
        },
{
    if let Some(configs) = config.auth_methods {
        assert(method_plans(configs@)[i] == method_plan(
            configs@[i].name@,
            options_of(configs@[i]),
        ));
        if let Ok(plans) = res {
            assert(method_plans(configs@)[i] == Ok::<
                crate::auth::MethodPlanView,
                crate::auth::AuthSetupErrorView,
            >(plans@[i]@));
        }
    } else if let Ok(plans) = res {
        assert(plans@[0]@ is CurrentUser);
    }
}

/// A token names its key. Where its header cannot be read, names no key or one that is not in the
/// set, there is none.
pub proof fn law_key_of_a_token<K>(
    method: JWKSAuth<K>,
    id: Result<Option<String>, String>,
    res: Result<&K, Error>,
)
    requires
        call_ensures(JWKSAuth::<K>::find_key, (&method, id), res),
    ensures
        match id {
            Ok(Some(name)) => if method.keys@.contains_key(name@) {
                res matches Ok(key) && *key == method.keys@[name@]
            } else {
                res matches Err(Error::Authorization(words)) && words@
                    == "jwt refer to a unknown key id"@
            },
            Ok(None) => res matches Err(Error::Authorization(words)) && words@
                == "jwt header should have a kid"@,
            Err(reason) => res matches Err(Error::Authorization(words)) && words@ == reason@,
        },
{
}

/// The tokens that are to be verified: the one that the request offers, and with a set of keys
/// also the key that the token names.
pub proof fn law_tokens_to_verify<K>(
    one: JWTAuth,
    set: JWKSAuth<K>,
    headers: &HeaderMap,
    offered: Result<Option<&str>, Error>,
    by_one: Result<Option<String>, Error>,
    by_set: Result<Option<(String, &K)>, Error>,
)
    requires
        call_ensures(crate::auth::extract_bearer_token, (headers,), offered),
        call_ensures(JWTAuth::authorize_user, (&one, headers), by_one),
        call_ensures(JWKSAuth::<K>::authorize_user, (&set, headers), by_set),
    ensures
        match offered {
            Ok(None) => by_one matches Ok(None) && by_set matches Ok(None),
            Err(_) => by_one is Err && by_set is Err,
            Ok(Some(token)) => {
                &&& by_one matches Ok(Some(t)) && t@ == token@
                &&& match by_set {
                    Ok(None) => false,
                    Ok(Some((t, key))) => {
                        &&& t@ == token@
                        &&& token_key_id(token@) matches Ok(Some(id))
                        &&& set.keys@.contains_key(id)
                        &&& *key == set.keys@[id]
                    },
                    Err(_) => match token_key_id(token@) {
                        Ok(Some(id)) => !set.keys@.contains_key(id),
                        _ => true,
                    },
                }
            },
        },
{
}

/// By which rules tokens are verified: with one key by the default rule, for any audience; with a
/// key of a set by the key's own algorithm, for the audience that is configured.
pub proof fn law_token_rules<K>(
    one: JWTAuth,
    set: JWKSAuth<K>,
    rule: TokenRule,
    set_rule: TokenRule,
)
    requires
        call_ensures(JWTAuth::rule, (&one,), rule),
        call_ensures(JWKSAuth::<K>::rule, (&set,), set_rule),
    ensures
        rule.algorithms == TokenAlgorithms::Default,
        rule.audience is None,
        set_rule.algorithms == TokenAlgorithms::OfKey,
        str_view(set_rule.audience) == opt_view(set.audience),
{
}

/// What a method says of a request, in its own terms.
pub open spec fn says<K>(method: AuthMethod<K>, headers: HeaderMap, what: Answer<K>) -> bool {
    let token = match header_read(headers, "authorization"@) {
        HeaderReadView::Text(text) => if "Bearer "@.is_prefix_of(text) {
            Some(text.skip(7))
        } else {
            None
        },
        _ => None,
    };
    match method {
        AuthMethod::CurrentUser(_) => what is CurrentUser,
        AuthMethod::RemoteUser(remote) => match header_read(headers, remote.header@) {
            HeaderReadView::Text(name) => what == Answer::<K>::User(name),
            _ => what is Pass,
        },
        AuthMethod::Jwt(one) => match token {
            Some(t) => what matches Answer::Verify(asked, crate::auth::VerifyKey::Jwt(key), rule)
                && asked == t && key == one.key && rule.algorithms == TokenAlgorithms::Default
                && rule.audience is None,
            None => what is Pass,
        },
        AuthMethod::Jwks(set) => match token {
            Some(t) => match token_key_id(t) {
                Ok(Some(id)) => if set.keys@.contains_key(id) {
                    what matches Answer::Verify(asked, crate::auth::VerifyKey::Jwks(key), rule)
                        && asked == t && key == set.keys@[id] && rule.algorithms
                        == TokenAlgorithms::OfKey && rule.audience == opt_view(set.audience)
                } else {
                    what is Pass
                },
                _ => what is Pass,
            },
            None => what is Pass,
        },
    }
}

/// Each method says of a request what it can tell from it.
pub proof fn law_methods_say_what_they_see<K>(method: AuthMethod<K>, headers: HeaderMap)
    ensures
        says(method, headers, answer(method, headers)),
{
}

/// The first method that does not pass decides: the user that it recognises is let through, or the
/// token that it finds is verified with its key and by its rule. Where all pass, the request is
/// refused.
pub proof fn law_users_are_authenticated<K>(
    auth: UserAuth<K>,
    headers: &HeaderMap,
    current_user: &str,
    step: AuthStep<K>,
    i: int,
)
    requires
        call_ensures(UserAuth::<K>::authorize_as, (&auth, headers, current_user), step),
        0 <= i <= auth.auth_methods@.len(),
        forall|j: int|
            0 <= j < i ==> answer(#[trigger] auth.auth_methods@[j], *headers) is Pass,
        i < auth.auth_methods@.len() ==> answer(auth.auth_methods@[i], *headers) !is Pass,
    ensures
        i == auth.auth_methods@.len() ==> step == AuthStep::<K>::Refused(StatusCode::Unauthorized),
        i < auth.auth_methods@.len() ==> match answer(auth.auth_methods@[i], *headers) {
            Answer::Pass => false,
            Answer::User(name) => step matches AuthStep::Allowed(user) && user.0@ == name,
            Answer::CurrentUser => step matches AuthStep::Allowed(user) && user.0@
                == current_user@,
            Answer::Verify(token, key, rule) => {
                &&& step matches AuthStep::Verify(check)
                &&& check.method == i
                &&& check.token@ == token
                &&& check.rule.algorithms == rule.algorithms
                &&& str_view(check.rule.audience) == rule.audience
                &&& match (key, check.key) {
                    (crate::auth::VerifyKey::Jwt(k), TokenKey::Jwt(given)) => *given == k,
                    (crate::auth::VerifyKey::Jwks(k), TokenKey::Jwks(given)) => *given == k,
                    _ => false,
                }
            },
        },
{
    if i < auth.auth_methods@.len() {
        law_first_method_decides(auth.auth_methods@, *headers, 0, i);
    } else {
        law_unrecognised_is_refused(auth.auth_methods@, *headers, 0);
    }
}

/// The subject of a verified token is the user. Where the token is not verified, the methods
/// behind are asked as if they were alone.
pub proof fn law_verified_tokens_decide<K>(
    auth: UserAuth<K>,
    headers: &HeaderMap,
    method: usize,
    verdict: Result<String, String>,
    current_user: &str,
    step: AuthStep<K>,
    i: int,
)
    requires
        call_ensures(
            UserAuth::<K>::verified_as,
            (&auth, headers, method, verdict, current_user),
            step,
        ),
        method < i <= auth.auth_methods@.len(),
        forall|j: int|
            method < j < i ==> answer(#[trigger] auth.auth_methods@[j], *headers) is Pass,
        i < auth.auth_methods@.len() ==> answer(auth.auth_methods@[i], *headers) !is Pass,
    ensures
        verdict matches Ok(subject) ==> (step matches AuthStep::Allowed(user) && user.0@
            == subject@),
        verdict is Err && i == auth.auth_methods@.len() ==> step == AuthStep::<K>::Refused(
            StatusCode::Unauthorized,
        ),
        verdict is Err && i < auth.auth_methods@.len() ==> match answer(
            auth.auth_methods@[i],
            *headers,
        ) {
            Answer::Pass => false,
            Answer::User(name) => step matches AuthStep::Allowed(user) && user.0@ == name,
            Answer::CurrentUser => step matches AuthStep::Allowed(user) && user.0@
                == current_user@,
            Answer::Verify(token, _, _) => step matches AuthStep::Verify(check) && check.method == i
                && check.token@ == token,
        },
{
    if i < auth.auth_methods@.len() {
        law_first_method_decides(auth.auth_methods@, *headers, method + 1, i);
    } else {
        law_unrecognised_is_refused(auth.auth_methods@, *headers, method + 1);
    }
}

/// Where the user that runs the server is asked of the machine, the outcome is that for some user.
pub proof fn law_machines_user_is_some_user<K>(
    auth: UserAuth<K>,
    headers: &HeaderMap,
    step: AuthStep<K>,
)
    requires
        call_ensures(UserAuth::<K>::authorize, (&auth, headers), step),
    ensures
        exists|current_user: Seq<char>| #[trigger]
            step_is(step, first_answer(auth.auth_methods@, *headers, 0), current_user),
{
}

/// Where a token was not verified and the user that runs the server is asked of the machine, the
/// outcome is that for some user; a verified subject is the user either way.
pub proof fn law_machines_user_after_a_token<K>(
    auth: UserAuth<K>,
    headers: &HeaderMap,
    method: usize,
    verdict: Result<String, String>,
    step: AuthStep<K>,
)
    requires
        call_ensures(UserAuth::<K>::verified, (&auth, headers, method, verdict), step),
    ensures
        verdict matches Ok(subject) ==> (step matches AuthStep::Allowed(user) && user.0@
            == subject@),
        verdict is Err ==> exists|current_user: Seq<char>| #[trigger]
            step_is(
                step,
                first_answer(auth.auth_methods@, *headers, method + 1),
                current_user,
            ),
{
}

/// Sessions are known by the token in their authorization. Without one they are refused; where it
/// cannot be read, the request is bad.
pub proof fn law_sessions_are_known_by_token(
    auth: TokenAuth,
    headers: &HeaderMap,
    res: Result<BearerToken, StatusCode>,
)
    requires
        call_ensures(TokenAuth::authorize, (&auth, headers), res),
    ensures
        ({
            let header = header_read(*headers, "authorization"@);
            match res {
                Ok(token) => offers(header, token.0@),
                Err(status) => {
                    &&& forall|token: Seq<char>| !#[trigger] offers(header, token)
                    &&& status == (if header is Unreadable {
                        StatusCode::BadRequest
                    } else {
                        StatusCode::Unauthorized
                    })
                },
            }
        }),
{
    reveal_strlit("Bearer");
    assert(!"Bearer"@.contains(' '));
    let header = header_read(*headers, "authorization"@);
    if let HeaderReadView::Text(text) = header {
        law_cut_once(text, ' ');
        if res is Err {
            assert forall|token: Seq<char>| !#[trigger] offers(header, token) by {
                if offers(header, token) {
                    law_cut_is_unique("Bearer"@, ' ', token);
                }
            }
        }
    }
}

/// Why methods cannot be set up, in words.
pub proof fn law_setup_errors_in_words(error: AuthSetupError, words: String)
    requires
        call_ensures(AuthSetupError::message, (&error,), words),
    ensures
        words@ == (match error {
            AuthSetupError::MissingHeader =>
                "'header' option must be set for remote_user authentication"@,
            AuthSetupError::BothPems => "pem and pem_file cannot both be defined"@,
            AuthSetupError::NoPem => "One of pem or pem_file must be defined for JWT auth"@,
            AuthSetupError::UnknownPemType(name) => "Unknown PEM type "@ + name@,
            AuthSetupError::UnreadablePem(PemType::Rsa) => "Failed to load RSA pem"@,
            AuthSetupError::UnreadablePem(PemType::Ec) => "Failed to load EC pem"@,
            AuthSetupError::UnreadablePem(PemType::Ed) => "Failed to load ED pem"@,
            AuthSetupError::BothUrls => "JWKS and OIDC URL cannot both be specified"@,
            AuthSetupError::NoUrl => "Either jwks_url or oidc_url must be provided"@,
            AuthSetupError::UnknownMethod(name) => "Unknown authentication method: "@ + name@,
        }),
{
}

/// Credentials are a name and a password with a colon between them, the first one, in UTF-8.
pub proof fn law_credentials_are_cut_at_the_colon(
    bytes: Option<Vec<u8>>,
    res: Result<Credentials, BasicError>,
)
    requires
        call_ensures(read_credentials, (bytes,), res),
    ensures
        match res {
            Ok(credentials) => {
                &&& bytes matches Some(b) && valid_utf8(b@)
                &&& decode_utf8(bytes->0@) == credentials.username@ + seq![':']
                    + credentials.password@
                &&& !credentials.username@.contains(':')
            },
            Err(BasicError::NotBase64) => bytes is None,
            Err(BasicError::NotText) => bytes matches Some(b) && !valid_utf8(b@),
            Err(BasicError::NoColon) => bytes matches Some(b) && valid_utf8(b@) && !decode_utf8(
                b@,
            ).contains(':'),
        },
{
    if let Some(b) = bytes {
        if valid_utf8(b@) {
            law_cut_once(decode_utf8(b@), ':');
        }
    }
}

/// Credentials are read from an authorization of the scheme `Basic`, in base64, and from no other.
pub proof fn law_basic_credentials(
    pam: PamAuth,
    text: &str,
    res: Option<Result<Credentials, BasicError>>,
    bytes: Option<Vec<u8>>,
    read: Result<Credentials, BasicError>,
)
    requires
        call_ensures(PamAuth::credentials, (&pam, text), res),
        match (bytes, base64_bytes(text@.skip(6))) {
            (Some(b), Some(decoded)) => b@ == decoded,
            (None, None) => true,
            _ => false,
        },
        call_ensures(read_credentials, (bytes,), read),
    ensures
        res is Some <==> "Basic "@.is_prefix_of(text@),
        res matches Some(result) ==> match (result, read) {
            (Ok(a), Ok(b)) => a.username@ == b.username@ && a.password@ == b.password@,
            (Err(a), Err(b)) => a == b,
            _ => false,
        },
{
}

/// With the accounts of the system, all methods are asked: the user is the last that one of them
/// recognises, and nobody where none does.
pub proof fn law_system_users(
    auth: SystemAuth,
    headers: &HeaderMap,
    current_user: &str,
    step: SystemAuthStep,
)
    requires
        call_ensures(SystemAuth::authorize_as, (&auth, headers, current_user), step),
        forall|i: int|
            0 <= i < auth.auth_methods@.len() ==> {
                let what = system_answer(#[trigger] auth.auth_methods@[i], *headers);
                what !is Verify && what !is Malformed
            },
    ensures
        match step {
            SystemAuthStep::Allowed(user) => last_recognised(
                auth.auth_methods@,
                *headers,
                current_user@,
                auth.auth_methods@.len() as int,
                user.0@,
            ),
            SystemAuthStep::Refused(status) => {
                &&& status == StatusCode::Unauthorized
                &&& forall|i: int|
                    0 <= i < auth.auth_methods@.len() ==> system_answer(
                        #[trigger] auth.auth_methods@[i],
                        *headers,
                    ) is Pass
            },
            _ => false,
        },
{
    lemma_user_after(
        auth.auth_methods@,
        *headers,
        current_user@,
        auth.auth_methods@.len() as int,
    );
    match step {
        SystemAuthStep::Verify(run, _) => {
            assert(system_answer(auth.auth_methods@[run.next as int], *headers) is Verify);
        },
        SystemAuthStep::Malformed(e) => {
            let i = choose|i: int|
                {
                    &&& 0 <= i < auth.auth_methods@.len()
                    &&& all_settle(auth.auth_methods@, *headers, 0, i)
                    &&& system_answer(#[trigger] auth.auth_methods@[i], *headers)
                        == SystemAnswer::Malformed(e)
                };
            assert(system_answer(auth.auth_methods@[i], *headers) is Malformed);
        },
        _ => {},
    }
}

/// Where the user that runs the server is asked of the machine, the outcome is that for some user.
pub proof fn law_machines_user_is_some_system_user(
    auth: SystemAuth,
    headers: &HeaderMap,
    step: SystemAuthStep,
    run: SystemAuthRun,
    verified: Option<String>,
    next: SystemAuthStep,
)
    requires
        call_ensures(SystemAuth::authorize, (&auth, headers), step),
        call_ensures(SystemAuth::verified, (&auth, headers, run, verified), next),
    ensures
        exists|current_user: Seq<char>| #[trigger]
            system_step_is(step, auth.auth_methods@, *headers, current_user, 0, None),
        exists|current_user: Seq<char>| #[trigger]
            system_step_is(
                next,
                auth.auth_methods@,
                *headers,
                current_user,
                run.next + 1,
                known_so_far(verified, run.user),
            ),
{
}

/// The user that was verified now, or else the one that was recognised before.
pub open spec fn known_so_far(verified: Option<String>, before: Option<String>) -> Option<
    Seq<char>,
> {
    match (verified, before) {
        (Some(name), _) => Some(name@),
        (None, Some(name)) => Some(name@),
        (None, None) => None,
    }
}

/// The first credentials that a method finds are verified, for that method, and what was recognised
/// before them is kept. Credentials that cannot be read are told apart, and nobody is let through.
pub proof fn law_system_credentials_are_verified(
    auth: SystemAuth,
    headers: &HeaderMap,
    current_user: &str,
    step: SystemAuthStep,
    i: int,
)
    requires
        call_ensures(SystemAuth::authorize_as, (&auth, headers, current_user), step),
        0 <= i < auth.auth_methods@.len(),
        forall|j: int|
            0 <= j < i ==> {
                let what = system_answer(#[trigger] auth.auth_methods@[j], *headers);
                what !is Verify && what !is Malformed
            },
    ensures
        system_answer(auth.auth_methods@[i], *headers) matches SystemAnswer::Verify(
            name,
            password,
        ) ==> {
            &&& step matches SystemAuthStep::Verify(run, credentials)
            &&& run.next == i
            &&& credentials.username@ == name
            &&& credentials.password@ == password
            &&& run.user matches Some(user) ==> last_recognised(
                auth.auth_methods@,
                *headers,
                current_user@,
                i,
                user@,
            )
            &&& run.user is None ==> forall|j: int|
                0 <= j < i ==> system_answer(#[trigger] auth.auth_methods@[j], *headers) is Pass
        },
        system_answer(auth.auth_methods@[i], *headers) matches SystemAnswer::Malformed(e) ==> (
        step matches SystemAuthStep::Malformed(f) && f == e),
{
    let methods = auth.auth_methods@;
    let here = system_answer(methods[i], *headers);
    if here is Verify || here is Malformed {
        match step {
            SystemAuthStep::Allowed(_) => {
                assert(!crate::system_auth::settles(system_answer(methods[i], *headers)));
            },
            SystemAuthStep::Refused(_) => {
                assert(!crate::system_auth::settles(system_answer(methods[i], *headers)));
            },
            SystemAuthStep::Verify(run, _) => {
                let n = run.next as int;
                assert(system_answer(methods[n], *headers) is Verify);
                if i < n {
                    assert(!crate::system_auth::settles(system_answer(methods[i], *headers)));
                }
                assert(n == i);
                lemma_user_after(methods, *headers, current_user@, i);
            },
            SystemAuthStep::Malformed(e) => {
                let k = choose|k: int|
                    {
                        &&& 0 <= k < methods.len()
                        &&& all_settle(methods, *headers, 0, k)
                        &&& system_answer(#[trigger] methods[k], *headers)
                            == SystemAnswer::Malformed(e)
                    };
                if i < k {
                    assert(!crate::system_auth::settles(system_answer(methods[i], *headers)));
                }
                assert(k == i);
            },
        }
    }
}

/// Whether the method of number `i` recognises the user, and none behind it, up to `to`, recognises
/// anybody.
pub open spec fn is_last_to_recognise(
    methods: Seq<SystemMethod>,
    headers: HeaderMap,
    current_user: Seq<char>,
    to: int,
    user: Seq<char>,
    i: int,
) -> bool {
    let what = system_answer(methods[i], headers);
    &&& 0 <= i < to
    &&& what == SystemAnswer::User(user) || (what is CurrentUser && user == current_user)
    &&& forall|j: int| i < j < to ==> system_answer(#[trigger] methods[j], headers) is Pass
}

/// Whether the user is the one that is recognised last by the methods up to `to`.
pub open spec fn last_recognised(
    methods: Seq<SystemMethod>,
    headers: HeaderMap,
    current_user: Seq<char>,
    to: int,
    user: Seq<char>,
) -> bool {
    exists|i: int| #[trigger] is_last_to_recognise(methods, headers, current_user, to, user, i)
}

proof fn lemma_user_after(
    methods: Seq<SystemMethod>,
    headers: HeaderMap,
    current_user: Seq<char>,
    to: int,
)
    requires
        0 <= to <= methods.len(),
        forall|i: int|
            0 <= i < to ==> {
                let what = system_answer(#[trigger] methods[i], headers);
                what !is Verify && what !is Malformed
            },
    ensures
        match user_after(methods, headers, current_user, 0, to, None) {
            None => forall|i: int|
                0 <= i < to ==> system_answer(#[trigger] methods[i], headers) is Pass,
            Some(user) => last_recognised(methods, headers, current_user, to, user),
        },
    decreases to,
{
    if to > 0 {
        lemma_user_after(methods, headers, current_user, to - 1);
        let what = system_answer(methods[to - 1], headers);
        match user_after(methods, headers, current_user, 0, to, None) {
            None => {},
            Some(user) => {
                if what is Pass {
                    let i = choose|i: int| #[trigger]
                        is_last_to_recognise(methods, headers, current_user, to - 1, user, i);
                    assert(is_last_to_recognise(methods, headers, current_user, to, user, i));
                } else {
                    assert(is_last_to_recognise(
                        methods,
                        headers,
                        current_user,
                        to,
                        user,
                        to - 1,
                    ));
                }
            },
        }
    }
}

/// What the methods of the system say of a request.
pub proof fn law_system_methods_say_what_they_see(method: SystemMethod, headers: HeaderMap)
    ensures
        match method {
            SystemMethod::CurrentUser(_) => system_answer(method, headers) is CurrentUser,
            SystemMethod::RemoteUser(remote) => match header_read(headers, remote.header@) {
                HeaderReadView::Text(name) => system_answer(method, headers) == SystemAnswer::User(
                    name,
                ),
                _ => system_answer(method, headers) is Pass,
            },
            SystemMethod::Pam(_) => match header_read(headers, "authorization"@) {
                HeaderReadView::Text(text) => {
                    &&& "Basic "@.is_prefix_of(text) <==> system_answer(method, headers) !is Pass
                    &&& system_answer(method, headers) matches SystemAnswer::Verify(
                        name,
                        password,
                    ) ==> !name.contains(':') && (base64_bytes(text.skip(6)) matches Some(b)
                        && valid_utf8(b) && decode_utf8(b) == name + seq![':'] + password)
                    &&& system_answer(method, headers) !is User
                    &&& system_answer(method, headers) !is CurrentUser
                },
                _ => system_answer(method, headers) is Pass,
            },
        },
{
    if let SystemMethod::Pam(_) = method {
        if let HeaderReadView::Text(text) = header_read(headers, "authorization"@) {
            if let Some(b) = base64_bytes(text.skip(6)) {
                if valid_utf8(b) {
                    law_cut_once(decode_utf8(b), ':');
                }
            }
        }
    }
}

/// The methods of the system are set up in their order: remote users by the header that the options
/// name, and accounts where that is enabled. Without configured methods, the current user is.
pub proof fn law_system_methods_are_set_up(
    config: ProxyConfig,
    pam_enabled: bool,
    res: Result<SystemAuth, AuthSetupError>,
    i: int,
)
    requires
        call_ensures(SystemAuth::new, (&config, pam_enabled), res),
        config.auth_methods matches Some(configs) ==> 0 <= i < configs@.len(),
    ensures
        config.auth_methods is None ==> (res matches Ok(auth) && auth.auth_methods@.len() == 1
            && auth.auth_methods@[0] is CurrentUser),
        config.auth_methods matches Some(configs) ==> match res {
            Ok(auth) => {
                &&& auth.auth_methods@.len() == configs@.len()
                &&& if configs@[i].name@ == "remote_user"@ {
                    auth.auth_methods@[i] matches SystemMethod::RemoteUser(remote) && Some(
                        remote.header@,
                    ) == held_in(configs@[i].options, "header"@)
                } else {
                    configs@[i].name@ == "pam"@ && pam_enabled && auth.auth_methods@[i] is Pam
                }
            },
            Err(AuthSetupError::MissingHeader) => exists|j: int|
                0 <= j < configs@.len() && (#[trigger] configs@[j]).name@ == "remote_user"@
                    && held_in(configs@[j].options, "header"@) is None,
            Err(AuthSetupError::UnknownMethod(name)) => exists|j: int|
                0 <= j < configs@.len() && (#[trigger] configs@[j]).name@ == name@ && name@
                    != "remote_user"@ && !(name@ == "pam"@ && pam_enabled),
            Err(_) => false,
        },
{
    if let Some(configs) = config.auth_methods {
        match res {
            Ok(auth) => {
                assert(crate::system_auth::system_method_is(configs@[i], auth.auth_methods@[i]));
                assert(system_faults(configs@, pam_enabled)[i] == system_method_fault(
                    configs@[i],
                    pam_enabled,
                ));
                if let Some(options) = configs@[i].options {
                    lemma_options(options);
                }
            },
            Err(e) => {
                let j = choose|j: int|
                    {
                        &&& 0 <= j < configs@.len()
                        &&& #[trigger] system_faults(configs@, pam_enabled)[j] == Some(e@)
                    };
                assert(configs@[j].name@ == configs@[j].name@);
                if let Some(options) = configs@[j].options {
                    lemma_options(options);
                }
            },
        }
    }
}

/// Verified credentials make their user the one that was recognised last; then the methods behind
/// are asked, and where none of them recognises anybody, that user is let through.
pub proof fn law_verified_credentials(
    auth: SystemAuth,
    headers: &HeaderMap,
    run: SystemAuthRun,
    verified: Option<String>,
    current_user: &str,
    step: SystemAuthStep,
)
    requires
        call_ensures(
            SystemAuth::verified_as,
            (&auth, headers, run, verified, current_user),
            step,
        ),
        run.next < auth.auth_methods@.len(),
        forall|i: int|
            run.next < i < auth.auth_methods@.len() ==> system_answer(
                #[trigger] auth.auth_methods@[i],
                *headers,
            ) is Pass,
    ensures
        match (verified, run.user) {
            (Some(name), _) => step matches SystemAuthStep::Allowed(user) && user.0@ == name@,
            (None, Some(name)) => step matches SystemAuthStep::Allowed(user) && user.0@ == name@,
            (None, None) => step == SystemAuthStep::Refused(StatusCode::Unauthorized),
        },
{
    lemma_nobody_after(
        auth.auth_methods@,
        *headers,
        current_user@,
        run.next + 1,
        auth.auth_methods@.len() as int,
        crate::system_auth::latest(verified, run.user),
    );
    match step {
        SystemAuthStep::Verify(later, _) => {
            assert(system_answer(auth.auth_methods@[later.next as int], *headers) is Verify);
        },
        SystemAuthStep::Malformed(e) => {
            let i = choose|i: int|
                {
                    &&& run.next + 1 <= i < auth.auth_methods@.len()
                    &&& all_settle(auth.auth_methods@, *headers, run.next + 1, i)
                    &&& system_answer(#[trigger] auth.auth_methods@[i], *headers)
                        == SystemAnswer::Malformed(e)
                };
            assert(system_answer(auth.auth_methods@[i], *headers) is Malformed);
        },
        _ => {},
    }
}

proof fn lemma_nobody_after(
    methods: Seq<SystemMethod>,
    headers: HeaderMap,
    current_user: Seq<char>,
    from: int,
    to: int,
    user: Option<Seq<char>>,
)
    requires
        from <= to,
        forall|i: int| from <= i < to ==> system_answer(#[trigger] methods[i], headers) is Pass,
    ensures
        user_after(methods, headers, current_user, from, to, user) == user,
    decreases to - from,
{
    if from < to {
        assert(system_answer(methods[to - 1], headers) is Pass);
        lemma_nobody_after(methods, headers, current_user, from, to - 1, user);
    }
}

/// A copy of a user is the same user.
pub proof fn law_copied_user(user: UserId, copy: UserId)
    requires
        call_ensures(<UserId as Clone>::clone, (&user,), copy),
    ensures
        copy == user,
{
}

/// A copy of a token is the same token.
pub proof fn law_copied_token(token: BearerToken, copy: BearerToken)
    requires
        call_ensures(<BearerToken as Clone>::clone, (&token,), copy),
    ensures
        copy == token,
{
}

} // verus!
