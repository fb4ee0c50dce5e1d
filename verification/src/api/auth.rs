//! Issuing tokens and checking them.
//!
//! A token carries five claims: who the user is, which application acts,
//! when the token expires, and two random identifiers that tell one issuance
//! from another. Checking a token means reading it from a bearer header,
//! verifying its signature, and validating its claims against the clock.
//!
//! The clock, the random source and the cryptography are outside this crate.
//! Every function that reaches for one of them stands beside a function that
//! takes their results as arguments and has an exact contract.

use crate::claims::Claims;
use crate::clock::now_utc_seconds;
use crate::decimal::{decimal_text, format_decimal, parse_i64, parse_i64_text};
use crate::error::{AuthError, AuthFault, InputError, InputFault, ProcessError, ProcessFault};
use crate::gateway::{
    ApiGatewayResponse, ContentType, Decision, Effect, Policy, STATUS_BAD_REQUEST, STATUS_OK,
};
use crate::jwt::{
    find_key_fault, jwt_error_text, key_fault, rs256_claims, rs256_token, sign_rs256, verify_rs256,
};
use crate::model::app::{User, UserId, UserView};
use crate::uuids::{fresh_uuid, is_random_uuid};
use vstd::prelude::*;
use vstd::string::*;

verus! {

/// How long an issued token lasts, in seconds: one day.
pub const TOKEN_TTL_SECONDS: i64 = 86400;

/// What an issuance hands back: the signed token, no refresh token, and the
/// number of seconds for which the token is good.
#[derive(Debug)]
pub struct Tokens {
    pub access_token: String,
    pub refresh_token: Option<String>,
    pub expires_in: i64,
}

/// The codes by which a refused issuance is reported.
#[derive(Debug, Clone, Copy, PartialEq, Eq, Structural)]
pub enum Oauth2ErrorMessage {
    InvalidRequest,
}

/// The report of a refused issuance.
#[derive(Debug)]
pub struct Oauth2Error {
    pub error: Oauth2ErrorMessage,
    pub error_description: Option<String>,
}

/// The identity for which a token is asked.
#[derive(Debug)]
pub struct TestTokenInput {
    pub user_id: String,
    pub app_id: String,
}

/// Who is asking, once a token has been validated: the user that the token
/// names and the application that acts for them.
#[derive(Debug)]
pub struct AuthenticationContext {
    pub user: User,
    pub app_id: String,
}

/// An `AuthenticationContext` with its texts as sequences.
pub struct ContextView {
    pub user: UserView,
    pub app_id: Seq<char>,
}

impl View for AuthenticationContext {
    type V = ContextView;

    open spec fn view(&self) -> ContextView {
        ContextView { user: self.user@, app_id: self.app_id@ }
    }
}

/// The profile that stands for the user `user_id` until users are looked up
/// in earnest.
pub open spec fn stub_profile(user_id: Seq<char>) -> UserView {
    UserView { user_id, email: "testemail"@, tz: None }
}

/// The context of the user `user_id` acting through `app_id`.
pub open spec fn context_of(user_id: Seq<char>, app_id: Seq<char>) -> ContextView {
    ContextView { user: stub_profile(user_id), app_id }
}

/// The claims of a token issued to `context` at the time `now` for `ttl`
/// seconds, told apart by `session_id` and `token_id`.
pub open spec fn issued_claims(
    context: ContextView,
    now: int,
    ttl: int,
    session_id: Seq<char>,
    token_id: Seq<char>,
) -> Map<Seq<char>, Seq<char>> {
    Map::<Seq<char>, Seq<char>>::empty().insert("user_id"@, context.user.user_id).insert(
        "app_id"@,
        context.app_id,
    ).insert("expires_at"@, decimal_text(now + ttl)).insert("session_id"@, session_id).insert(
        "token_id"@,
        token_id,
    )
}

/// The claims by which access is decided: the user and the application, and
/// nothing else.
pub open spec fn granted_claims(context: ContextView) -> Map<Seq<char>, Seq<char>> {
    Map::<Seq<char>, Seq<char>>::empty().insert("user_id"@, context.user.user_id).insert(
        "app_id"@,
        context.app_id,
    )
}

/// What validating `claims` at the time `now` comes to. The first fault
/// found decides: a missing user, a missing application, a missing expiry,
/// an expiry that is no 64-bit integer, an expiry before `now`.
pub open spec fn validated(claims: Map<Seq<char>, Seq<char>>, now: int) -> Result<
    ContextView,
    InputFault,
> {
    if !claims.contains_key("user_id"@) {
        Err(InputFault::MissingField("user_id"@))
    } else if !claims.contains_key("app_id"@) {
        Err(InputFault::MissingField("app_id"@))
    } else if !claims.contains_key("expires_at"@) {
        Err(InputFault::MissingField("expires_at"@))
    } else {
        match parse_i64_text(claims["expires_at"@]) {
            None => Err(InputFault::ParsingError("expires_at"@)),
            Some(expires_at) => if expires_at < now {
                Err(InputFault::ExpiredToken)
            } else {
                Ok(context_of(claims["user_id"@], claims["app_id"@]))
            },
        }
    }
}

/// What checking `claims` at the time `now` comes to: the fault that
/// validation finds, or the grant for the user and application named.
pub open spec fn authorization(claims: Map<Seq<char>, Seq<char>>, now: int) -> Result<
    Decision,
    InputFault,
> {
    match validated(claims, now) {
        Ok(context) => Ok(
            Decision {
                principal_id: "user"@,
                effect: Effect::Allow,
                context: granted_claims(context),
            },
        ),
        Err(fault) => Err(fault),
    }
}

/// The letter `c` in lower case, if it is an ASCII capital; else `c`.
pub open spec fn to_ascii_lower(c: char) -> char {
    if 'A' <= c && c <= 'Z' {
        ((c as u8 + 32) as u8) as char
    } else {
        c
    }
}

/// Whether `s` begins with `prefix`, the case of ASCII letters in `s` set
/// aside. `prefix` is in lower case.
pub open spec fn starts_with_ignoring_case(s: Seq<char>, prefix: Seq<char>) -> bool {
    &&& s.len() >= prefix.len()
    &&& forall|i: int| 0 <= i < prefix.len() ==> to_ascii_lower(#[trigger] s[i]) == prefix[i]
}

/// Whether `header` names the bearer scheme: the word `bearer` in any case,
/// then one space.
pub open spec fn has_bearer_prefix(header: Seq<char>) -> bool {
    starts_with_ignoring_case(header, "bearer "@)
}

/// The token that the authorization header holds: what follows the seven
/// characters of the scheme.
pub open spec fn header_token(auth_header: Option<Seq<char>>) -> Result<Seq<char>, InputFault> {
    match auth_header {
        None => Err(InputFault::MissingHeader("authorization"@)),
        Some(header) => if has_bearer_prefix(header) {
            Ok(header.skip(7))
        } else {
            Err(InputFault::InvalidHeader { name: "authorization"@ })
        },
    }
}

/// The header as a sequence, where there is one.
pub open spec fn header_view(auth_header: Option<&str>) -> Option<Seq<char>> {
    match auth_header {
        Some(header) => Some(header@),
        None => None,
    }
}

/// Whether `r` is what validating `claims` at the time `now` comes to.
pub open spec fn is_validation_at(
    r: Result<AuthenticationContext, AuthError>,
    claims: Map<Seq<char>, Seq<char>>,
    now: i64,
) -> bool {
    match validated(claims, now as int) {
        Ok(context) => r matches Ok(c) && c@ == context,
        Err(fault) => r matches Err(e) && e@ == AuthFault::Input(fault),
    }
}

/// Whether `r` is what checking `claims` at the time `now` comes to.
pub open spec fn is_authorization_at(
    r: Result<Policy, AuthError>,
    claims: Map<Seq<char>, Seq<char>>,
    now: i64,
) -> bool {
    match authorization(claims, now as int) {
        Ok(decision) => r matches Ok(policy) && policy@ == decision,
        Err(fault) => r matches Err(e) && e@ == AuthFault::Input(fault),
    }
}

/// Whether `claims` are those of a token issued to `context` for `ttl`
/// seconds at the time `now`, with the identifiers `session_id` and
/// `token_id`, both random.
pub open spec fn is_issuance(
    claims: Map<Seq<char>, Seq<char>>,
    context: ContextView,
    ttl: i64,
    now: i64,
    session_id: Seq<char>,
    token_id: Seq<char>,
) -> bool {
    &&& is_random_uuid(session_id)
    &&& is_random_uuid(token_id)
    &&& claims == issued_claims(context, now as int, ttl as int, session_id, token_id)
}

/// Whether `tokens` carries the signed token `token`, no refresh token and
/// the time to live `ttl`.
pub open spec fn is_tokens(tokens: Tokens, token: Seq<char>, ttl: i64) -> bool {
    &&& tokens.access_token@ == token
    &&& tokens.refresh_token is None
    &&& tokens.expires_in == ttl
}

/// Whether `r` is what issuing to `context` for `ttl` seconds under
/// `private_key` comes to, for the issuance made at the time `now` with the
/// identifiers `session_id` and `token_id`: the tokens around the signed
/// token where the claims of that issuance can be signed, and an error where
/// they cannot.
pub open spec fn is_issue_at(
    r: Result<Tokens, ProcessError>,
    context: ContextView,
    ttl: i64,
    private_key: Seq<char>,
    now: i64,
    session_id: Seq<char>,
    token_id: Seq<char>,
) -> bool {
    match rs256_token(
        private_key,
        issued_claims(context, now as int, ttl as int, session_id, token_id),
    ) {
        Some(token) => r matches Ok(tokens) && is_tokens(tokens, token, ttl),
        None => r is Err,
    }
}

/// Whether `r` is what issuing to `context` for `ttl` seconds under
/// `private_key` comes to. A key that may not be used is refused, with the
/// reason. Under any other key an issuance is made, at some time and with
/// two random identifiers, and `r` is what signing its claims comes to.
pub open spec fn is_issue(
    r: Result<Tokens, ProcessError>,
    context: ContextView,
    ttl: i64,
    private_key: &str,
) -> bool {
    match key_fault(private_key) {
        Some(cause) => r matches Err(e) && e@ == ProcessFault::JWTError(cause),
        None => exists|now: i64, session_id: Seq<char>, token_id: Seq<char>|
            is_random_uuid(session_id) && is_random_uuid(token_id) && #[trigger] is_issue_at(
                r,
                context,
                ttl,
                private_key@,
                now,
                session_id,
                token_id,
            ),
    }
}

/// Whether `r` is what decoding `token` under `public_key` comes to. A key
/// that may not be used is a decode failure that says why. Under any other
/// key, a token that verifies gives the claims it carries, and one that
/// does not gives a decode failure.
pub open spec fn is_decoding(r: Result<Claims, ProcessError>, token: Seq<char>, public_key: &str) -> bool {
    match key_fault(public_key) {
        Some(cause) => r matches Err(e) && e@ == ProcessFault::JWTError(
            "error decoding the JWT "@ + cause,
        ),
        None => match rs256_claims(token, public_key@) {
            Some(claims) => r matches Ok(c) && c@ == claims,
            None => r matches Err(e) && is_decode_failure(e@),
        },
    }
}

/// Whether `e` reports that a token could not be decoded.
pub open spec fn is_decode_failure(e: ProcessFault) -> bool {
    e matches ProcessFault::JWTError(text) && "error decoding the JWT "@.is_prefix_of(text)
}

/// The five claim names differ from one another.
pub proof fn lemma_claim_names_differ()
    ensures
        "user_id"@ != "app_id"@,
        "user_id"@ != "expires_at"@,
        "user_id"@ != "session_id"@,
        "user_id"@ != "token_id"@,
        "app_id"@ != "expires_at"@,
        "app_id"@ != "session_id"@,
        "app_id"@ != "token_id"@,
        "expires_at"@ != "session_id"@,
        "expires_at"@ != "token_id"@,
        "session_id"@ != "token_id"@,
{
    reveal_strlit("user_id");
    reveal_strlit("app_id");
    reveal_strlit("expires_at");
    reveal_strlit("session_id");
    reveal_strlit("token_id");
    assert("user_id"@.len() == 7);
    assert("app_id"@.len() == 6);
    assert("token_id"@.len() == 8);
    assert("expires_at"@[0] == 'e');
    assert("session_id"@[0] == 's');
}

/// Whether `header` names the bearer scheme.
fn has_bearer_scheme(header: &str) -> (r: bool)
    ensures
        r == has_bearer_prefix(header@),
{
    let scheme = "bearer ";
    proof {
        reveal_strlit("bearer ");
    }
    let n = header.unicode_len();
    if n < 7 {
        return false;
    }
    let mut i: usize = 0;
    while i < 7
        invariant
            i <= 7,
            7 <= header@.len(),
            scheme@ == "bearer "@,
            scheme@.len() == 7,
            forall|j: int| 0 <= j < i ==> to_ascii_lower(#[trigger] header@[j]) == scheme@[j],
        decreases 7 - i,
    {
        let c = header.get_char(i);
        let lower = if 'A' <= c && c <= 'Z' {
            ((c as u8) + 32) as char
        } else {
            c
        };
        if lower != scheme.get_char(i) {
            return false;
        }
        i += 1;
    }
    true
}

/// Reads the token from an authorization header.
///
/// The header must be there and must begin with the bearer scheme; the token
/// is everything after the scheme's seven characters.
pub fn bearer_token(auth_header: Option<&str>) -> (r: Result<String, InputError>)
    ensures
        match header_token(header_view(auth_header)) {
            Ok(token) => r matches Ok(t) && t@ == token,
            Err(fault) => r matches Err(e) && e@ == fault,
        },
{
    match auth_header {
        None => Err(InputError::MissingHeader(String::from_str("authorization"))),
        Some(header) => {
            if has_bearer_scheme(header) {
                proof {
                    reveal_strlit("bearer ");
                }
                let n = header.unicode_len();
                let token = header.substring_char(7, n);
                assert(token@ =~= header@.skip(7));
                Ok(String::from_str(token))
            } else {
                Err(InputError::InvalidHeader { name: String::from_str("authorization") })
            }
        },
    }
}

/// The error that reports a failed decoding, with the cause as text.
fn decode_failure(cause: String) -> (r: ProcessError)
    ensures
        r@ == ProcessFault::JWTError("error decoding the JWT "@ + cause@),
        is_decode_failure(r@),
{
    let mut text = String::from_str("error decoding the JWT ");
    text.append(cause.as_str());
    ProcessError::JWTError(text)
}

/// Verifies `token` under `public_key` and reads its claims.
///
/// A token that verifies gives the claims that it carries. Every failure is
/// reported as a decode failure, whatever its cause: a key that may not be
/// used, a token that is malformed, a signature that does not match.
pub fn wrapped_decode_jwt(token: String, public_key: &str) -> (r: Result<Claims, ProcessError>)
    ensures
        is_decoding(r, token@, public_key),
{
    match find_key_fault(public_key) {
        Some(cause) => {
            return Err(decode_failure(cause));
        },
        None => {},
    }
    match verify_rs256(token.as_str(), public_key) {
        Ok(entries) => Ok(Claims::from_entries(entries)),
        Err(e) => Err(decode_failure(jwt_error_text(&e))),
    }
}

impl AuthenticationContext {
    /// Validates the claims of a token against the time `now`.
    ///
    /// The claims must name a user and an application and carry an expiry
    /// that is a 64-bit integer not before `now`. The first fault found is
    /// the one reported.
    pub fn validate(p: &Claims, now: i64) -> (r: Result<AuthenticationContext, AuthError>)
        ensures
            is_validation_at(r, p@, now),
    {
        let user_id = match p.get("user_id") {
            Some(user_id) => user_id,
            None => {
                return Err(AuthError::Input(InputError::MissingField(String::from_str("user_id"))));
            },
        };
        let user = match AuthenticationContext::get_user_from(user_id.as_str()) {
            Ok(user) => user,
            Err(e) => {
                return Err(e);
            },
        };
        let app_id = match p.get("app_id") {
            Some(app_id) => app_id,
            None => {
                return Err(AuthError::Input(InputError::MissingField(String::from_str("app_id"))));
            },
        };
        let expires_at = match p.get("expires_at") {
            Some(expires_at) => expires_at,
            None => {
                return Err(AuthError::Input(InputError::MissingField(String::from_str("expires_at"))));
            },
        };
        let expires_at = match parse_i64(expires_at.as_str()) {
            Some(expires_at) => expires_at,
            None => {
                return Err(AuthError::Input(InputError::ParsingError(String::from_str("expires_at"))));
            },
        };
        if expires_at < now {
            return Err(AuthError::Input(InputError::ExpiredToken));
        }
        Ok(AuthenticationContext { user, app_id: app_id.clone() })
    }

    /// Validates the claims of a token against the clock.
    ///
    /// The outcome is that of `validate` at the time the clock shows.
    pub fn try_from(p: &Claims) -> (r: Result<AuthenticationContext, AuthError>)
        ensures
            exists|now: i64| #[trigger] is_validation_at(r, p@, now),
    {
        let now = now_utc_seconds();
        AuthenticationContext::validate(p, now)
    }

    /// The user behind `user_id`. For now every identifier is taken for a
    /// user, with a profile made up on the spot.
    pub fn get_user_from(user_id: &str) -> (r: Result<User, AuthError>)
        ensures
            r matches Ok(user) && user@ == stub_profile(user_id@),
    {
        Ok(
            User {
                user_id: UserId(String::from_str(user_id)),
                email: String::from_str("testemail"),
                tz: None,
            },
        )
    }

    /// The claims by which access is decided: `user_id` and `app_id`.
    pub fn to_hashmap(&self) -> (r: Claims)
        ensures
            r@ == granted_claims(self@),
    {
        let mut hashmap = Claims::new();
        hashmap.insert(String::from_str("user_id"), self.user.user_id.to_string());
        hashmap.insert(String::from_str("app_id"), self.app_id.clone());
        hashmap
    }

    /// The claims of a token issued to this context at the time `now` for
    /// `expires_in` seconds, with the given identifiers.
    pub fn payload_at(
        &self,
        now: i64,
        expires_in: i64,
        session_id: String,
        token_id: String,
    ) -> (r: Claims)
        ensures
            r@ == issued_claims(self@, now as int, expires_in as int, session_id@, token_id@),
    {
        let mut p = Claims::new();
        p.insert(String::from_str("user_id"), self.user.user_id.to_string());
        p.insert(String::from_str("app_id"), self.app_id.clone());
        p.insert(String::from_str("expires_at"), format_decimal(now as i128 + expires_in as i128));
        p.insert(String::from_str("session_id"), session_id);
        p.insert(String::from_str("token_id"), token_id);
        p
    }

    /// The claims of a token issued to this context now, for `expires_in`
    /// seconds, with two fresh random identifiers.
    pub fn to_payload(&self, expires_in: i64) -> (r: Claims)
        ensures
            exists|now: i64, session_id: Seq<char>, token_id: Seq<char>| #[trigger]
                is_issuance(r@, self@, expires_in, now, session_id, token_id),
    {
        let now = now_utc_seconds();
        let session_id = fresh_uuid();
        let token_id = fresh_uuid();
        let ghost session = session_id@;
        let ghost token = token_id@;
        let r = self.payload_at(now, expires_in, session_id, token_id);
        assert(is_issuance(r@, self@, expires_in, now, session, token));
        r
    }
}

/// Issues a token to `identity` for `expires_in` seconds, signed with
/// `private_key`.
///
/// A key that may not be used is refused, with the reason. Under any other
/// key the claims of an issuance to `identity` are signed: if they can be,
/// the tokens are handed back, and if not, the failure.
pub fn issue(identity: TestTokenInput, expires_in: i64, private_key: &str) -> (r: Result<
    Tokens,
    ProcessError,
>)
    ensures
        is_issue(r, context_of(identity.user_id@, identity.app_id@), expires_in, private_key),
{
    let context = AuthenticationContext {
        user: User {
            user_id: UserId(identity.user_id),
            email: String::from_str("testemail"),
            tz: None,
        },
        app_id: identity.app_id,
    };
    match find_key_fault(private_key) {
        Some(cause) => {
            return signed_tokens(Err(cause), expires_in);
        },
        None => {},
    }
    let p1 = context.to_payload(expires_in);
    let signed = match sign_rs256(private_key, &p1) {
        Ok(access_token) => Ok(access_token),
        Err(e) => Err(jwt_error_text(&e)),
    };
    let r = signed_tokens(signed, expires_in);
    proof {
        let (now, session_id, token_id) = choose|
            now: i64,
            session_id: Seq<char>,
            token_id: Seq<char>,
        | #[trigger] is_issuance(p1@, context@, expires_in, now, session_id, token_id);
        assert(is_issue_at(r, context@, expires_in, private_key@, now, session_id, token_id));
    }
    r
}

/// What an issuance hands back once signing is over: the signed token with
/// no refresh token and the time to live `expires_in`, or, where signing
/// failed, a process error that carries the cause.
pub fn signed_tokens(signed: Result<String, String>, expires_in: i64) -> (r: Result<
    Tokens,
    ProcessError,
>)
    ensures
        match signed {
            Ok(access_token) => r == Ok::<Tokens, ProcessError>(
                Tokens { access_token, refresh_token: None, expires_in },
            ),
            Err(cause) => r == Err::<Tokens, ProcessError>(ProcessError::JWTError(cause)),
        },
{
    match signed {
        Ok(access_token) => Ok(Tokens { access_token, refresh_token: None, expires_in }),
        Err(cause) => Err(ProcessError::JWTError(cause)),
    }
}

/// Whether `response` refuses an issuance: status 400 and a report that
/// says `invalid_request` and no more.
pub open spec fn is_refusal(response: ApiGatewayResponse<Tokens, Oauth2Error>) -> bool {
    &&& response.status_code == STATUS_BAD_REQUEST
    &&& response.body matches Some((Err(report), ContentType::ApplicationJson))
    &&& report.error == Oauth2ErrorMessage::InvalidRequest
    &&& report.error_description is None
}

/// The response to a request for a token: the tokens with status 200, or,
/// whatever was wrong with the request, a refusal that gives nothing away.
pub fn token_response(result: Result<Tokens, InputError>) -> (r: ApiGatewayResponse<
    Tokens,
    Oauth2Error,
>)
    ensures
        match result {
            Ok(tokens) => r.status_code == STATUS_OK && r.body == Some(
                (Ok::<Tokens, Oauth2Error>(tokens), ContentType::ApplicationJson),
            ),
            Err(_) => is_refusal(r),
        },
{
    match result {
        Ok(tokens) => ApiGatewayResponse {
            status_code: STATUS_OK,
            body: Some((Ok(tokens), ContentType::ApplicationJson)),
        },
        Err(_) => {
            let oauth_error = Oauth2Error {
                error: Oauth2ErrorMessage::InvalidRequest,
                error_description: None,
            };
            ApiGatewayResponse {
                status_code: STATUS_BAD_REQUEST,
                body: Some((Err(oauth_error), ContentType::ApplicationJson)),
            }
        },
    }
}

/// Whether `r` is the answer to a well-formed request for a token, for the
/// issuance made at the time `now` with the identifiers `session_id` and
/// `token_id`: status 200 and, as JSON, the tokens around the signed token,
/// good for a day, where the claims of that issuance can be signed; an
/// error and no answer where they cannot.
pub open spec fn is_token_answer_at(
    r: Result<ApiGatewayResponse<Tokens, Oauth2Error>, ProcessError>,
    context: ContextView,
    private_key: Seq<char>,
    now: i64,
    session_id: Seq<char>,
    token_id: Seq<char>,
) -> bool {
    match rs256_token(
        private_key,
        issued_claims(context, now as int, TOKEN_TTL_SECONDS as int, session_id, token_id),
    ) {
        Some(token) => {
            &&& r matches Ok(response)
            &&& response.status_code == STATUS_OK
            &&& response.body matches Some((Ok(tokens), ContentType::ApplicationJson))
            &&& is_tokens(tokens, token, TOKEN_TTL_SECONDS)
        },
        None => r is Err,
    }
}

/// Whether `r` is what a well-formed request for a token for `context`
/// comes to under `private_key`. A key that may not be used is an error
/// that says why. Under any other key an issuance is made, at some time and
/// with two random identifiers, and `r` is the answer for it.
pub open spec fn is_token_answer(
    r: Result<ApiGatewayResponse<Tokens, Oauth2Error>, ProcessError>,
    context: ContextView,
    private_key: &str,
) -> bool {
    match key_fault(private_key) {
        Some(cause) => r matches Err(e) && e@ == ProcessFault::JWTError(cause),
        None => exists|now: i64, session_id: Seq<char>, token_id: Seq<char>|
            is_random_uuid(session_id) && is_random_uuid(token_id) && #[trigger] is_token_answer_at(
                r,
                context,
                private_key@,
                now,
                session_id,
                token_id,
            ),
    }
}

/// Answers a request for a token.
///
/// `data_result` is the identity read from the body of the request, or what
/// was wrong with the body. A malformed request is answered with a refusal,
/// whatever the key. A well-formed one is issued a token that lasts a day,
/// as `issue` says, and answered with the tokens and status 200; where the
/// issuance fails there is no answer but the error of the service.
pub fn test_token(data_result: Result<TestTokenInput, InputError>, private_key: &str) -> (r:
    Result<ApiGatewayResponse<Tokens, Oauth2Error>, ProcessError>)
    ensures
        match data_result {
            Ok(data) => is_token_answer(
                r,
                context_of(data.user_id@, data.app_id@),
                private_key,
            ),
            Err(_) => r matches Ok(response) && is_refusal(response),
        },
{
    match data_result {
        Ok(data) => {
            let ghost context = context_of(data.user_id@, data.app_id@);
            let issued = issue(data, TOKEN_TTL_SECONDS, private_key);
            let ghost before = issued;
            let r = match issued {
                Ok(tokens) => Ok(token_response(Ok(tokens))),
                Err(e) => Err(e),
            };
            proof {
                if key_fault(private_key) is None {
                    let (now, session_id, token_id) = choose|
                        now: i64,
                        session_id: Seq<char>,
                        token_id: Seq<char>,
                    |
                        is_random_uuid(session_id) && is_random_uuid(token_id)
                            && #[trigger] is_issue_at(
                            before,
                            context,
                            TOKEN_TTL_SECONDS,
                            private_key@,
                            now,
                            session_id,
                            token_id,
                        );
                    assert(is_token_answer_at(
                        r,
                        context,
                        private_key@,
                        now,
                        session_id,
                        token_id,
                    ));
                }
            }
            r
        },
        Err(e) => Ok(token_response(Err(e))),
    }
}

/// The response that hands out the public key: its text, as it is, with
/// status 200.
pub fn get_pub_certificate(contents: String) -> (r: ApiGatewayResponse<String, String>)
    ensures
        r.status_code == STATUS_OK,
        r.body == Some((Ok::<String, String>(contents), ContentType::TextPlain)),
{
    ApiGatewayResponse { status_code: STATUS_OK, body: Some((Ok(contents), ContentType::TextPlain)) }
}

/// Decides on access from a decoded token and the time `now`.
///
/// A token that could not be decoded is refused with the decode failure.
/// Claims that do not validate are refused with the fault found. Valid
/// claims are granted access as `user`, with the claims `user_id` and
/// `app_id` attached.
pub fn authorize(decoded: Result<Claims, ProcessError>, now: i64) -> (r: Result<Policy, AuthError>)
    ensures
        match decoded {
            Ok(claims) => is_authorization_at(r, claims@, now),
            Err(failure) => r matches Err(e) && e@ == AuthFault::Process(failure@),
        },
{
    match decoded {
        Ok(claims) => match AuthenticationContext::validate(&claims, now) {
            Ok(ac) => Ok(Policy::allow_all(String::from_str("user"), ac.to_hashmap())),
            Err(e) => Err(e),
        },
        Err(failure) => Err(AuthError::Process(failure)),
    }
}

/// Whether `r` is what verifying the header `auth_header` under
/// `public_key` comes to: the fault of a missing or malformed header, or
/// else what decoding the token in the header comes to.
pub open spec fn is_verification(
    r: Result<Claims, AuthError>,
    auth_header: Option<Seq<char>>,
    public_key: &str,
) -> bool {
    match header_token(auth_header) {
        Err(fault) => r matches Err(e) && e@ == AuthFault::Input(fault),
        Ok(token) => match key_fault(public_key) {
            Some(cause) => r matches Err(AuthError::Process(e)) && e@ == ProcessFault::JWTError(
                "error decoding the JWT "@ + cause,
            ),
            None => match rs256_claims(token, public_key@) {
                Some(claims) => r matches Ok(c) && c@ == claims,
                None => r matches Err(AuthError::Process(e)) && is_decode_failure(e@),
            },
        },
    }
}

/// Whether `r` is what deciding on access from the header `auth_header`
/// under `public_key` comes to: the fault of a missing or malformed header,
/// or a decode failure for a token that does not decode, or else what the
/// claims of the token come to at some time.
pub open spec fn is_check(
    r: Result<Policy, AuthError>,
    auth_header: Option<Seq<char>>,
    public_key: &str,
) -> bool {
    match header_token(auth_header) {
        Err(fault) => r matches Err(e) && e@ == AuthFault::Input(fault),
        Ok(token) => match key_fault(public_key) {
            Some(cause) => r matches Err(AuthError::Process(e)) && e@ == ProcessFault::JWTError(
                "error decoding the JWT "@ + cause,
            ),
            None => match rs256_claims(token, public_key@) {
                Some(claims) => exists|now: i64| #[trigger] is_authorization_at(r, claims, now),
                None => r matches Err(AuthError::Process(e)) && is_decode_failure(e@),
            },
        },
    }
}

/// Reads the token from the authorization header of a request, verifies it
/// under `public_key` and hands out its claims.
///
/// A missing or malformed header is refused as such, whatever else holds. A
/// token that verifies gives its claims; one that does not, and any token
/// under a key that may not be used, is refused with a decode failure. That
/// the claims are still good is not checked here.
pub fn verify(auth_header: Option<&str>, public_key: &str) -> (r: Result<Claims, AuthError>)
    ensures
        is_verification(r, header_view(auth_header), public_key),
{
    let token = match bearer_token(auth_header) {
        Ok(token) => token,
        Err(e) => {
            return Err(AuthError::Input(e));
        },
    };
    match wrapped_decode_jwt(token, public_key) {
        Ok(claims) => Ok(claims),
        Err(failure) => Err(AuthError::Process(failure)),
    }
}

/// Decides on access from the authorization header of a request.
///
/// A missing or malformed header is refused as such, whatever else holds.
/// Otherwise the token is verified under `public_key`: a token that does not
/// verify is refused with a decode failure and its claims are never looked
/// at; one that verifies is decided by its claims and the clock, as
/// `authorize` says.
pub fn check_authorization(auth_header: Option<&str>, public_key: &str) -> (r: Result<
    Policy,
    AuthError,
>)
    ensures
        is_check(r, header_view(auth_header), public_key),
{
    let claims = match verify(auth_header, public_key) {
        Ok(claims) => claims,
        Err(e) => {
            return Err(e);
        },
    };
    let ghost carried = claims@;
    let now = now_utc_seconds();
    let r = authorize(Ok(claims), now);
    assert(is_authorization_at(r, carried, now));
    r
}

} // verus!
