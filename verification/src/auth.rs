//! Accounts and sessions: sign-up checks, the login decision, the
//! authentication guard in front of protected routes, and role checks.

use vstd::prelude::*;
use crate::reply::{Reply, ReplyView, Status, BodyKind, reply_of, make_reply};
use crate::text::{str_equal, trim, trimmed, utf8_len, validate_email, email_is_valid};
use crate::order::opt_string_view;
use vstd::string::StrSliceExecFns;

verus! {

/// A sign-up request as it arrives.
#[derive(Clone, Debug)]
pub struct SignupData {
    pub username: String,
    pub email: String,
    pub password: String,
}

/// A login request as it arrives.
#[derive(Clone, Debug)]
pub struct LoginData {
    pub email: String,
    pub password: String,
}

/// What a session token carries: user id, e-mail, role and expiry.
#[derive(Clone, Debug, PartialEq, Eq)]
pub struct Claims {
    pub sub: String,
    pub email: String,
    pub role: String,
    pub exp: usize,
}

/// The mathematical content of `Claims`.
pub struct ClaimsView {
    pub sub: Seq<char>,
    pub email: Seq<char>,
    pub role: Seq<char>,
    pub exp: usize,
}

impl View for Claims {
    type V = ClaimsView;

    open spec fn view(&self) -> ClaimsView {
        ClaimsView { sub: self.sub@, email: self.email@, role: self.role@, exp: self.exp }
    }
}

/// The optional claims of a request, by their views.
pub open spec fn claims_view(c: Option<&Claims>) -> Option<ClaimsView> {
    match c {
        Some(x) => Some(x@),
        None => None,
    }
}

/// Result of holding a request's claims against a required role.
#[derive(Clone, Copy, Debug, PartialEq, Eq, Structural)]
pub enum Access {
    /// The caller is signed in with the required role.
    Granted,
    /// The caller is signed in with another role.
    Forbidden,
    /// The request carries no claims.
    Unauthenticated,
}

/// The role rule: no claims, unauthenticated; a role other than the
/// required one, forbidden; else granted.
pub open spec fn role_access(claims: Option<ClaimsView>, role: Seq<char>) -> Access {
    match claims {
        None => Access::Unauthenticated,
        Some(c) => if c.role == role { Access::Granted } else { Access::Forbidden },
    }
}

/// Holds the request's claims against the required role.
pub fn check_role(claims: Option<&Claims>, role: &str) -> (r: Access)
    ensures
        r == role_access(claims_view(claims), role@),
{
    match claims {
        None => Access::Unauthenticated,
        Some(c) => if str_equal(c.role.as_str(), role) {
            Access::Granted
        } else {
            Access::Forbidden
        },
    }
}

/// The answer of a role guard: nothing when granted, else the refusal with
/// the given messages (403 when forbidden, 401 when unauthenticated).
pub open spec fn guard_outcome(
    access: Access,
    kind: BodyKind,
    forbidden: Seq<char>,
    unauthorized: Seq<char>,
) -> Result<(), ReplyView> {
    match access {
        Access::Granted => Ok(()),
        Access::Forbidden => Err(reply_of(Status::Forbidden, kind, forbidden)),
        Access::Unauthenticated => Err(reply_of(Status::Unauthorized, kind, unauthorized)),
    }
}

/// A `Result` whose error is a `Reply`, by views.
pub open spec fn result_view<T>(r: Result<T, Reply>) -> Result<T, ReplyView> {
    match r {
        Ok(t) => Ok(t),
        Err(e) => Err(e@),
    }
}

/// Turns a role decision into the answer of a guard.
pub fn guard(access: Access, kind: BodyKind, forbidden: &str, unauthorized: &str) -> (r: Result<(), Reply>)
    ensures
        result_view(r) == guard_outcome(access, kind, forbidden@, unauthorized@),
{
    match access {
        Access::Granted => Ok(()),
        Access::Forbidden => Err(make_reply(Status::Forbidden, kind, forbidden)),
        Access::Unauthenticated => Err(make_reply(Status::Unauthorized, kind, unauthorized)),
    }
}

/// A role guard lets a request through exactly when it carries claims
/// whose role is the required one; a request without claims is answered
/// 401 and one with another role 403, each with its own message.
pub proof fn role_guard_rule(
    claims: Option<ClaimsView>,
    role: Seq<char>,
    kind: BodyKind,
    forbidden: Seq<char>,
    unauthorized: Seq<char>,
)
    ensures
        guard_outcome(role_access(claims, role), kind, forbidden, unauthorized) is Ok <==> (claims is Some
            && claims->0.role == role),
        claims is None ==> guard_outcome(role_access(claims, role), kind, forbidden, unauthorized)
            == Err::<(), ReplyView>(reply_of(Status::Unauthorized, kind, unauthorized)),
        (claims is Some && claims->0.role != role) ==> guard_outcome(
            role_access(claims, role),
            kind,
            forbidden,
            unauthorized,
        ) == Err::<(), ReplyView>(reply_of(Status::Forbidden, kind, forbidden)),
{
}

/// The sign-up fields that pass the checks, trimmed.
#[derive(Clone, Debug, PartialEq, Eq)]
pub struct SignupFields {
    pub username: String,
    pub email: String,
    pub password: String,
}

pub struct SignupFieldsView {
    pub username: Seq<char>,
    pub email: Seq<char>,
    pub password: Seq<char>,
}

impl View for SignupFields {
    type V = SignupFieldsView;

    open spec fn view(&self) -> SignupFieldsView {
        SignupFieldsView { username: self.username@, email: self.email@, password: self.password@ }
    }
}

/// The sign-up rules, on the fields trimmed of surrounding whitespace, in
/// this order: a username that is not empty; an e-mail address that is not
/// empty and valid; a password of 8 to 32 bytes. Each refusal is a 400 with
/// its message.
pub open spec fn signup_outcome(
    username: Seq<char>,
    email: Seq<char>,
    password: Seq<char>,
) -> Result<SignupFieldsView, ReplyView> {
    let u = trimmed(username);
    let e = trimmed(email);
    let p = trimmed(password);
    if u.len() == 0 {
        Err(reply_of(Status::BadRequest, BodyKind::Text, "Username cannot be empty"@))
    } else if e.len() == 0 || !email_is_valid(e) {
        Err(reply_of(Status::BadRequest, BodyKind::Text, "Invalid email address"@))
    } else if utf8_len(p) < 8 || utf8_len(p) > 32 {
        Err(reply_of(Status::BadRequest, BodyKind::Text, "Password must be between 8 and 32 characters"@))
    } else {
        Ok(SignupFieldsView { username: u, email: e, password: p })
    }
}

pub open spec fn signup_result_view(r: Result<SignupFields, Reply>) -> Result<SignupFieldsView, ReplyView> {
    match r {
        Ok(f) => Ok(f@),
        Err(e) => Err(e@),
    }
}

/// Checks a sign-up request; on success, the trimmed fields to store.
pub fn validate_signup(data: &SignupData) -> (r: Result<SignupFields, Reply>)
    ensures
        signup_result_view(r) == signup_outcome(data.username@, data.email@, data.password@),
{
    let username = trim(data.username.as_str());
    let email = trim(data.email.as_str());
    let password = trim(data.password.as_str());
    if username.is_empty() {
        return Err(make_reply(Status::BadRequest, BodyKind::Text, "Username cannot be empty"));
    }
    if email.is_empty() || !validate_email(email) {
        return Err(make_reply(Status::BadRequest, BodyKind::Text, "Invalid email address"));
    }
    if password.len() < 8 || password.len() > 32 {
        return Err(make_reply(Status::BadRequest, BodyKind::Text, "Password must be between 8 and 32 characters"));
    }
    Ok(SignupFields {
        username: username.to_owned(),
        email: email.to_owned(),
        password: password.to_owned(),
    })
}

/// Every accepted sign-up stores fields without surrounding whitespace: a
/// non-empty username, a non-empty valid e-mail address and a password of
/// 8 to 32 bytes.
pub proof fn accepted_signups_meet_the_rules(username: Seq<char>, email: Seq<char>, password: Seq<char>)
    ensures
        signup_outcome(username, email, password) matches Ok(f) ==> {
            &&& f.username == trimmed(username)
            &&& f.email == trimmed(email)
            &&& f.password == trimmed(password)
            &&& f.username.len() > 0
            &&& f.email.len() > 0
            &&& email_is_valid(f.email)
            &&& 8 <= utf8_len(f.password) <= 32
        },
{
}

/// Credentials just registered are the ones a login looks for: the e-mail
/// address a sign-up stores is the trimmed address, which is the key
/// `login_email` searches by for the same address; and a password without
/// surrounding whitespace is stored (to be hashed) exactly as given, so it
/// is the password a login with it checks.
pub proof fn signup_credentials_are_login_credentials(
    username: Seq<char>,
    email: Seq<char>,
    password: Seq<char>,
)
    ensures
        signup_outcome(username, email, password) matches Ok(f) ==> {
            &&& f.email == trimmed(email)
            &&& (password == trimmed(password) ==> f.password == password)
        },
{
}

/// The answer once the new account was (or was not) stored.
pub fn signup_reply(stored: bool) -> (r: Reply)
    ensures
        stored ==> r@ == reply_of(Status::Success, BodyKind::Text, "User registered successfully"@),
        !stored ==> r@ == reply_of(
            Status::InternalServerError,
            BodyKind::Text,
            "User registration failed please check you data provided "@,
        ),
{
    if stored {
        make_reply(Status::Success, BodyKind::Text, "User registered successfully")
    } else {
        make_reply(Status::InternalServerError, BodyKind::Text, "User registration failed please check you data provided ")
    }
}

/// The e-mail address a login looks the account up by: trimmed.
pub fn login_email(data: &LoginData) -> (r: String)
    ensures
        r@ == trimmed(data.email@),
{
    trim(data.email.as_str()).to_owned()
}

/// An account as stored: id, e-mail, password hash and role.
#[derive(Clone, Debug)]
pub struct UserRecord {
    pub id: String,
    pub email: String,
    pub password: String,
    pub role: Option<String>,
}

/// What a session token is issued for.
#[derive(Clone, Debug, PartialEq, Eq)]
pub struct TokenSubject {
    pub id: String,
    pub email: String,
    pub role: String,
}

/// The login rule: no account, 401 "User not found"; a password that does
/// not match, 401 "Invalid credentials"; else a token for the account's
/// id, e-mail and role.
pub fn login_outcome(user: &Option<UserRecord>, password_matches: bool) -> (r: Result<TokenSubject, Reply>)
    requires
        (user is Some && password_matches) ==> user->0.role is Some,
    ensures
        match user {
            None => r matches Err(e) && e@ == reply_of(Status::Unauthorized, BodyKind::Text, "User not found"@),
            Some(u) => if password_matches {
                r matches Ok(t) && t.id@ == u.id@ && t.email@ == u.email@ && t.role@ == u.role->0@
            } else {
                r matches Err(e) && e@ == reply_of(Status::Unauthorized, BodyKind::Text, "Invalid credentials"@)
            },
        },
{
    match user {
        None => Err(make_reply(Status::Unauthorized, BodyKind::Text, "User not found")),
        Some(u) => {
            if password_matches {
                let role = match &u.role {
                    Some(x) => x.clone(),
                    None => String::new(),
                };
                Ok(TokenSubject { id: u.id.clone(), email: u.email.clone(), role })
            } else {
                Err(make_reply(Status::Unauthorized, BodyKind::Text, "Invalid credentials"))
            }
        },
    }
}

/// The answer to a logout.
pub fn logout_reply() -> (r: Reply)
    ensures
        r@ == reply_of(Status::Success, BodyKind::Text, "Logged out successfully"@),
{
    make_reply(Status::Success, BodyKind::Text, "Logged out successfully")
}

/// The name of the cookie that carries the session token.
pub fn session_cookie_name() -> (r: &'static str)
    ensures
        r@ == "auth_token"@,
{
    "auth_token"
}

/// The authentication guard placed in front of protected routes.
pub struct AuthMiddleware;

/// The guard wrapped around a route's service.
pub struct AuthMiddlewareImpl<S> {
    pub service: S,
}

impl AuthMiddleware {
    /// Wraps a service in the guard.
    pub fn new_transform<S>(&self, service: S) -> (r: AuthMiddlewareImpl<S>)
        ensures
            r.service == service,
    {
        AuthMiddlewareImpl { service }
    }
}

/// The token an `Authorization` header value carries: what follows the
/// scheme `Bearer ` (with its single space), if the value starts with it.
pub open spec fn bearer_token(header: Seq<char>) -> Option<Seq<char>> {
    if header.len() >= 7 && header.subrange(0, 7) == "Bearer "@ {
        Some(header.subrange(7, header.len() as int))
    } else {
        None
    }
}

/// The token a request presents: the value of its session cookie, else a
/// bearer token in its `Authorization` header.
pub open spec fn presented_token(cookie: Option<Seq<char>>, authorization: Option<Seq<char>>) -> Option<
    Seq<char>,
> {
    match cookie {
        Some(t) => Some(t),
        None => match authorization {
            Some(h) => bearer_token(h),
            None => None,
        },
    }
}

/// The bearer token of an `Authorization` header value.
pub fn strip_bearer(header: &str) -> (r: Option<String>)
    ensures
        opt_string_view(r) == bearer_token(header@),
{
    let n = header.unicode_len();
    if n < 7 {
        return None;
    }
    let scheme = header.substring_char(0, 7);
    if str_equal(scheme, "Bearer ") {
        Some(header.substring_char(7, n).to_owned())
    } else {
        None
    }
}

impl<S> AuthMiddlewareImpl<S> {
    /// First step of the guard: the request's token is its session cookie,
    /// or else the bearer token of its `Authorization` header; a request
    /// presenting neither is answered 401 "Authentication token missing";
    /// otherwise the token goes on to be decoded.
    pub fn require_token(&self, cookie_value: Option<String>, authorization: Option<String>) -> (r: Result<
        String,
        Reply,
    >)
        ensures
            match presented_token(opt_string_view(cookie_value), opt_string_view(authorization)) {
                Some(t) => r matches Ok(x) && x@ == t,
                None => r matches Err(e) && e@ == reply_of(
                    Status::Unauthorized,
                    BodyKind::Text,
                    "Authentication token missing"@,
                ),
            },
    {
        match cookie_value {
            Some(t) => Ok(t),
            None => {
                let bearer = match &authorization {
                    Some(h) => strip_bearer(h.as_str()),
                    None => None,
                };
                match bearer {
                    Some(t) => Ok(t),
                    None => Err(make_reply(Status::Unauthorized, BodyKind::Text, "Authentication token missing")),
                }
            },
        }
    }

    /// Second step of the guard: a token that does not decode is answered
    /// 401 "Invalid token"; decoded claims are handed to the route.
    pub fn accept_claims(&self, decoded: Option<Claims>) -> (r: Result<Claims, Reply>)
        ensures
            match decoded {
                Some(c) => r matches Ok(x) && x@ == c@,
                None => r matches Err(e) && e@ == reply_of(Status::Unauthorized, BodyKind::Text, "Invalid token"@),
            },
    {
        match decoded {
            Some(c) => Ok(c),
            None => Err(make_reply(Status::Unauthorized, BodyKind::Text, "Invalid token")),
        }
    }
}

} // verus!
