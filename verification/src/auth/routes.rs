//! Signing in: a GitHub OAuth code is exchanged for an access token, the token for the
//! GitHub profile, and the profile for the studio user (made on first sign-in), who then
//! gets a session token.
//!
//! The steps that talk to GitHub or the database are actions; `login_step` decides, from
//! the step the sign-in is at and what the last action brought back, what comes next.
use vstd::prelude::*;
use crate::auth::{audience, expiry, mint_jwt, signed_token, verified_claims};
use crate::github::{reply_is_readable, reply_outcome, GithubReply, GithubRequests, GithubUser};
use crate::text::signed_decimal;
use crate::users::db::User;

verus! {

/// HTTP 200 OK.
pub const STATUS_OK: u16 = 200;

/// HTTP 401 Unauthorized.
pub const STATUS_UNAUTHORIZED: u16 = 401;

/// HTTP 403 Forbidden.
pub const STATUS_FORBIDDEN: u16 = 403;

/// Where a sign-in stands.
pub enum LoginStep {
    /// Nothing done yet.
    Start,
    /// The code is being exchanged for an access token.
    ExchangingCode,
    /// The GitHub profile is being fetched.
    FetchingProfile,
    /// The studio user with this GitHub profile's id is being looked up.
    LookingUp { github_user: GithubUser },
    /// The user is being added to the database.
    Creating { user: User },
    /// The answer has been given.
    Done,
}

/// What the last action brought back.
pub enum LoginEvent {
    /// The request arrived with this OAuth code.
    Begin { code: String },
    /// GitHub answered the code exchange.
    CodeExchanged { token_reply: GithubReply<String> },
    /// GitHub answered the profile request.
    ProfileFetched { profile_reply: GithubReply<GithubUser> },
    /// The database answered the lookup.
    UserFound { record: Option<User> },
    /// The database stored the new user.
    UserCreated,
}

/// What is to be done next.
pub enum LoginAction {
    /// Ask GitHub for an access token for this code.
    ExchangeCode { code: String },
    /// Ask GitHub for the profile of the token's owner.
    FetchProfile { access_token: String },
    /// Look up the user with this id.
    FindUser { id: String },
    /// Store this new user.
    CreateUser { user: User },
    /// Answer the request with this status and body.
    Respond { status: u16, body: String },
}

/// Whether `event` is what an action taken at `step` brings back.
pub open spec fn login_expects(step: LoginStep, event: LoginEvent) -> bool {
    match (step, event) {
        (LoginStep::Start, LoginEvent::Begin { .. }) => true,
        (LoginStep::ExchangingCode, LoginEvent::CodeExchanged { token_reply: reply }) => reply_is_readable(reply),
        (LoginStep::FetchingProfile, LoginEvent::ProfileFetched { profile_reply: reply }) => reply_is_readable(reply),
        (LoginStep::LookingUp { .. }, LoginEvent::UserFound { .. }) => true,
        (LoginStep::Creating { .. }, LoginEvent::UserCreated) => true,
        _ => false,
    }
}

/// Whether `body` is a session token for the user with id `user_id`.
pub open spec fn is_session_token(jwt_secret: Seq<char>, user_id: Seq<char>, body: Seq<char>) -> bool {
    exists|issued_at: i64|
        body == signed_token(jwt_secret, audience(), expiry(issued_at), user_id) && verified_claims(jwt_secret, body)
            == Some((audience(), expiry(issued_at), user_id))
}

/// Whether the answer is a 200 carrying a session token for `user_id`.
pub open spec fn grants_session(jwt_secret: Seq<char>, user_id: Seq<char>, action: LoginAction) -> bool {
    action matches LoginAction::Respond { status, body } && status == STATUS_OK && is_session_token(
        jwt_secret,
        user_id,
        body@,
    )
}

/// Whether the answer is `status` with `message` as its body.
pub open spec fn refuses_with(status: u16, message: Seq<char>, action: LoginAction) -> bool {
    action matches LoginAction::Respond { status: s, body } && s == status && body@ == message
}

/// The next step of a sign-in:
/// - the code is exchanged first;
/// - a failed exchange is answered 403 with GitHub's failure message, a successful one
///   fetches the profile with the access token;
/// - a failed profile request is answered 401 with the failure message, a successful one
///   looks up the user whose id is the GitHub id in decimal;
/// - a known user gets a session token for the stored id; an unknown one is first
///   stored with the GitHub id and avatar URL, then gets a session token for that id.
pub fn login_step(step: LoginStep, event: LoginEvent, jwt_secret: &str) -> (next: (LoginStep, LoginAction))
    requires
        login_expects(step, event),
    ensures
        match (step, event) {
            (LoginStep::Start, LoginEvent::Begin { code }) => next.0 is ExchangingCode && (next.1 matches
                LoginAction::ExchangeCode { code: c } && c@ == code@),
            (LoginStep::ExchangingCode, LoginEvent::CodeExchanged { token_reply: reply }) => match reply_outcome(reply) {
                Ok(token) => next.0 is FetchingProfile && (next.1 matches LoginAction::FetchProfile {
                    access_token,
                } && access_token@ == token@),
                Err(message) => next.0 is Done && refuses_with(STATUS_FORBIDDEN, message, next.1),
            },
            (LoginStep::FetchingProfile, LoginEvent::ProfileFetched { profile_reply: reply }) => match reply_outcome(reply) {
                Ok(profile) => next.0 == (LoginStep::LookingUp { github_user: profile }) && (next.1 matches
                    LoginAction::FindUser { id } && id@ == signed_decimal(profile.id as int)),
                Err(message) => next.0 is Done && refuses_with(STATUS_UNAUTHORIZED, message, next.1),
            },
            (LoginStep::LookingUp { github_user }, LoginEvent::UserFound { record }) => match record {
                Some(user) => next.0 is Done && grants_session(jwt_secret@, user.id@, next.1),
                None => next.0 matches LoginStep::Creating { user } && user.id@ == signed_decimal(
                    github_user.id as int,
                ) && user.avatar_url == github_user.avatar_url && (next.1 matches LoginAction::CreateUser {
                    user: created,
                } && created.id@ == user.id@ && created.avatar_url@ == user.avatar_url@),
            },
            (LoginStep::Creating { user }, LoginEvent::UserCreated) => next.0 is Done && grants_session(
                jwt_secret@,
                user.id@,
                next.1,
            ),
            _ => false,
        },
{
    match step {
        LoginStep::Start => match event {
            LoginEvent::Begin { code } => (LoginStep::ExchangingCode, LoginAction::ExchangeCode { code }),
            _ => (LoginStep::Done, LoginAction::Respond { status: 0, body: String::new() }),
        },
        LoginStep::ExchangingCode => match event {
            LoginEvent::CodeExchanged { token_reply: reply } => match GithubRequests::login_outcome(reply) {
                Ok(access_token) => (LoginStep::FetchingProfile, LoginAction::FetchProfile { access_token }),
                Err(message) => (
                    LoginStep::Done,
                    LoginAction::Respond { status: STATUS_FORBIDDEN, body: message },
                ),
            },
            _ => (LoginStep::Done, LoginAction::Respond { status: 0, body: String::new() }),
        },
        LoginStep::FetchingProfile => match event {
            LoginEvent::ProfileFetched { profile_reply: reply } => match GithubRequests::profile_outcome(reply) {
                Ok(profile) => {
                    let id = profile.user_id();
                    (LoginStep::LookingUp { github_user: profile }, LoginAction::FindUser { id })
                },
                Err(message) => (
                    LoginStep::Done,
                    LoginAction::Respond { status: STATUS_UNAUTHORIZED, body: message },
                ),
            },
            _ => (LoginStep::Done, LoginAction::Respond { status: 0, body: String::new() }),
        },
        LoginStep::LookingUp { github_user } => match event {
            LoginEvent::UserFound { record } => match record {
                Some(user) => {
                    let token = mint_jwt(jwt_secret, user.id.as_str());
                    (LoginStep::Done, LoginAction::Respond { status: STATUS_OK, body: token })
                },
                None => {
                    let id = github_user.user_id();
                    let user = User { id: id.clone(), avatar_url: github_user.avatar_url.clone() };
                    let created = User { id, avatar_url: github_user.avatar_url };
                    (LoginStep::Creating { user }, LoginAction::CreateUser { user: created })
                },
            },
            _ => (LoginStep::Done, LoginAction::Respond { status: 0, body: String::new() }),
        },
        LoginStep::Creating { user } => match event {
            LoginEvent::UserCreated => {
                let token = mint_jwt(jwt_secret, user.id.as_str());
                (LoginStep::Done, LoginAction::Respond { status: STATUS_OK, body: token })
            },
            _ => (LoginStep::Done, LoginAction::Respond { status: 0, body: String::new() }),
        },
        LoginStep::Done => (LoginStep::Done, LoginAction::Respond { status: 0, body: String::new() }),
    }
}

/// The user table as a map from user id to avatar URL.
pub type UserIndex = Map<Seq<char>, Seq<char>>;

/// The user table after a sign-in with `github_user`, as `login_step` runs it against
/// `table`: the lookup of the GitHub id in decimal finds a user when the table has one,
/// and only a lookup that finds none leads to storing the new user.
pub open spec fn users_after_sign_in(table: UserIndex, github_user: GithubUser) -> UserIndex {
    let id = signed_decimal(github_user.id as int);
    if table.contains_key(id) {
        table
    } else {
        table.insert(id, github_user.avatar_url@)
    }
}

/// Signing in again with the same GitHub profile adds no user: after one sign-in the table
/// has exactly one entry for the GitHub id, and a second sign-in leaves the table as it is.
pub proof fn lemma_repeat_sign_in_adds_no_user(table: UserIndex, github_user: GithubUser)
    ensures
        users_after_sign_in(table, github_user).contains_key(signed_decimal(github_user.id as int)),
        users_after_sign_in(table, github_user).dom() == table.dom().insert(signed_decimal(github_user.id as int)),
        users_after_sign_in(users_after_sign_in(table, github_user), github_user) == users_after_sign_in(
            table,
            github_user,
        ),
{
    assert(users_after_sign_in(table, github_user).dom() =~= table.dom().insert(
        signed_decimal(github_user.id as int),
    ));
}

} // verus!
