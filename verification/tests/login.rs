use bevy_studio::auth::routes::{login_step, LoginAction, LoginEvent, LoginStep};
use bevy_studio::auth::validate_jwt;
use bevy_studio::github::{GithubReply, GithubUser};
use bevy_studio::users::db::User;

fn respond(action: LoginAction) -> (u16, String) {
    match action {
        LoginAction::Respond { status, body } => (status, body),
        _ => panic!("expected an answer"),
    }
}

fn to_lookup(secret: &str) -> LoginStep {
    let (step, action) = login_step(LoginStep::Start, LoginEvent::Begin { code: "c0de".to_string() }, secret);
    assert!(matches!(action, LoginAction::ExchangeCode { ref code } if code == "c0de"));
    let reply = GithubReply::Received { status: 200, body: Some("gho_token".to_string()) };
    let (step, action) = login_step(step, LoginEvent::CodeExchanged { token_reply: reply }, secret);
    assert!(matches!(action, LoginAction::FetchProfile { ref access_token } if access_token == "gho_token"));
    let profile = GithubUser { id: 1234, avatar_url: "https://avatars/1234".to_string() };
    let reply = GithubReply::Received { status: 200, body: Some(profile) };
    let (step, action) = login_step(step, LoginEvent::ProfileFetched { profile_reply: reply }, secret);
    assert!(matches!(action, LoginAction::FindUser { ref id } if id == "1234"));
    step
}

#[test]
fn known_user_gets_session() {
    let step = to_lookup("k");
    let record = User { id: "1234".to_string(), avatar_url: "x".to_string() };
    let (step, action) = login_step(step, LoginEvent::UserFound { record: Some(record) }, "k");
    assert!(matches!(step, LoginStep::Done));
    let (status, body) = respond(action);
    assert_eq!(status, 200);
    assert_eq!(validate_jwt("k", &body), Some("1234".to_string()));
}

#[test]
fn new_user_is_created_then_gets_session() {
    let step = to_lookup("k");
    let (step, action) = login_step(step, LoginEvent::UserFound { record: None }, "k");
    match action {
        LoginAction::CreateUser { user } => {
            assert_eq!(user.id, "1234");
            assert_eq!(user.avatar_url, "https://avatars/1234");
        }
        _ => panic!("expected the user to be created"),
    }
    let (step, action) = login_step(step, LoginEvent::UserCreated, "k");
    assert!(matches!(step, LoginStep::Done));
    let (status, body) = respond(action);
    assert_eq!(status, 200);
    assert_eq!(validate_jwt("k", &body), Some("1234".to_string()));
}

#[test]
fn failed_code_exchange_is_forbidden() {
    let (step, _) = login_step(LoginStep::Start, LoginEvent::Begin { code: "c".to_string() }, "k");
    let reply = GithubReply::Received { status: 404, body: None };
    let (step, action) = login_step(step, LoginEvent::CodeExchanged { token_reply: reply }, "k");
    assert!(matches!(step, LoginStep::Done));
    assert_eq!(respond(action), (403, "github oauth request failed with 404 Not Found".to_string()));
}

#[test]
fn failed_profile_is_unauthorized() {
    let (step, _) = login_step(LoginStep::Start, LoginEvent::Begin { code: "c".to_string() }, "k");
    let reply = GithubReply::Received { status: 200, body: Some("t".to_string()) };
    let (step, _) = login_step(step, LoginEvent::CodeExchanged { token_reply: reply }, "k");
    let (step, action) = login_step(step, LoginEvent::ProfileFetched { profile_reply: GithubReply::Failed }, "k");
    assert!(matches!(step, LoginStep::Done));
    assert_eq!(respond(action), (401, "github oauth failed in io".to_string()));
}
