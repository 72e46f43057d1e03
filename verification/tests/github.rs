use bevy_studio::github::{describe_status, read_reply, GithubReply, GithubRequests, GithubUser};

#[test]
fn status_is_described_like_display() {
    assert_eq!(describe_status(404), "404 Not Found");
    assert_eq!(describe_status(200), "200 OK");
    assert_eq!(describe_status(599), "599 <unknown status code>");
    assert_eq!(describe_status(500), hyper::StatusCode::INTERNAL_SERVER_ERROR.to_string());
}

#[test]
fn reply_outcomes() {
    let ok: Result<String, String> = read_reply(GithubReply::Received { status: 200, body: Some("tok".to_string()) });
    assert_eq!(ok, Ok("tok".to_string()));
    let bad: Result<String, String> = read_reply(GithubReply::Received { status: 401, body: None });
    assert_eq!(bad, Err("github oauth request failed with 401 Unauthorized".to_string()));
    let failed: Result<String, String> = read_reply(GithubReply::Failed);
    assert_eq!(failed, Err("github oauth failed in io".to_string()));
}

#[test]
fn login_and_profile_outcomes() {
    let token = GithubRequests::login_outcome(GithubReply::Received { status: 502, body: None });
    assert_eq!(token, Err("github oauth request failed with 502 Bad Gateway".to_string()));
    let profile = GithubRequests::profile_outcome(GithubReply::Received {
        status: 200,
        body: Some(GithubUser { id: 7, avatar_url: "a.png".to_string() }),
    });
    match profile {
        Ok(u) => {
            assert_eq!(u.id, 7);
            assert_eq!(u.avatar_url, "a.png");
        }
        Err(m) => panic!("{}", m),
    }
}

#[test]
fn token_request_form() {
    let gh = GithubRequests { client_secret: "shh".to_string() };
    let fields = gh.token_request_fields("the-code");
    let expected = vec![
        ("client_id".to_string(), "705625596ca39ae3136d".to_string()),
        ("client_secret".to_string(), "shh".to_string()),
        ("code".to_string(), "the-code".to_string()),
        ("scope".to_string(), "read:user".to_string()),
    ];
    assert_eq!(fields, expected);
    assert_eq!(GithubRequests::authorization_header("abc"), "token abc");
}

#[test]
fn github_user_id_in_decimal() {
    assert_eq!(GithubUser { id: 583231, avatar_url: String::new() }.user_id(), "583231");
    assert_eq!(GithubUser { id: -5, avatar_url: String::new() }.user_id(), "-5");
}
