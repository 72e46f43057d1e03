//! Signing in with GitHub: what is asked of GitHub's OAuth service and how its
//! replies are read.
use vstd::prelude::*;
use crate::text::{decimal, decimal_text, signed_decimal, signed_decimal_text};

verus! {

/// The OAuth application's client id.
pub open spec fn client_id() -> Seq<char> {
    seq!['7', '0', '5', '6', '2', '5', '5', '9', '6', 'c', 'a', '3', '9', 'a', 'e', '3', '1', '3', '6', 'd']
}

/// Talks to GitHub on behalf of the OAuth application with this client secret.
pub struct GithubRequests {
    pub client_secret: String,
}

/// The part of a GitHub user's profile that the studio keeps.
pub struct GithubUser {
    pub id: i32,
    pub avatar_url: String,
}

/// A reply from GitHub: the request failed on the way, or an HTTP status came back,
/// with the body read as `T` where it was read.
pub enum GithubReply<T> {
    Failed,
    Received { status: u16, body: Option<T> },
}

/// The text of an HTTP status's reason phrase, where `http::StatusCode::canonical_reason`
/// has one for the code.
pub uninterp spec fn canonical_reason(code: u16) -> Option<Seq<char>>;

/// `{code} {reason}`, as `http::StatusCode`'s `Display` writes a status.
pub open spec fn status_text(code: u16) -> Seq<char> {
    decimal(code as nat).push(' ') + match canonical_reason(code) {
        Some(reason) => reason,
        None => seq!['<', 'u', 'n', 'k', 'n', 'o', 'w', 'n', ' ', 's', 't', 'a', 't', 'u', 's', ' ', 'c', 'o', 'd', 'e', '>'],
    }
}

/// The message given when GitHub answers with a status other than 200.
pub open spec fn request_failed_message(code: u16) -> Seq<char> {
    seq!['g', 'i', 't', 'h', 'u', 'b', ' ', 'o', 'a', 'u', 't', 'h', ' ', 'r', 'e', 'q', 'u', 'e', 's', 't', ' ',
        'f', 'a', 'i', 'l', 'e', 'd', ' ', 'w', 'i', 't', 'h', ' '] + status_text(code)
}

/// The message given when the request to GitHub did not get through.
pub open spec fn io_failed_message() -> Seq<char> {
    seq!['g', 'i', 't', 'h', 'u', 'b', ' ', 'o', 'a', 'u', 't', 'h', ' ', 'f', 'a', 'i', 'l', 'e', 'd', ' ', 'i',
        'n', ' ', 'i', 'o']
}

/// What a reply of GitHub gives: the body for status 200, the status's failure message
/// for any other status, and the I/O failure message where no reply came.
pub open spec fn reply_outcome<T>(reply: GithubReply<T>) -> Result<T, Seq<char>> {
    match reply {
        GithubReply::Failed => Err(io_failed_message()),
        GithubReply::Received { status, body } => if status == 200 {
            Ok(body->0)
        } else {
            Err(request_failed_message(status))
        },
    }
}

/// Whether a reply can be read: a status is a real HTTP status, and a 200 reply's body was read.
pub open spec fn reply_is_readable<T>(reply: GithubReply<T>) -> bool {
    reply matches GithubReply::Received { status, body } ==> 100 <= status < 1000 && (status == 200
        ==> body is Some)
}

/// Calls `http::StatusCode::from_u16(code)` and its `canonical_reason()`: the reason
/// phrase of the status, as `canonical_reason` names it.
#[verifier::external_body]
fn status_reason(code: u16) -> (reason: Option<String>)
    requires
        100 <= code < 1000,
    ensures
        match reason {
            Some(r) => canonical_reason(code) == Some(r@),
            None => canonical_reason(code) is None,
        },
{
    match hyper::StatusCode::from_u16(code) {
        Ok(status) => status.canonical_reason().map(String::from),
        Err(_) => None,
    }
}

/// A status as `Display` writes it: `404 Not Found`.
pub fn describe_status(code: u16) -> (text: String)
    requires
        100 <= code < 1000,
    ensures
        text@ == status_text(code),
{
    proof {
        reveal_strlit(" ");
        reveal_strlit("<unknown status code>");
    }
    let mut text = decimal_text(code as u64);
    text.append(" ");
    match status_reason(code) {
        Some(reason) => text.append(reason.as_str()),
        None => text.append("<unknown status code>"),
    }
    text
}

/// Reads a reply of GitHub: 200 gives the body, another status
/// `github oauth request failed with {status}`, and no reply `github oauth failed in io`.
pub fn read_reply<T>(reply: GithubReply<T>) -> (outcome: Result<T, String>)
    requires
        reply_is_readable(reply),
    ensures
        match (outcome, reply_outcome(reply)) {
            (Ok(body), Ok(expected)) => body == expected,
            (Err(message), Err(expected)) => message@ == expected,
            _ => false,
        },
{
    proof {
        reveal_strlit("github oauth failed in io");
        reveal_strlit("github oauth request failed with ");
    }
    match reply {
        GithubReply::Failed => Err(String::from_str("github oauth failed in io")),
        GithubReply::Received { status, body } => {
            if status == 200 {
                match body {
                    Some(b) => Ok(b),
                    None => Err(String::new()),
                }
            } else {
                let mut message = String::from_str("github oauth request failed with ");
                message.append(describe_status(status).as_str());
                Err(message)
            }
        },
    }
}

impl GithubRequests {
    /// The form sent to exchange an OAuth code for an access token: the client id, the
    /// client secret, the code, and the scope `read:user`, in that order.
    pub fn token_request_fields(&self, code: &str) -> (fields: Vec<(String, String)>)
        ensures
            fields@.len() == 4,
            fields@[0].0@ == seq!['c', 'l', 'i', 'e', 'n', 't', '_', 'i', 'd'] && fields@[0].1@ == client_id(),
            fields@[1].0@ == seq!['c', 'l', 'i', 'e', 'n', 't', '_', 's', 'e', 'c', 'r', 'e', 't']
                && fields@[1].1@ == self.client_secret@,
            fields@[2].0@ == seq!['c', 'o', 'd', 'e'] && fields@[2].1@ == code@,
            fields@[3].0@ == seq!['s', 'c', 'o', 'p', 'e'] && fields@[3].1@ == seq![
                'r', 'e', 'a', 'd', ':', 'u', 's', 'e', 'r'],
    {
        proof {
            reveal_strlit("client_id");
            reveal_strlit("705625596ca39ae3136d");
            reveal_strlit("client_secret");
            reveal_strlit("code");
            reveal_strlit("scope");
            reveal_strlit("read:user");
        }
        let mut fields: Vec<(String, String)> = Vec::new();
        fields.push((String::from_str("client_id"), String::from_str("705625596ca39ae3136d")));
        fields.push((String::from_str("client_secret"), self.client_secret.clone()));
        fields.push((String::from_str("code"), String::from_str(code)));
        fields.push((String::from_str("scope"), String::from_str("read:user")));
        fields
    }

    /// The `Authorization` header of a request made with a user's access token.
    pub fn authorization_header(access_token: &str) -> (header: String)
        ensures
            header@ == seq!['t', 'o', 'k', 'e', 'n', ' '] + access_token@,
    {
        proof {
            reveal_strlit("token ");
        }
        let mut header = String::from_str("token ");
        header.append(access_token);
        header
    }

    /// The outcome of exchanging a code: the access token from a 200 reply, or the failure message.
    pub fn login_outcome(reply: GithubReply<String>) -> (outcome: Result<String, String>)
        requires
            reply_is_readable(reply),
        ensures
            match (outcome, reply_outcome(reply)) {
                (Ok(token), Ok(expected)) => token@ == expected@,
                (Err(message), Err(expected)) => message@ == expected,
                _ => false,
            },
    {
        read_reply(reply)
    }

    /// The outcome of fetching the user's profile: the profile from a 200 reply, or the
    /// failure message.
    pub fn profile_outcome(reply: GithubReply<GithubUser>) -> (outcome: Result<GithubUser, String>)
        requires
            reply_is_readable(reply),
        ensures
            match (outcome, reply_outcome(reply)) {
                (Ok(user), Ok(expected)) => user == expected,
                (Err(message), Err(expected)) => message@ == expected,
                _ => false,
            },
    {
        read_reply(reply)
    }
}

impl GithubUser {
    /// The studio's id for a GitHub user: the GitHub id in decimal.
    pub fn user_id(&self) -> (id: String)
        ensures
            id@ == signed_decimal(self.id as int),
            self.id >= 0 ==> crate::text::numeral_of(id@, self.id as int),
            self.id < 0 ==> id@[0] == '-' && crate::text::numeral_of(id@.drop_first(), -self.id),
    {
        signed_decimal_text(self.id as i64)
    }
}

/// Different GitHub users get different studio ids: the id is the GitHub id's numeral,
/// which reads back as that id.
pub proof fn lemma_distinct_github_users_distinct_ids(a: GithubUser, b: GithubUser)
    requires
        a.id != b.id,
    ensures
        signed_decimal(a.id as int) != signed_decimal(b.id as int),
{
    crate::text::lemma_signed_decimal_injective(a.id as int, b.id as int);
}

} // verus!
