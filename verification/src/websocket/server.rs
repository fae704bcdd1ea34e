use vstd::prelude::*;

use service_utils_rs::utils::string_util::QueryExtractor;

verus! {

/// The token service that signs and checks access tokens.
#[verifier::external_type_specification]
#[verifier::external_body]
pub struct ExJwt(service_utils_rs::services::jwt::Jwt);

/// The part of `s` before the first `c` (all of `s` when there is none).
pub open spec fn before_char(s: Seq<char>, c: char) -> Seq<char>
    decreases s.len(),
{
    if s.len() == 0 {
        s
    } else if s[0] == c {
        Seq::empty()
    } else {
        seq![s[0]] + before_char(s.drop_first(), c)
    }
}

/// The part of `s` after the first `c`, or `None` when `s` holds no `c`.
pub open spec fn after_char(s: Seq<char>, c: char) -> Option<Seq<char>>
    decreases s.len(),
{
    if s.len() == 0 {
        None
    } else if s[0] == c {
        Some(s.drop_first())
    } else {
        after_char(s.drop_first(), c)
    }
}

/// What follows the first `c` in `s` is shorter than `s`.
pub proof fn lemma_after_char_shorter(s: Seq<char>, c: char)
    ensures
        after_char(s, c) matches Some(rest) ==> rest.len() < s.len(),
    decreases s.len(),
{
    if s.len() > 0 && s[0] != c {
        lemma_after_char_shorter(s.drop_first(), c);
    }
}

/// The value that one `key=value` pair gives `key`: the text between its
/// first and second `=`, when the text before the first `=` is `key`.
pub open spec fn pair_value(pair: Seq<char>, key: Seq<char>) -> Option<Seq<char>> {
    match after_char(pair, '=') {
        Some(rest) => if before_char(pair, '=') == key {
            Some(before_char(rest, '='))
        } else {
            None
        },
        None => None,
    }
}

/// The value that a URL query string gives `key`: that of the first of its
/// `&`-separated pairs that gives `key` a value.
pub open spec fn query_param(query: Seq<char>, key: Seq<char>) -> Option<Seq<char>>
    decreases query.len(),
{
    match pair_value(before_char(query, '&'), key) {
        Some(value) => Some(value),
        None => match after_char(query, '&') {
            Some(rest) => {
                proof {
                    lemma_after_char_shorter(query, '&');
                }
                query_param(rest, key)
            },
            None => None,
        },
    }
}

/// The subject (`sub` claim) that an access token's payload carries, or
/// `None` when its payload holds no such claims.
pub uninterp spec fn token_subject(token: Seq<char>) -> Option<Seq<char>>;

/// `QueryExtractor::extract_value`: the value of `key` in the query string
/// `query` (split at `&`, then each pair at `=`; the first pair whose key
/// matches and that has a value), copied out.
#[verifier::external_body]
fn query_value(query: &str, key: &str) -> (value: Option<String>)
    ensures
        match value {
            Some(v) => query_param(query@, key@) == Some(v@),
            None => query_param(query@, key@) is None,
        },
{
    query.extract_value(key).map(|v| v.to_string())
}

/// `Jwt::validate_access_token`: checks an access token and gives the
/// subject of its claims. Whether a token passes depends on the clock (its
/// expiry), so no clause says when it passes; a subject that comes back is
/// the one the token's payload carries.
#[verifier::external_body]
fn validate_access_token(jwt: &service_utils_rs::services::jwt::Jwt, token: &str) -> (subject:
    core::result::Result<String, service_utils_rs::error::Error>)
    ensures
        subject matches Ok(s) ==> token_subject(token@) == Some(s@),
{
    jwt.validate_access_token(token).map(|claims| claims.sub)
}

/// What the server answers a client's WebSocket handshake.
pub enum Admission {
    /// Accept the client, whose token names this subject.
    Admit(String),
    /// Refuse the client with "bad request".
    Refuse,
}

/// The answer to a handshake, from the check of its token: `None` when the
/// request carried no token. Only a token that passed admits the client.
pub fn admission(token_check: Option<core::result::Result<String, service_utils_rs::error::Error>>) -> (answer: Admission)
    ensures
        match token_check {
            Some(Ok(subject)) => answer matches Admission::Admit(s) && s@ == subject@,
            _ => answer is Refuse,
        },
{
    match token_check {
        Some(Ok(subject)) => Admission::Admit(subject),
        _ => Admission::Refuse,
    }
}

/// Decides whether a connecting client may in: the request's query must
/// carry a `token` parameter, and `jwt` must accept that token; the client
/// is then admitted under the token's subject.
pub fn admit_client(jwt: &service_utils_rs::services::jwt::Jwt, query: Option<&str>) -> (answer: Admission)
    ensures
        match query {
            None => answer is Refuse,
            Some(q) => query_param(q@, "token"@) is None ==> answer is Refuse,
        },
        answer matches Admission::Admit(s) ==> (query matches Some(q) && query_param(
            q@,
            "token"@,
        ) matches Some(t) && token_subject(t) == Some(s@)),
{
    match query {
        None => admission(None),
        Some(q) => match query_value(q, "token") {
            None => admission(None),
            Some(token) => admission(Some(validate_access_token(jwt, token.as_str()))),
        },
    }
}

} // verus!
