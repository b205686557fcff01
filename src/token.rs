use vstd::prelude::*;
use crate::accounts::{AccountId, Session};
use crate::error::ApiError;

verus! {

/// How long an issued token stays valid, in seconds (one day).
pub const TOKEN_LIFETIME_SECS: i64 = 86400;

/// Length of the header that every local token of this library starts with.
pub const TOKEN_HEADER_LEN: usize = 9;

/// Shortest body (after the header) whose decoding holds a full nonce.
pub const MIN_TOKEN_BODY_LEN: usize = 32;

/// Latest instant a token may carry: the last second of the year 9999, the
/// end of the RFC 3339 range that the claims are written in.
pub const MAX_TIMESTAMP: i64 = 253402300799;

/// The claim set sealed into a token.
#[derive(Debug, Clone, Copy, PartialEq, Eq, Structural)]
pub struct Claims {
    pub account_id: i32,
    /// Expiry, in seconds since the Unix epoch.
    pub exp: i64,
    /// Start of validity, in seconds since the Unix epoch.
    pub nbf: i64,
}

/// The plaintext that a version-2 local token decrypts to under a key, or
/// `None` where decryption or authentication fails.
pub uninterp spec fn local_plaintext(token: Seq<char>, key: Seq<u8>) -> Option<Seq<char>>;

/// The integer that a JSON object text holds under a name, where the text
/// parses and the member is an integer that fits in `i64`.
pub uninterp spec fn json_int_member(text: Seq<char>, name: Seq<char>) -> Option<i64>;

/// The instant, in whole seconds since the Unix epoch, that a JSON object
/// text holds under a name as an RFC 3339 string.
pub uninterp spec fn json_time_member(text: Seq<char>, name: Seq<char>) -> Option<i64>;

/// The number of members of a JSON object text, where the text parses as an
/// object.
pub uninterp spec fn json_member_count(text: Seq<char>) -> Option<usize>;

/// Relies on chrono's `Utc::now`: the current time in seconds since the epoch.
#[verifier::external_body]
fn clock_now() -> (r: i64) {
    chrono::Utc::now().timestamp()
}

/// Relies on paseto's `PasetoBuilder` with an encryption key: it writes the
/// claims as one JSON object of exactly the members set (`account_id` as a
/// number, `exp` and `nbf` as chrono's RFC 3339 strings), and seals it with
/// `v2::local_paseto`, which draws a fresh nonce, refuses keys that are not
/// 32 bytes, and returns `v2.local.` followed by unpadded URL-safe base64 of
/// the nonce and ciphertext (at least 40 bytes, so at least 54 characters),
/// which `v2::decrypt_paseto` opens to that text.
#[verifier::external_body]
fn seal_local(key: &[u8], account_id: i32, exp: i64, nbf: i64) -> (r: Option<String>)
    requires
        0 <= exp <= MAX_TIMESTAMP,
        0 <= nbf <= MAX_TIMESTAMP,
    ensures
        r matches Some(t) ==> seals(key@, t@, account_id, exp, nbf),
        key@.len() != 32 ==> r is None,
{
    let exp = chrono::DateTime::<chrono::Utc>::from_timestamp(exp, 0)?;
    let nbf = chrono::DateTime::<chrono::Utc>::from_timestamp(nbf, 0)?;
    paseto::tokens::PasetoBuilder::new()
        .set_encryption_key(key)
        .set_expiration(&exp)
        .set_not_before(&nbf)
        .set_claim("account_id", serde_json::Value::from(account_id))
        .build()
        .ok()
}

/// Relies on paseto's `v2::decrypt_paseto` without a footer: decrypts and
/// authenticates the token. It splits the decoded body at the nonce's
/// length, so it is only handed bodies of at least 32 unpadded URL-safe
/// base64 characters: base64's decoder then either fails or yields at least
/// 24 bytes.
#[verifier::external_body]
fn open_local(token: &str, key: &[u8]) -> (r: Option<String>)
    requires
        is_token_shaped(token@),
    ensures
        match r {
            Some(t) => local_plaintext(token@, key@) == Some(t@),
            None => local_plaintext(token@, key@) is None,
        },
{
    paseto::v2::decrypt_paseto(token, None, key).ok()
}

/// Relies on serde_json's `from_str` and `Value::as_object`: the number of
/// members of the parsed object.
#[verifier::external_body]
fn member_count(text: &str) -> (r: Option<usize>)
    ensures
        r == json_member_count(text@),
{
    Some(serde_json::from_str::<serde_json::Value>(text).ok()?.as_object()?.len())
}

/// Relies on serde_json's `from_str`, `Value::get` and `Value::as_i64`.
#[verifier::external_body]
fn int_member(text: &str, name: &str) -> (r: Option<i64>)
    ensures
        r == json_int_member(text@, name@),
{
    serde_json::from_str::<serde_json::Value>(text).ok()?.get(name)?.as_i64()
}

/// Relies on serde_json's `from_str`, `Value::get`, `Value::as_str` and on
/// chrono's RFC 3339 parsing of `DateTime<Utc>`.
#[verifier::external_body]
fn time_member(text: &str, name: &str) -> (r: Option<i64>)
    ensures
        r == json_time_member(text@, name@),
{
    let value = serde_json::from_str::<serde_json::Value>(text).ok()?;
    let instant = value.get(name)?.as_str()?.parse::<chrono::DateTime<chrono::Utc>>().ok()?;
    Some(instant.timestamp())
}

/// The header of a version-2 local token.
pub open spec fn token_header() -> Seq<char> {
    seq!['v', '2', '.', 'l', 'o', 'c', 'a', 'l', '.']
}

/// A character of the URL-safe base64 alphabet (`A-Z a-z 0-9 - _`).
pub open spec fn is_url_safe_char(c: char) -> bool {
    ('A' <= c <= 'Z') || ('a' <= c <= 'z') || ('0' <= c <= '9') || c == '-' || c == '_'
}

/// A token of the shape this library issues: the header, then a body of
/// unpadded URL-safe base64 (so no footer and no `=`) long enough to carry
/// a nonce.
pub open spec fn is_token_shaped(t: Seq<char>) -> bool {
    &&& t.len() >= TOKEN_HEADER_LEN + MIN_TOKEN_BODY_LEN
    &&& t.subrange(0, TOKEN_HEADER_LEN as int) == token_header()
    &&& forall|i: int| TOKEN_HEADER_LEN <= i < t.len() ==> is_url_safe_char(#[trigger] t[i])
}

/// A token that decrypts under the key to a claim object of exactly three
/// members: this account id and these two instants.
pub open spec fn seals(key: Seq<u8>, token: Seq<char>, account_id: i32, exp: i64, nbf: i64) -> bool {
    &&& is_token_shaped(token)
    &&& local_plaintext(token, key) matches Some(text) && {
        &&& json_member_count(text) == Some(3usize)
        &&& json_int_member(text, "account_id"@) == Some(account_id as i64)
        &&& json_time_member(text, "exp"@) == Some(exp)
        &&& json_time_member(text, "nbf"@) == Some(nbf)
    }
}

/// A token issued for an account at `now`: it seals the claims of that
/// account, valid from `now` for one day.
pub open spec fn issued_for(key: Seq<u8>, token: Seq<char>, account_id: AccountId, now: i64) -> bool {
    claims_spec(account_id, now) matches Some(c) && seals(key, token, c.account_id, c.exp, c.nbf)
}

/// The claims of a token issued at `now` for an account, where `now` lies
/// between the epoch and one day before `MAX_TIMESTAMP`.
pub open spec fn claims_spec(account_id: AccountId, now: i64) -> Option<Claims> {
    if 0 <= now <= MAX_TIMESTAMP - TOKEN_LIFETIME_SECS {
        Some(Claims { account_id: account_id.0, exp: (now + TOKEN_LIFETIME_SECS) as i64, nbf: now })
    } else {
        None
    }
}

/// What a claim set read from a token yields at time `now`.
pub open spec fn claims_outcome(
    account_id: Option<i64>,
    exp: Option<i64>,
    nbf: Option<i64>,
    now: i64,
) -> Result<Session, ApiError> {
    match (account_id, exp, nbf) {
        (Some(a), Some(e), Some(n)) => {
            if a < i32::MIN || a > i32::MAX {
                Err(ApiError::CannotDecryptToken)
            } else if now > e || now < n {
                Err(ApiError::TokenExpired)
            } else {
                Ok(Session { exp: e, account_id: AccountId(a as i32) })
            }
        },
        _ => Err(ApiError::CannotDecryptToken),
    }
}

/// What validating a token under a key yields at time `now`.
pub open spec fn token_outcome(key: Seq<u8>, token: Seq<char>, now: i64) -> Result<Session, ApiError> {
    if !is_token_shaped(token) {
        Err(ApiError::CannotDecryptToken)
    } else {
        match local_plaintext(token, key) {
            None => Err(ApiError::CannotDecryptToken),
            Some(text) => if json_member_count(text) != Some(3usize) {
                Err(ApiError::CannotDecryptToken)
            } else {
                claims_outcome(
                    json_int_member(text, "account_id"@),
                    json_time_member(text, "exp"@),
                    json_time_member(text, "nbf"@),
                    now,
                )
            },
        }
    }
}

/// The claims of a token issued at `now`: valid from `now` for one day.
pub fn token_claims(account_id: AccountId, now: i64) -> (r: Option<Claims>)
    ensures
        r == claims_spec(account_id, now),
{
    if 0 <= now && now <= MAX_TIMESTAMP - TOKEN_LIFETIME_SECS {
        Some(Claims { account_id: account_id.0, exp: now + TOKEN_LIFETIME_SECS, nbf: now })
    } else {
        None
    }
}

/// Issues a token for an account as of `now`; fails where the claims cannot
/// be formed or sealed.
pub fn issue_token_at(key: &[u8], account_id: AccountId, now: i64) -> (r: Result<String, ApiError>)
    ensures
        claims_spec(account_id, now) is None || key@.len() != 32 ==> r == Err::<String, ApiError>(
            ApiError::CannotIssueToken,
        ),
        r is Err ==> r == Err::<String, ApiError>(ApiError::CannotIssueToken),
        r matches Ok(t) ==> issued_for(key@, t@, account_id, now),
{
    match token_claims(account_id, now) {
        None => Err(ApiError::CannotIssueToken),
        Some(claims) => match seal_local(key, claims.account_id, claims.exp, claims.nbf) {
            Some(t) => Ok(t),
            None => Err(ApiError::CannotIssueToken),
        },
    }
}

/// Issues a token for an account, valid from now for one day.
pub fn issue_token(key: &[u8], account_id: AccountId) -> (r: Result<String, ApiError>)
    ensures
        key@.len() != 32 ==> r == Err::<String, ApiError>(ApiError::CannotIssueToken),
        r is Err ==> r == Err::<String, ApiError>(ApiError::CannotIssueToken),
        r matches Ok(t) ==> exists|now: i64| issued_for(key@, t@, account_id, now),
{
    let now = clock_now();
    issue_token_at(key, account_id, now)
}

/// Whether a string has the shape of a token this library issues.
pub fn token_shaped(token: &str) -> (r: bool)
    ensures
        r == is_token_shaped(token@),
{
    let n = token.unicode_len();
    if n < TOKEN_HEADER_LEN + MIN_TOKEN_BODY_LEN {
        return false;
    }
    let header: [char; 9] = ['v', '2', '.', 'l', 'o', 'c', 'a', 'l', '.'];
    let mut i: usize = 0;
    while i < TOKEN_HEADER_LEN
        invariant
            n == token@.len(),
            n >= TOKEN_HEADER_LEN,
            header@ == token_header(),
            i <= TOKEN_HEADER_LEN,
            forall|j: int| 0 <= j < i ==> token@[j] == token_header()[j],
        decreases TOKEN_HEADER_LEN - i,
    {
        if token.get_char(i) != header[i] {
            assert(token@.subrange(0, TOKEN_HEADER_LEN as int)[i as int] != token_header()[i as int]);
            return false;
        }
        i = i + 1;
    }
    assert(token@.subrange(0, TOKEN_HEADER_LEN as int) =~= token_header());
    while i < n
        invariant
            n == token@.len(),
            TOKEN_HEADER_LEN <= i <= n,
            forall|j: int| TOKEN_HEADER_LEN <= j < i ==> is_url_safe_char(#[trigger] token@[j]),
        decreases n - i,
    {
        let c = token.get_char(i);
        if !(('A' <= c && c <= 'Z') || ('a' <= c && c <= 'z') || ('0' <= c && c <= '9') || c == '-'
            || c == '_') {
            return false;
        }
        i = i + 1;
    }
    true
}

/// Reads the session out of a claim set at time `now`: all three claims must
/// be present, the account id must fit in `i32`, and `now` must lie within
/// `[nbf, exp]`.
pub fn session_from_claims(
    account_id: Option<i64>,
    exp: Option<i64>,
    nbf: Option<i64>,
    now: i64,
) -> (r: Result<Session, ApiError>)
    ensures
        r == claims_outcome(account_id, exp, nbf, now),
{
    match (account_id, exp, nbf) {
        (Some(a), Some(e), Some(n)) => {
            if a < i32::MIN as i64 || a > i32::MAX as i64 {
                Err(ApiError::CannotDecryptToken)
            } else if now > e || now < n {
                Err(ApiError::TokenExpired)
            } else {
                Ok(Session { exp: e, account_id: AccountId(a as i32) })
            }
        },
        _ => Err(ApiError::CannotDecryptToken),
    }
}

/// Validates a token under a key at time `now`.
pub fn verify_token_at(key: &[u8], token: &str, now: i64) -> (r: Result<Session, ApiError>)
    ensures
        r == token_outcome(key@, token@, now),
{
    if !token_shaped(token) {
        return Err(ApiError::CannotDecryptToken);
    }
    match open_local(token, key) {
        None => Err(ApiError::CannotDecryptToken),
        Some(text) => {
            match member_count(text.as_str()) {
                Some(3) => {},
                _ => { return Err(ApiError::CannotDecryptToken); },
            }
            let account_id = int_member(text.as_str(), "account_id");
            let exp = time_member(text.as_str(), "exp");
            let nbf = time_member(text.as_str(), "nbf");
            session_from_claims(account_id, exp, nbf, now)
        },
    }
}

/// Validates a token under a key at the current time.
pub fn verify_token(key: &[u8], token: String) -> (r: Result<Session, ApiError>)
    ensures
        exists|now: i64| r == token_outcome(key@, token@, now),
{
    let now = clock_now();
    verify_token_at(key, token.as_str(), now)
}

} // verus!

verus! {

/// The session that an `Authorization` header value establishes at `now`: a
/// missing header and every validation failure are alike rejected (`None`).
pub open spec fn auth_outcome(key: Seq<u8>, header: Option<Seq<char>>, now: i64) -> Option<Session> {
    match header {
        None => None,
        Some(h) => match token_outcome(key, h, now) {
            Ok(s) => Some(s),
            Err(_) => None,
        },
    }
}

/// The characters of a header value, where one is present.
pub open spec fn header_view(header: Option<&str>) -> Option<Seq<char>> {
    match header {
        None => None,
        Some(h) => Some(h@),
    }
}

/// Authenticates a request by its `Authorization` header value at `now`.
pub fn auth_at(key: &[u8], header: Option<&str>, now: i64) -> (r: Option<Session>)
    ensures
        r == auth_outcome(key@, header_view(header), now),
{
    match header {
        None => None,
        Some(h) => match verify_token_at(key, h, now) {
            Ok(s) => Some(s),
            Err(_) => None,
        },
    }
}

/// Authenticates a request by its `Authorization` header value at the
/// current time.
pub fn auth(key: &[u8], header: Option<&str>) -> (r: Option<Session>)
    ensures
        exists|now: i64| r == auth_outcome(key@, header_view(header), now),
{
    let now = clock_now();
    auth_at(key, header, now)
}

/// A token issued for an account validates, at every instant of the day
/// that follows its issue, to a session of that same account expiring one
/// day after issue.
pub proof fn lemma_issued_token_validates(key: Seq<u8>, token: Seq<char>, account_id: AccountId, issued: i64, now: i64)
    requires
        issued_for(key, token, account_id, issued),
        issued <= now <= issued + TOKEN_LIFETIME_SECS,
    ensures
        token_outcome(key, token, now) == Ok::<Session, ApiError>(
            Session { exp: (issued + TOKEN_LIFETIME_SECS) as i64, account_id },
        ),
{
}

/// A token issued for an account is rejected as expired, not as malformed,
/// before its issue and after its day of validity.
pub proof fn lemma_issued_token_expires(key: Seq<u8>, token: Seq<char>, account_id: AccountId, issued: i64, now: i64)
    requires
        issued_for(key, token, account_id, issued),
        now < issued || now > issued + TOKEN_LIFETIME_SECS,
    ensures
        token_outcome(key, token, now) == Err::<Session, ApiError>(ApiError::TokenExpired),
{
}

/// Presenting a token issued for an account, within its day of validity,
/// authenticates the request as that account.
pub proof fn lemma_issued_token_authenticates(
    key: Seq<u8>,
    token: Seq<char>,
    account_id: AccountId,
    issued: i64,
    now: i64,
)
    requires
        issued_for(key, token, account_id, issued),
        issued <= now <= issued + TOKEN_LIFETIME_SECS,
    ensures
        auth_outcome(key, Some(token), now) == Some(
            Session { exp: (issued + TOKEN_LIFETIME_SECS) as i64, account_id },
        ),
{
    lemma_issued_token_validates(key, token, account_id, issued, now);
}

/// A token whose claims are well-formed but whose expiry lies before `now` is
/// rejected as expired, never as undecryptable or malformed.
pub proof fn lemma_expired_token_rejected(key: Seq<u8>, token: Seq<char>, text: Seq<char>, now: i64)
    requires
        is_token_shaped(token),
        local_plaintext(token, key) == Some(text),
        json_int_member(text, "account_id"@) matches Some(a) && i32::MIN <= a <= i32::MAX,
        json_time_member(text, "exp"@) matches Some(e) && e < now,
        json_time_member(text, "nbf"@) is Some,
        json_member_count(text) == Some(3usize),
    ensures
        token_outcome(key, token, now) == Err::<Session, ApiError>(ApiError::TokenExpired),
{
}

/// A token that is not of the issued shape, or that does not decrypt and
/// authenticate under the key, never yields a session.
pub proof fn lemma_unauthentic_token_rejected(key: Seq<u8>, token: Seq<char>, now: i64)
    requires
        !is_token_shaped(token) || local_plaintext(token, key) is None,
    ensures
        token_outcome(key, token, now) == Err::<Session, ApiError>(ApiError::CannotDecryptToken),
{
}

} // verus!
