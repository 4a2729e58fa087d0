//! Bearer tokens: HS256 JSON Web Tokens whose claims are the user's id
//! (`sub`, the id's hyphenated text) and an expiry (`exp`, seconds since the
//! Unix epoch). Signing and checking are done by `jsonwebtoken`; the claims
//! are handed over as a JSON object, so no type of this crate is serialised.
use vstd::prelude::*;
use vstd::arithmetic::power2::pow2;
use crate::auth::{token_expiration, TOKEN_LIFETIME_SECS};
use crate::errors::{refusal, refused, with_cause, AppError, ErrorKind, Refusal};
use crate::time::{Timestamp, MAX_EPOCH_SECS};

verus! {

/// The lowercase hexadecimal digit for `n` in 0..16.
pub open spec fn hex_digit(n: int) -> char {
    if n < 10 {
        (48 + n) as char
    } else {
        (87 + n) as char
    }
}

/// The `k`-th of the 32 hexadecimal digits of `id`, counted from the most
/// significant.
pub open spec fn uuid_nibble(id: u128, k: int) -> int {
    (id as int / pow2((4 * (31 - k)) as nat) as int) % 16
}

/// The text `uuid::Uuid` writes for an id (`Uuid::from_u128` takes the id's
/// big-endian bytes): its 32 lowercase hexadecimal digits, most significant
/// first, in groups of 8, 4, 4, 4 and 12 joined by hyphens.
pub open spec fn uuid_hyphenated(id: u128) -> Seq<char> {
    Seq::new(
        36,
        |p: int|
            if p == 8 || p == 13 || p == 18 || p == 23 {
                '-'
            } else {
                let k = if p < 8 {
                    p
                } else if p < 13 {
                    p - 1
                } else if p < 18 {
                    p - 2
                } else if p < 23 {
                    p - 3
                } else {
                    p - 4
                };
                hex_digit(uuid_nibble(id, k))
            },
    )
}

/// The id that `uuid::Uuid::parse_str` reads from a text, if it reads one.
pub uninterp spec fn uuid_parsed(text: Seq<char>) -> Option<u128>;

/// The token `jsonwebtoken::encode` writes with the default header (HS256)
/// for the claims `{"sub": sub, "exp": exp}` under the key `secret`.
pub uninterp spec fn hs256_token(sub: Seq<char>, exp: usize, secret: Seq<char>) -> Seq<char>;

/// Whether `token` carries a valid HS256 signature under the key `secret`,
/// as `jsonwebtoken` checks it: the text after the last dot is the base64url
/// HMAC-SHA256, keyed by `secret`, of the text before it, and the header
/// part of that text decodes to a header naming HS256.
pub uninterp spec fn hs256_signed(token: Seq<char>, secret: Seq<char>) -> bool;

/// The `sub` claim in the payload of a token, as `jsonwebtoken::decode`
/// reads it into a JSON object: `Some` of its text when it is a JSON string,
/// `None` when it is missing or not a string.
pub uninterp spec fn jwt_payload_sub(token: Seq<char>) -> Option<Seq<char>>;

/// `Uuid::from_u128(id).to_string()`: the id's hyphenated text, which
/// `Uuid::parse_str` reads back as the same id.
#[verifier::external_body]
fn uuid_text(id: u128) -> (s: String)
    ensures
        s@ == uuid_hyphenated(id),
        uuid_parsed(s@) == Some(id),
{
    uuid::Uuid::from_u128(id).to_string()
}

/// `Uuid::parse_str`: the id written in a text, `None` where the text is not
/// a UUID.
#[verifier::external_body]
fn parse_uuid(text: &str) -> (r: Option<u128>)
    ensures
        r == uuid_parsed(text@),
{
    uuid::Uuid::parse_str(text).ok().map(|u| u.as_u128())
}

/// `jsonwebtoken::encode` with the default header and an HMAC key made from
/// `secret`, on the claims object `{"sub": sub, "exp": exp}` (keys in that
/// order: the map orders its keys in reverse, so `sub` comes before `exp`).
/// It succeeds: the key's family (HMAC) is the header's (HS256), an HMAC key
/// may have any length, and the header and a JSON object always serialise.
/// The token is the one named by `hs256_token`, it is signed under `secret`,
/// and its payload carries `sub`.
#[verifier::external_body]
fn encode_token(sub: &str, exp: usize, secret: &str) -> (r: Result<String, String>)
    ensures
        r is Ok,
        r matches Ok(t) ==> t@ == hs256_token(sub@, exp, secret@),
        r matches Ok(t) ==> hs256_signed(t@, secret@),
        r matches Ok(t) ==> jwt_payload_sub(t@) == Some(sub@),
{
    let mut claims = std::collections::BTreeMap::new();
    claims.insert(std::cmp::Reverse("sub"), serde_json::Value::String(sub.to_owned()));
    claims.insert(std::cmp::Reverse("exp"), serde_json::Value::from(exp));
    let key = jsonwebtoken::EncodingKey::from_secret(secret.as_bytes());
    jsonwebtoken::encode(&jsonwebtoken::Header::default(), &claims, &key).map_err(|e| e.to_string())
}

/// `jsonwebtoken::decode` with an HMAC key made from `secret` and the default
/// validation (HS256 signature, `exp` required and not past, read from the
/// system clock), answering the `sub` claim when it is a string (`None` when
/// it is missing or not a string), or the crate's message. The signature is
/// checked before anything that reads the clock: a token not signed under
/// `secret` is refused, and an accepted one is signed under it. Whether a
/// signed token is accepted is not stated, since the expiry depends on the
/// clock; when it is, the subject answered is the one in its payload.
#[verifier::external_body]
fn decode_token_subject(token: &str, secret: &str) -> (r: Result<Option<String>, String>)
    ensures
        r is Ok ==> hs256_signed(token@, secret@),
        !hs256_signed(token@, secret@) ==> r is Err,
        r matches Ok(sub) ==> match sub {
            Some(t) => jwt_payload_sub(token@) == Some(t@),
            None => jwt_payload_sub(token@) is None,
        },
{
    let key = jsonwebtoken::DecodingKey::from_secret(secret.as_bytes());
    jsonwebtoken::decode::<serde_json::Map<String, serde_json::Value>>(
        token,
        &key,
        &jsonwebtoken::Validation::default(),
    ).map(|data| data.claims.get("sub").and_then(|v| v.as_str()).map(|s| s.to_owned())).map_err(
        |e| e.to_string(),
    )
}

/// The prefix of every refused token's message.
pub open spec fn invalid_token_prefix() -> Seq<char> {
    "トークンが無効です: "@
}

/// Issues the token of `user_id` at `now`: valid for 24 hours, with the
/// user's id as its subject. Signing always succeeds.
pub fn issue_token(user_id: u128, now: Timestamp, jwt_secret: &str) -> (r: Result<String, AppError>)
    requires
        now.wf(),
        now.secs + TOKEN_LIFETIME_SECS <= MAX_EPOCH_SECS,
    ensures
        r is Ok,
        r matches Ok(t) ==> t@ == hs256_token(
            uuid_hyphenated(user_id),
            (now.secs + TOKEN_LIFETIME_SECS) as usize,
            jwt_secret@,
        ),
        r matches Ok(t) ==> hs256_signed(t@, jwt_secret@),
        r matches Ok(t) ==> jwt_payload_sub(t@) == Some(uuid_hyphenated(user_id)),
        uuid_parsed(uuid_hyphenated(user_id)) == Some(user_id),
{
    let exp = token_expiration(now);
    let sub = uuid_text(user_id);
    match encode_token(sub.as_str(), exp, jwt_secret) {
        Ok(t) => Ok(t),
        Err(m) => Err(AppError::Internal(with_cause("トークン発行に失敗しました: ", m.as_str()))),
    }
}

/// The answer for a decoded token: its user, or the refusal quoting why the
/// token was not accepted.
pub fn token_subject(decoded: Result<u128, String>) -> (r: Result<u128, AppError>)
    ensures
        decoded matches Ok(s) ==> r == Ok::<u128, AppError>(s),
        decoded matches Err(m) ==> refused(r, refusal(ErrorKind::Unauthorized, invalid_token_prefix() + m@)),
{
    match decoded {
        Ok(s) => Ok(s),
        Err(m) => Err(AppError::Unauthorized(with_cause("トークンが無効です: ", m.as_str()))),
    }
}

/// What the decoder's outcome (the subject text, or why the token was not
/// accepted) is answered with: the user whose id the subject is, or a
/// refusal quoting the reason.
pub open spec fn token_answer_decision(decoded: Result<Option<Seq<char>>, Seq<char>>) -> Result<u128, Refusal> {
    match decoded {
        Err(m) => Err(refusal(ErrorKind::Unauthorized, invalid_token_prefix() + m)),
        Ok(None) => Err(refusal(ErrorKind::Unauthorized, invalid_token_prefix() + "missing field `sub`"@)),
        Ok(Some(s)) => match uuid_parsed(s) {
            Some(id) => Ok(id),
            None => Err(refusal(ErrorKind::Unauthorized, invalid_token_prefix() + "invalid subject"@)),
        },
    }
}

/// The decoder's outcome as plain text values.
pub open spec fn decoded_text(decoded: Result<Option<String>, String>) -> Result<Option<Seq<char>>, Seq<char>> {
    match decoded {
        Err(m) => Err(m@),
        Ok(None) => Ok(None),
        Ok(Some(s)) => Ok(Some(s@)),
    }
}

/// Answers a decoded token: the user named by its subject, or the refusal.
pub fn token_answer(decoded: Result<Option<String>, String>) -> (r: Result<u128, AppError>)
    ensures
        match token_answer_decision(decoded_text(decoded)) {
            Ok(id) => r == Ok::<u128, AppError>(id),
            Err(d) => refused(r, d),
        },
{
    proof {
        reveal_strlit("missing field `sub`");
        reveal_strlit("invalid subject");
    }
    let subject: Result<u128, String> = match decoded {
        Err(m) => Err(m),
        Ok(None) => Err("missing field `sub`".to_owned()),
        Ok(Some(s)) => match parse_uuid(s.as_str()) {
            Some(id) => Ok(id),
            None => Err("invalid subject".to_owned()),
        },
    };
    token_subject(subject)
}

/// Checks a token and answers the user it was issued to: the id written as
/// the subject of its payload. A token that does not check out, has
/// expired, or whose subject is not a user id is refused as unauthorized,
/// quoting the reason.
pub fn verify_token(token: &str, jwt_secret: &str) -> (r: Result<u128, AppError>)
    ensures
        r is Ok ==> hs256_signed(token@, jwt_secret@),
        !hs256_signed(token@, jwt_secret@) ==> r is Err,
        r matches Ok(id) ==> jwt_payload_sub(token@) matches Some(s) && uuid_parsed(s) == Some(id),
        r matches Err(e) ==> e.spec_kind() == ErrorKind::Unauthorized && e.spec_message().len()
            >= invalid_token_prefix().len() && e.spec_message().subrange(
            0,
            invalid_token_prefix().len() as int,
        ) == invalid_token_prefix(),
{
    let decoded = decode_token_subject(token, jwt_secret);
    let r = token_answer(decoded);
    proof {
        if let Err(e) = &r {
            assert(e.spec_message().subrange(0, invalid_token_prefix().len() as int)
                =~= invalid_token_prefix());
        }
    }
    r
}

} // verus!
