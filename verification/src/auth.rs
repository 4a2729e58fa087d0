//! Credentials: registration checks, password hashing, login checks and the
//! bearer header. Passwords are hashed with Argon2 and a random salt.
use vstd::prelude::*;
use vstd::string::StringSliceAdditionalSpecFns;
use argon2::Argon2;
use argon2::password_hash::{PasswordHash, PasswordHasher, PasswordVerifier, SaltString};
use crate::domain::password::{
    password_error_text, password_verdict, username_error_text, username_verdict,
    validate_password, validate_username,
};
use crate::errors::{refusal, refused, refused_as, with_cause, AppError, ErrorKind};
use crate::models::{RegisterRequest, UserRow};
use crate::text::text_eq;
use crate::time::{Timestamp, MAX_EPOCH_SECS};

verus! {

#[verifier::external_type_specification]
#[verifier::external_body]
pub struct ExSaltString(SaltString);

#[verifier::external_type_specification]
#[verifier::external_body]
pub struct ExPasswordHash<'a>(PasswordHash<'a>);

/// The PHC string that Argon2 (default parameters) writes for a password
/// and salt.
pub uninterp spec fn argon2_phc_hash(password: Seq<char>, salt: Seq<char>) -> Seq<char>;

/// Whether a text is a well-formed PHC password-hash string.
pub uninterp spec fn phc_parses(phc: Seq<char>) -> bool;

/// Whether `password` matches the stored PHC string under Argon2.
pub uninterp spec fn argon2_verifies(password: Seq<char>, phc: Seq<char>) -> bool;

/// A freshly generated random salt, with its text.
pub struct Salt {
    salt: SaltString,
    text: String,
}

impl View for Salt {
    type V = Seq<char>;

    closed spec fn view(&self) -> Seq<char> {
        self.text@
    }
}

/// A parsed PHC password hash, with the text it was read from.
pub struct StoredHash<'a> {
    hash: PasswordHash<'a>,
    text: &'a str,
}

impl<'a> View for StoredHash<'a> {
    type V = Seq<char>;

    closed spec fn view(&self) -> Seq<char> {
        self.text@
    }
}

/// The value of a character in the standard Base64 alphabet
/// (`A`-`Z`, `a`-`z`, `0`-`9`, `+`, `/`), or -1 for any other character.
pub open spec fn b64_value(c: char) -> int {
    let u = c as u32;
    if 65 <= u <= 90 {
        u - 65
    } else if 97 <= u <= 122 {
        u - 71
    } else if 48 <= u <= 57 {
        u + 4
    } else if u == 43 {
        62
    } else if u == 47 {
        63
    } else {
        -1
    }
}

/// `s` is 16 bytes written in unpadded standard Base64: 22 characters of the
/// alphabet, the last of which carries only two bits.
pub open spec fn b64_of_16_bytes(s: Seq<char>) -> bool {
    &&& s.len() == 22
    &&& forall|i: int| 0 <= i < 22 ==> #[trigger] b64_value(s[i]) >= 0
    &&& b64_value(s[21]) % 16 == 0
}

/// `SaltString::generate` with the thread-local random generator: a new
/// random salt of 16 bytes (the recommended length), written in unpadded
/// standard Base64. Which bytes is not stated: they are random.
#[verifier::external_body]
fn generate_salt() -> (s: Salt)
    ensures
        b64_of_16_bytes(s@),
{
    let salt = SaltString::generate(&mut rand::thread_rng());
    let text = salt.as_str().to_owned();
    Salt { salt, text }
}

/// `Argon2::hash_password` with default parameters, written out as a PHC
/// string. The string reads back as a PHC hash, and the same password
/// verifies against it. The error is the hasher's message. Hashing succeeds
/// for a salt of 16 Base64-written bytes (within Argon2's 8 to 64) and a
/// password of at most `0xFFFF_FFFF` bytes, the only inputs it checks.
#[verifier::external_body]
fn hash_with_salt(password: &str, salt: &Salt) -> (r: Result<String, String>)
    ensures
        b64_of_16_bytes(salt@) && password.spec_bytes().len() <= 0xFFFF_FFFF ==> r is Ok,
        r matches Ok(h) ==> h@ == argon2_phc_hash(password@, salt@),
        r matches Ok(h) ==> phc_parses(h@) && argon2_verifies(password@, h@),
{
    match Argon2::default().hash_password(password.as_bytes(), &salt.salt) {
        Ok(h) => Ok(h.to_string()),
        Err(e) => Err(e.to_string()),
    }
}

/// `PasswordHash::new`: reads a PHC string. The error is the parser's
/// message.
#[verifier::external_body]
fn parse_phc<'a>(phc: &'a str) -> (r: Result<StoredHash<'a>, String>)
    ensures
        r is Ok <==> phc_parses(phc@),
        r matches Ok(h) ==> h@ == phc@,
{
    match PasswordHash::new(phc) {
        Ok(hash) => Ok(StoredHash { hash, text: phc }),
        Err(e) => Err(e.to_string()),
    }
}

/// `Argon2::verify_password` with default settings: whether the password
/// matches the stored hash.
#[verifier::external_body]
fn verify_against(password: &str, stored: &StoredHash) -> (b: bool)
    ensures
        b == argon2_verifies(password@, stored@),
{
    Argon2::default().verify_password(password.as_bytes(), &stored.hash).is_ok()
}

/// Hashes a new password with a fresh random salt. It succeeds for any
/// password of at most `0xFFFF_FFFF` bytes, and the stored string always lets
/// the same password log in.
pub fn hash_new_password(password: &str) -> (r: Result<String, AppError>)
    ensures
        password.spec_bytes().len() <= 0xFFFF_FFFF ==> r is Ok,
        r matches Ok(h) ==> phc_parses(h@) && argon2_verifies(password@, h@),
        r matches Err(e) ==> e.spec_kind() == ErrorKind::Internal,
{
    let salt = generate_salt();
    match hash_with_salt(password, &salt) {
        Ok(h) => Ok(h),
        Err(e) => Err(AppError::Internal(with_cause("パスワードのハッシュ化に失敗しました: ", e.as_str()))),
    }
}

/// Text for a failed login; the same whether the user or the password was
/// wrong, so that the answer does not tell which user names exist.
pub open spec fn bad_login_text() -> Seq<char> {
    "ユーザー名またはパスワードが違います"@
}

/// What checking a password against a stored hash owes: a stored value that
/// is not a PHC string is the server's fault; a mismatch is refused.
pub open spec fn password_check_decision(password: Seq<char>, phc: Seq<char>) -> Result<(), crate::errors::Refusal> {
    if !phc_parses(phc) {
        Err((ErrorKind::Internal, None))
    } else if !argon2_verifies(password, phc) {
        Err(refusal(ErrorKind::Unauthorized, bad_login_text()))
    } else {
        Ok(())
    }
}

/// Checks a login password against the stored hash.
pub fn check_password(password: &str, stored_hash: &str) -> (r: Result<(), AppError>)
    ensures
        match password_check_decision(password@, stored_hash@) {
            Ok(()) => r is Ok,
            Err(d) => refused(r, d),
        },
{
    let stored = match parse_phc(stored_hash) {
        Ok(h) => h,
        Err(e) => return Err(AppError::Internal(with_cause("保存済みハッシュの読み取りに失敗しました: ", e.as_str()))),
    };
    if verify_against(password, &stored) {
        Ok(())
    } else {
        Err(AppError::Unauthorized("ユーザー名またはパスワードが違います".to_owned()))
    }
}

/// Checks a login: the user must exist and the password must match. Answers
/// the user's id.
pub fn check_login(user: Option<&UserRow>, password: &str) -> (r: Result<u128, AppError>)
    ensures
        user is None ==> refused(r, refusal(ErrorKind::Unauthorized, bad_login_text())),
        user matches Some(u) ==> match password_check_decision(password@, u.password_hash@) {
            Ok(()) => r == Ok::<u128, AppError>(u.id),
            Err(d) => refused(r, d),
        },
{
    let u = match user {
        None => return Err(AppError::Unauthorized("ユーザー名またはパスワードが違います".to_owned())),
        Some(u) => u,
    };
    match check_password(password, u.password_hash.as_str()) {
        Ok(()) => Ok(u.id),
        Err(e) => Err(e),
    }
}

/// What a registration request owes before anything is stored: the user
/// name is checked first, then the password, each refusal carrying the
/// rule's own message.
pub open spec fn registration_decision(username: Seq<char>, password: Seq<char>) -> Result<(), crate::errors::Refusal> {
    match username_verdict(username) {
        Err(e) => Err(refusal(ErrorKind::BadRequest, username_error_text(e))),
        Ok(()) => match password_verdict(password, username) {
            Err(e) => Err(refusal(ErrorKind::BadRequest, password_error_text(e))),
            Ok(()) => Ok(()),
        },
    }
}

/// Checks a registration request.
pub fn check_registration(req: &RegisterRequest) -> (r: Result<(), AppError>)
    ensures
        match registration_decision(req.username@, req.password@) {
            Ok(()) => r is Ok,
            Err(d) => refused(r, d),
        },
{
    match validate_username(req.username.as_str()) {
        Err(e) => return Err(AppError::BadRequest(e.detail())),
        Ok(()) => {},
    }
    match validate_password(req.password.as_str(), req.username.as_str()) {
        Err(e) => Err(AppError::BadRequest(e.detail())),
        Ok(()) => Ok(()),
    }
}

/// The refusal when the user name is already taken.
pub fn username_taken() -> (e: AppError)
    ensures
        refused_as(e, refusal(ErrorKind::Conflict, "そのユーザー名は既に使われています"@)),
{
    AppError::Conflict("そのユーザー名は既に使われています".to_owned())
}

/// The prefix of a bearer `Authorization` header.
pub open spec fn bearer_prefix() -> Seq<char> {
    "Bearer "@
}

/// What reading the bearer header owes: the token after `Bearer `, or a
/// refusal saying whether the header was missing or malformed.
pub open spec fn bearer_decision(header: Option<Seq<char>>) -> Result<Seq<char>, crate::errors::Refusal> {
    match header {
        None => Err(refusal(ErrorKind::Unauthorized, "認証トークンがありません"@)),
        Some(h) => if h.len() >= 7 && h.subrange(0, 7) == bearer_prefix() {
            Ok(h.subrange(7, h.len() as int))
        } else {
            Err(
                refusal(
                    ErrorKind::Unauthorized,
                    "Authorizationヘッダーの形式が不正です(Bearer <token>の形式で送ってください)"@,
                ),
            )
        },
    }
}

/// Reads the token out of an `Authorization` header value (`None` when the
/// header is absent or not text).
pub fn extract_bearer(header: Option<&str>) -> (r: Result<&str, AppError>)
    ensures
        match bearer_decision(
            match header {
                Some(h) => Some(h@),
                None => None,
            },
        ) {
            Ok(t) => r matches Ok(tok) && tok@ == t,
            Err(d) => refused(r, d),
        },
{
    proof {
        reveal_strlit("Bearer ");
    }
    let h = match header {
        None => return Err(AppError::Unauthorized("認証トークンがありません".to_owned())),
        Some(h) => h,
    };
    let n = h.unicode_len();
    if n >= 7 && text_eq(h.substring_char(0, 7), "Bearer ") {
        Ok(h.substring_char(7, n))
    } else {
        Err(AppError::Unauthorized("Authorizationヘッダーの形式が不正です(Bearer <token>の形式で送ってください)".to_owned()))
    }
}

/// Seconds a token stays valid.
pub const TOKEN_LIFETIME_SECS: i64 = 86_400;

/// The expiry written into a token issued at `now`: 24 hours later, as
/// seconds since the Unix epoch in the claim's unsigned type.
pub fn token_expiration(now: Timestamp) -> (exp: usize)
    requires
        now.wf(),
        now.secs + TOKEN_LIFETIME_SECS <= MAX_EPOCH_SECS,
    ensures
        exp == (now.secs + TOKEN_LIFETIME_SECS) as usize,
{
    let secs: i64 = now.secs + TOKEN_LIFETIME_SECS;
    secs as usize
}

} // verus!
