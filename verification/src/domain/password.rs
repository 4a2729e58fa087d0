//! Password and user-name rules.
//!
//! Strength rests on length, not on required character classes: forcing
//! classes steers people to `Password1!`-style secrets that are hard to
//! remember and easy to guess. Long pass phrases are welcome; the most common
//! passwords are refused. Length counts characters, not bytes.
use vstd::prelude::*;
use crate::text::{
    ascii_lowercase, contains, contains_text, is_ascii_text, to_lowercase, trim, trimmed, unicode_lowercase, text_eq,
};

verus! {

/// Fewest characters a password may have.
pub const MIN_PASSWORD_CHARS: usize = 12;

/// Most characters a password may have; without a cap, a huge input would
/// tie up the password hash.
pub const MAX_PASSWORD_CHARS: usize = 128;

/// Most characters a user name may have, once trimmed.
pub const MAX_USERNAME_CHARS: usize = 32;

/// Why a password was refused.
#[derive(Debug, PartialEq, Eq, Clone, Copy)]
pub enum PasswordError {
    TooShort,
    TooLong,
    TooCommon,
    ContainsUsername,
}

/// Why a user name was refused.
#[derive(Debug, PartialEq, Eq, Clone, Copy)]
pub enum UsernameError {
    Empty,
    TooLong,
}

/// The refused list: widely known passwords, compared after lowercasing.
pub open spec fn common_passwords() -> Seq<Seq<char>> {
    seq![
        "password"@,
        "password1"@,
        "password12"@,
        "password123"@,
        "password1234"@,
        "passw0rd"@,
        "12345678"@,
        "123456789"@,
        "1234567890"@,
        "123456789012"@,
        "qwertyuiop"@,
        "qwerty123"@,
        "qwertyuiop123"@,
        "adminadmin"@,
        "administrator"@,
        "letmein123"@,
        "welcome123"@,
        "iloveyou123"@,
        "abc123456789"@,
        "aaaaaaaaaaaa"@,
        "111111111111"@,
        "correcthorsebatterystaple"@,
    ]
}

fn common_password_list() -> (v: Vec<&'static str>)
    ensures
        v@.len() == common_passwords().len(),
        forall|i: int| 0 <= i < v@.len() ==> #[trigger] v@[i]@ == common_passwords()[i],
{
    vec![
        "password",
        "password1",
        "password12",
        "password123",
        "password1234",
        "passw0rd",
        "12345678",
        "123456789",
        "1234567890",
        "123456789012",
        "qwertyuiop",
        "qwerty123",
        "qwertyuiop123",
        "adminadmin",
        "administrator",
        "letmein123",
        "welcome123",
        "iloveyou123",
        "abc123456789",
        "aaaaaaaaaaaa",
        "111111111111",
        "correcthorsebatterystaple",
    ]
}

/// Whether an already-lowercased password is on the refused list.
fn is_common(lower: &str) -> (r: bool)
    ensures
        r == common_passwords().contains(lower@),
{
    let list = common_password_list();
    let mut i: usize = 0;
    while i < list.len()
        invariant
            i <= list@.len(),
            list@.len() == common_passwords().len(),
            forall|k: int| 0 <= k < list@.len() ==> #[trigger] list@[k]@ == common_passwords()[k],
            forall|k: int| 0 <= k < i ==> common_passwords()[k] != lower@,
        decreases list@.len() - i,
    {
        if text_eq(list[i], lower) {
            assert(common_passwords()[i as int] == lower@);
            return true;
        }
        i = i + 1;
    }
    false
}

/// The answer that password validation owes for a password and user name.
pub open spec fn password_verdict(password: Seq<char>, username: Seq<char>) -> Result<(), PasswordError> {
    let lower = unicode_lowercase(password);
    let name = unicode_lowercase(trimmed(username));
    if password.len() < MIN_PASSWORD_CHARS {
        Err(PasswordError::TooShort)
    } else if password.len() > MAX_PASSWORD_CHARS {
        Err(PasswordError::TooLong)
    } else if common_passwords().contains(lower) {
        Err(PasswordError::TooCommon)
    } else if name.len() > 0 && contains_text(lower, name) {
        Err(PasswordError::ContainsUsername)
    } else {
        Ok(())
    }
}

/// The answer that user-name validation owes.
pub open spec fn username_verdict(username: Seq<char>) -> Result<(), UsernameError> {
    let t = trimmed(username);
    if t.len() == 0 {
        Err(UsernameError::Empty)
    } else if t.len() > MAX_USERNAME_CHARS {
        Err(UsernameError::TooLong)
    } else {
        Ok(())
    }
}

/// Checks a new password. Length is checked first (a short common password
/// is reported as too short), then the refused list (case-insensitively),
/// then whether it contains the trimmed user name (case-insensitively).
pub fn validate_password(password: &str, username: &str) -> (r: Result<(), PasswordError>)
    ensures
        r == password_verdict(password@, username@),
        is_ascii_text(password@) && MIN_PASSWORD_CHARS <= password@.len() <= MAX_PASSWORD_CHARS
            && common_passwords().contains(ascii_lowercase(password@)) ==> r == Err::<(), PasswordError>(
            PasswordError::TooCommon,
        ),
{
    let char_count = password.unicode_len();
    if char_count < MIN_PASSWORD_CHARS {
        return Err(PasswordError::TooShort);
    }
    if char_count > MAX_PASSWORD_CHARS {
        return Err(PasswordError::TooLong);
    }
    let lower = to_lowercase(password);
    if is_common(lower.as_str()) {
        return Err(PasswordError::TooCommon);
    }
    let username_lower = to_lowercase(trim(username));
    if username_lower.as_str().unicode_len() > 0 && contains(lower.as_str(), username_lower.as_str()) {
        return Err(PasswordError::ContainsUsername);
    }
    Ok(())
}

/// Checks a user name: it must have something besides white space, and at
/// most `MAX_USERNAME_CHARS` characters once trimmed.
pub fn validate_username(username: &str) -> (r: Result<(), UsernameError>)
    ensures
        r == username_verdict(username@),
{
    let t = trim(username);
    let n = t.unicode_len();
    if n == 0 {
        return Err(UsernameError::Empty);
    }
    if n > MAX_USERNAME_CHARS {
        return Err(UsernameError::TooLong);
    }
    Ok(())
}

/// Text shown for a refused password: why, and what to do instead.
pub open spec fn password_error_text(e: PasswordError) -> Seq<char> {
    match e {
        PasswordError::TooShort => "パスワードは12文字以上にしてください。記号や数字は必須ではないので、覚えやすい文の組み合わせでも構いません"@,
        PasswordError::TooLong => "パスワードは128文字以内にしてください"@,
        PasswordError::TooCommon => "そのパスワードは広く知られており、推測されやすいため使用できません"@,
        PasswordError::ContainsUsername => "パスワードにユーザー名を含めないでください"@,
    }
}

/// Text shown for a refused user name.
pub open spec fn username_error_text(e: UsernameError) -> Seq<char> {
    match e {
        UsernameError::Empty => "ユーザー名を入力してください"@,
        UsernameError::TooLong => "ユーザー名は32文字以内にしてください"@,
    }
}

impl PasswordError {
    /// The message for the user: why the password was refused and how to fix it.
    pub fn detail(&self) -> (r: String)
        ensures
            r@ == password_error_text(*self),
    {
        match self {
            PasswordError::TooShort => "パスワードは12文字以上にしてください。記号や数字は必須ではないので、覚えやすい文の組み合わせでも構いません".to_owned(),
            PasswordError::TooLong => "パスワードは128文字以内にしてください".to_owned(),
            PasswordError::TooCommon => "そのパスワードは広く知られており、推測されやすいため使用できません".to_owned(),
            PasswordError::ContainsUsername => "パスワードにユーザー名を含めないでください".to_owned(),
        }
    }
}

impl UsernameError {
    /// The message for the user.
    pub fn detail(&self) -> (r: String)
        ensures
            r@ == username_error_text(*self),
    {
        match self {
            UsernameError::Empty => "ユーザー名を入力してください".to_owned(),
            UsernameError::TooLong => "ユーザー名は32文字以内にしてください".to_owned(),
        }
    }
}

} // verus!
