//! Basic authentication against one fixed pair of user name and password.

use vstd::prelude::*;
use vstd::utf8::*;
use crate::backend::{build_cookie_session, build_session_config};
use crate::checksum::hash_password;
use crate::text::{byte_len, byte_length, to_chars};

verus! {

/// An error that is nothing but its message.
#[derive(Debug)]
pub struct StringError(pub String);

/// The user name and the password that a request has to present.
pub struct AuthChecker {
    username: String,
    password: String,
}

/// An [`AuthChecker`] with its texts as sequences of characters.
pub struct AuthCheckerView {
    pub username: Seq<char>,
    pub password: Seq<char>,
}

impl View for AuthChecker {
    type V = AuthCheckerView;

    closed spec fn view(&self) -> AuthCheckerView {
        AuthCheckerView { username: self.username@, password: self.password@ }
    }
}

/// The credentials that a request presents in its `Authorization` header.
pub struct BasicCredentials {
    pub username: String,
    pub password: Option<String>,
}

/// What the checker decides for a request.
#[derive(Clone, Copy, Debug, PartialEq, Eq, Structural)]
pub enum AuthOutcome {
    /// The request may pass.
    Granted,
    /// The credentials are not the expected ones: `401`, "Wrong username or password."
    WrongCredentials,
    /// The request presents no credentials: `401` with a challenge for the realm `main`.
    MissingCredentials,
}

/// The position of the first colon in `s`, or the length of `s` where it has none.
pub open spec fn colon_index(s: Seq<char>) -> int
    decreases s.len(),
{
    if s.len() == 0 || s[0] == ':' {
        0
    } else {
        1 + colon_index(s.drop_first())
    }
}

/// The user name and the password in `user:password`, split at the first colon.
pub open spec fn split_credentials(s: Seq<char>) -> Option<(Seq<char>, Seq<char>)> {
    if colon_index(s) < s.len() {
        Some((s.take(colon_index(s)), s.skip(colon_index(s) + 1)))
    } else {
        None
    }
}

/// Tells whether `s` is `user:password` with a user name of 3 to 50 bytes and a password of 6
/// to 100 bytes.
pub open spec fn credentials_valid(s: Seq<char>) -> bool {
    match split_credentials(s) {
        Some((username, password)) => 3 <= byte_len(username) <= 50 && 6 <= byte_len(password)
            <= 100,
        None => false,
    }
}

/// The table name of the session that belongs to `s`: the user name and the password of
/// `user:password`, or all of `s` as the user name where it has no colon.
pub open spec fn session_table_name(s: Seq<char>) -> Seq<char> {
    match split_credentials(s) {
        Some((username, password)) => "session_username="@ + username + "_password="@ + password,
        None => "session_username="@ + s + "_password="@,
    }
}

/// The value of the session cookie for a user.
pub open spec fn session_value(username: Seq<char>, password: Option<Seq<char>>) -> Seq<char> {
    match password {
        Some(p) => "session_"@ + username + "_"@ + p,
        None => "session_"@ + username + "_"@,
    }
}

/// The 64 bytes of key material that `value` gives: its first 64 bytes, filled up with zeros.
pub open spec fn key_material(value: Seq<u8>) -> Seq<u8> {
    Seq::new(
        64,
        |i: int|
            if i < value.len() {
                value[i]
            } else {
                0u8
            },
    )
}

/// Finds the first colon among `chars`.
pub fn find_colon(chars: &Vec<char>) -> (i: usize)
    ensures
        i as int == colon_index(chars@),
        i <= chars.len(),
{
    let mut i: usize = 0;
    assert(chars@.skip(0) =~= chars@);
    while i < chars.len() && chars[i] != ':'
        invariant
            i <= chars.len(),
            colon_index(chars@) == i + colon_index(chars@.skip(i as int)),
        decreases chars.len() - i,
    {
        assert(chars@.skip(i as int).drop_first() =~= chars@.skip(i as int + 1));
        i = i + 1;
    }
    i
}

/// Tells whether `credentials` is `user:password` with both parts of an accepted length.
pub fn validate_credentials(credentials: &str) -> (valid: bool)
    ensures
        valid == credentials_valid(credentials@),
{
    let chars: Vec<char> = to_chars(credentials);
    let i: usize = find_colon(&chars);
    if i >= chars.len() {
        return false;
    }
    let username: &str = credentials.substring_char(0, i);
    let password: &str = credentials.substring_char(i + 1, chars.len());
    assert(username@ =~= credentials@.take(i as int));
    assert(password@ =~= credentials@.skip(i as int + 1));
    let u: usize = byte_length(username);
    let p: usize = byte_length(password);
    3 <= u && u <= 50 && 6 <= p && p <= 100
}

/// Sets up the session configuration for `credentials` and returns the name of its table. The
/// configuration itself is built and dropped.
pub fn configure_axum_session(credentials: &str) -> (table_name: String)
    ensures
        table_name@ == session_table_name(credentials@),
{
    let chars: Vec<char> = to_chars(credentials);
    let i: usize = find_colon(&chars);
    let mut table_name: String = String::from_str("session_username=");
    if i < chars.len() {
        table_name.append(credentials.substring_char(0, i));
        table_name.append("_password=");
        table_name.append(credentials.substring_char(i + 1, chars.len()));
        assert(table_name@ =~= session_table_name(credentials@));
    } else {
        table_name.append(credentials);
        table_name.append("_password=");
        assert(table_name@ =~= session_table_name(credentials@));
    }
    build_session_config(table_name.clone());
    table_name
}

/// Sets up the cookie session of a user and returns the 64 bytes of its key material. The
/// session builder itself is built and dropped.
pub fn create_session_cookie(username: &str, password: Option<&String>) -> (key: Vec<u8>)
    ensures
        key@ == key_material(
            encode_utf8(
                session_value(
                    username@,
                    match password {
                        Some(p) => Some(p@),
                        None => None,
                    },
                ),
            ),
        ),
{
    let mut value: String = String::from_str("session_");
    value.append(username);
    value.append("_");
    match password {
        Some(p) => {
            value.append(p.as_str());
        },
        None => {},
    }
    let ghost wanted: Seq<char> = session_value(
        username@,
        match password {
            Some(p) => Some(p@),
            None => None,
        },
    );
    assert(value@ =~= wanted);
    let bytes: &[u8] = value.as_str().as_bytes();
    let mut key: Vec<u8> = Vec::new();
    let mut i: usize = 0;
    while i < 64
        invariant
            i <= 64,
            key.len() == i,
            bytes@ == encode_utf8(wanted),
            forall|j: int|
                0 <= j < i ==> key@[j] == (if j < bytes@.len() {
                    bytes@[j]
                } else {
                    0u8
                }),
        decreases 64 - i,
    {
        if i < bytes.len() {
            key.push(bytes[i]);
        } else {
            key.push(0u8);
        }
        i = i + 1;
    }
    assert(key@ =~= key_material(encode_utf8(wanted)));
    build_cookie_session(&key);
    key
}

impl AuthChecker {
    /// Takes the expected credentials from `user:password`, split at the first colon.
    pub fn new(s: &str) -> (result: Result<AuthChecker, StringError>)
        ensures
            match split_credentials(s@) {
                Some((username, password)) => result is Ok && result->Ok_0@.username == username
                    && result->Ok_0@.password == password,
                None => result is Err && result->Err_0.0@ == "not valid format user & password"@,
            },
    {
        let chars: Vec<char> = to_chars(s);
        let i: usize = find_colon(&chars);
        if i < chars.len() {
            if validate_credentials(s) {
                let _ = configure_axum_session(s);
            }
            let username: String = String::from_str(s.substring_char(0, i));
            let password: String = String::from_str(s.substring_char(i + 1, chars.len()));
            assert(username@ =~= s@.take(i as int));
            assert(password@ =~= s@.skip(i as int + 1));
            Ok(AuthChecker { username, password })
        } else {
            Err(StringError(String::from_str("not valid format user & password")))
        }
    }

    /// What the checker decides for a request that presents `presented`.
    pub open spec fn decision(self, presented: Option<BasicCredentials>) -> AuthOutcome {
        match presented {
            Some(credentials) => if credentials.username@ == self@.username
                && credentials.password is Some && credentials.password->Some_0@
                == self@.password {
                AuthOutcome::Granted
            } else {
                AuthOutcome::WrongCredentials
            },
            None => AuthOutcome::MissingCredentials,
        }
    }

    /// Decides whether a request may pass, by the credentials that it presents.
    pub fn before(&self, presented: &Option<BasicCredentials>) -> (outcome: AuthOutcome)
        ensures
            outcome == self.decision(*presented),
    {
        match presented {
            Some(credentials) => {
                let _ = match &credentials.password {
                    Some(p) => hash_password(p.as_str()),
                    None => hash_password(""),
                };
                let _ = create_session_cookie(
                    credentials.username.as_str(),
                    credentials.password.as_ref(),
                );
                let same_password: bool = match &credentials.password {
                    Some(p) => *p == self.password,
                    None => false,
                };
                if credentials.username == self.username && same_password {
                    AuthOutcome::Granted
                } else {
                    AuthOutcome::WrongCredentials
                }
            },
            None => AuthOutcome::MissingCredentials,
        }
    }
}

} // verus!
