use rand::Rng;
use sha1::Digest;
use vstd::prelude::*;

verus! {

/// A stored identity: the digest in `password` is never the plain password.
#[derive(Debug)]
pub struct User {
    pub id: u32,
    pub username: String,
    pub password: String,
}

/// Length of a session token.
pub const SESSION_KEY_LEN: usize = 32;

/// Lower-case hex SHA-1 digest of the UTF-8 text `s`.
pub uninterp spec fn sha1_hex(s: Seq<char>) -> Seq<char>;

/// Relies on sha1::Sha1::digest over the UTF-8 bytes, printed with `{:x}`
/// (digest's `LowerHex` on the output array): a function of the text alone.
#[verifier::external_body]
fn password_digest(password: &str) -> (r: String)
    ensures
        r@ == sha1_hex(password@),
{
    format!("{:x}", sha1::Sha1::digest(password.as_bytes()))
}

/// A credential check succeeds when exactly one identity was found for the
/// name and its stored digest equals the digest of the supplied password.
/// An empty stored digest is an ordinary value that matches no password.
pub open spec fn credentials_match(users: Seq<User>, digest: Seq<char>) -> bool {
    users.len() == 1 && users[0].password@ == digest
}

/// Verifies a password digest against the identities found for a name.
pub fn check_credentials(users: Vec<User>, digest: &String) -> (r: Option<User>)
    ensures
        r.is_some() == credentials_match(users@, digest@),
        r matches Some(u) ==> u == users@[0],
{
    let mut users = users;
    if users.len() == 1 {
        let user = users.pop().unwrap();
        if user.password == *digest {
            return Some(user);
        }
    }
    None
}

/// Verifies `password` against the identities that the repository returned
/// for the submitted name; none or several of them is a failure, as is a
/// wrong password, and the caller learns nothing more than that.
pub fn authenticate(users: Vec<User>, password: &str) -> (r: Option<User>)
    ensures
        r.is_some() == credentials_match(users@, sha1_hex(password@)),
        r matches Some(u) ==> u == users@[0],
{
    let digest = password_digest(password);
    check_credentials(users, &digest)
}

pub open spec fn is_alphanumeric(c: char) -> bool {
    ('a' <= c && c <= 'z') || ('A' <= c && c <= 'Z') || ('0' <= c && c <= '9')
}

/// A well-formed session token: fixed length, alphanumeric characters.
pub open spec fn is_session_token(s: Seq<char>) -> bool {
    &&& s.len() == SESSION_KEY_LEN
    &&& forall|i: int| 0 <= i < s.len() ==> #[trigger] is_alphanumeric(s[i])
}

/// Relies on rand's thread_rng sampled through `Alphanumeric`, whose samples
/// are bytes of `A-Z`, `a-z`, `0-9`; `take(len)` of that endless stream.
#[verifier::external_body]
fn random_alphanumeric(len: usize) -> (r: String)
    ensures
        r@.len() == len,
        forall|i: int| 0 <= i < r@.len() ==> #[trigger] is_alphanumeric(r@[i]),
{
    rand::thread_rng().sample_iter(&rand::distributions::Alphanumeric).take(len).map(char::from).collect()
}

/// A fresh, unpredictable session token.
pub fn session_key() -> (r: String)
    ensures
        is_session_token(r@),
{
    random_alphanumeric(SESSION_KEY_LEN)
}

} // verus!
