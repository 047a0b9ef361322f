//! The calls that leave the crate. What is written of them here is taken on
//! trust: Verus does not see behind these functions.

use crate::text::is_alphanumeric;
use rand::Rng;
use vstd::prelude::*;

verus! {

#[verifier::external_type_specification]
#[verifier::external_body]
pub struct ExUuid(uuid::Uuid);

#[verifier::external_type_specification]
#[verifier::external_body]
pub struct ExBcryptError(bcrypt::BcryptError);

/// Draws an identifier from `uuid::Uuid::new_v4`. Nothing is claimed of the
/// value: it is random. The call panics if the system hands out no random
/// bytes.
#[verifier::external_body]
pub(crate) fn fresh_id() -> (id: uuid::Uuid) {
    uuid::Uuid::new_v4()
}

/// Reads the clock through `chrono::Utc::now` and gives the time in
/// milliseconds since 1970, as `DateTime::timestamp_millis` counts them.
/// Nothing is claimed of the value: it is the time of the call. The call
/// panics if the clock stands before 1970.
#[verifier::external_body]
pub(crate) fn now() -> (t: i64) {
    chrono::Utc::now().timestamp_millis()
}

/// What `bcrypt::verify` makes of a password and a hash: whether the
/// password is the one that was hashed, or nothing if the hash is none that
/// bcrypt can read.
pub uninterp spec fn password_check(password: Seq<char>, hash: Seq<char>) -> Option<bool>;

/// Holds a password against a hash with `bcrypt::verify`. The claim is that
/// the call is a function of its two arguments: it computes the hash of the
/// password with the cost and salt that the given hash names and compares.
#[verifier::external_body]
pub(crate) fn verify_password(password: &str, hash: &str) -> (r: Result<bool, bcrypt::BcryptError>)
    ensures
        match r {
            Ok(same) => password_check(password@, hash@) == Some(same),
            Err(_) => password_check(password@, hash@) is None,
        },
{
    bcrypt::verify(password, hash)
}

/// Draws `len` bytes from `rand`'s `Alphanumeric` distribution and the
/// thread's generator. The claim is what holds of every draw: there are
/// `len` bytes, and each is a letter or a digit of ASCII.
#[verifier::external_body]
pub(crate) fn random_alphanumeric(len: usize) -> (r: Vec<u8>)
    ensures
        r@.len() == len,
        forall|i: int| 0 <= i < r@.len() ==> is_alphanumeric(#[trigger] r@[i]),
{
    rand::thread_rng().sample_iter(&rand::distributions::Alphanumeric).take(len).collect()
}

/// Asks `std::str::from_utf8` whether bytes are a text. The claim is what
/// its documentation says: it succeeds on UTF-8 and on nothing else.
#[verifier::external_body]
pub(crate) fn is_utf8(bytes: &[u8]) -> (r: bool)
    ensures
        r == vstd::utf8::valid_utf8(bytes@),
{
    std::str::from_utf8(bytes).is_ok()
}

/// The text of the member `key` of the JSON object that `body` writes, as
/// `serde_json` reads it: nothing if `body` is no JSON, no object, or has no
/// such member that is a string.
pub uninterp spec fn json_text_member(body: Seq<char>, key: Seq<char>) -> Option<Seq<char>>;

/// Reads `body` with `serde_json::from_str` into a `serde_json::Value` and
/// picks the member `key` with `Value::get` and `Value::as_str`. The claim
/// is that the result is a function of the two texts.
#[verifier::external_body]
pub(crate) fn json_member(body: &str, key: &str) -> (r: Option<String>)
    ensures
        match r {
            Some(text) => json_text_member(body@, key@) == Some(text@),
            None => json_text_member(body@, key@) is None,
        },
{
    let value = serde_json::from_str::<serde_json::Value>(body).ok()?;
    value.get(key)?.as_str().map(String::from)
}

} // verus!
