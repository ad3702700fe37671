//! The calls this library makes into other crates. Verus reads the contracts
//! in this file and not the code behind them: each says what is taken on
//! trust.

use vstd::prelude::*;
use base64::Engine;

verus! {

/// `chrono::NaiveDateTime`, a date and time of day without a time zone. The
/// library stores such values and hands them on; it never looks inside.
#[verifier::external_type_specification]
#[verifier::external_body]
pub struct ExNaiveDateTime(chrono::NaiveDateTime);

/// `Clone::clone` of `chrono::NaiveDateTime`. The type is `Copy` and its
/// `Clone` is derived, so the clone is the value itself.
pub assume_specification[ <chrono::NaiveDateTime as Clone>::clone ](
    moment: &chrono::NaiveDateTime,
) -> (copy: chrono::NaiveDateTime)
    ensures
        copy == *moment,
;

/// What `base64` makes of the UTF-8 bytes of a text with its URL-safe
/// alphabet and without padding.
pub uninterp spec fn url_safe_no_pad(text: Seq<char>) -> Seq<char>;

/// `Engine::encode` of `base64`, on `general_purpose::URL_SAFE_NO_PAD`. The
/// encoding depends on the bytes of the text alone, so it has a name; what
/// the name is on a given text is not stated here.
#[verifier::external_body]
pub(crate) fn encode_url_safe(text: &str) -> (encoded: String)
    ensures
        encoded@ == url_safe_no_pad(text@),
{
    base64::engine::general_purpose::URL_SAFE_NO_PAD.encode(text)
}

/// What `str::to_lowercase` of the standard library makes of a text.
pub uninterp spec fn lowercase(text: Seq<char>) -> Seq<char>;

/// `str::to_lowercase` of the standard library. The result depends on the
/// text alone, so it has a name; what the name is on a given text is not
/// stated here.
#[verifier::external_body]
pub(crate) fn to_lowercase(text: &str) -> (lower: String)
    ensures
        lower@ == lowercase(text@),
{
    text.to_lowercase()
}

/// `Uuid::new_v4` of `uuid`, written with hyphens. The identifier is drawn
/// at random: nothing is claimed of it.
#[verifier::external_body]
pub(crate) fn new_uuid() -> String {
    uuid::Uuid::new_v4().as_hyphenated().to_string()
}

/// Whether `bcrypt` finds that a password belongs to a hash: whether
/// `bcrypt::verify` returns `Ok(true)` on the two.
pub uninterp spec fn bcrypt_accepts(password: Seq<char>, hash: Seq<char>) -> bool;

/// `bcrypt::verify`. A hash that cannot be read counts as one that the
/// password does not belong to. The answer depends on the two texts alone,
/// so it has a name; what the name is on given texts is not stated here.
#[verifier::external_body]
pub(crate) fn bcrypt_verify(password: &str, hash: &str) -> (ok: bool)
    ensures
        ok == bcrypt_accepts(password@, hash@),
{
    bcrypt::verify(password, hash).unwrap_or(false)
}

/// `bcrypt::hash`: a hash of the password with a salt drawn at random, or
/// nothing where `bcrypt` refuses the cost or finds no randomness. Nothing
/// is claimed of the hash.
#[verifier::external_body]
pub(crate) fn bcrypt_hash(password: &str, cost: u32) -> Option<String> {
    bcrypt::hash(password, cost).ok()
}

/// `Secret::generate_secret` of `totp_rs`, encoded by `Secret::to_encoded`:
/// a secret for login codes drawn at random, in base 32. Nothing is claimed
/// of the secret.
#[verifier::external_body]
pub(crate) fn new_otp_secret() -> Option<String> {
    match totp_rs::Secret::generate_secret().to_encoded() {
        totp_rs::Secret::Encoded(text) => Some(text),
        totp_rs::Secret::Raw(_) => None,
    }
}

/// The login code that `totp_rs` derives with SHA-256 from the bytes of a
/// secret for the second `time`, or nothing where it refuses the number of
/// digits or the secret.
pub uninterp spec fn totp_code(
    digits: usize,
    skew: u8,
    step: u64,
    secret: Seq<char>,
    time: u64,
) -> Option<Seq<char>>;

/// `TOTP::new` and `TOTP::generate` of `totp_rs`, with `Algorithm::SHA256`
/// and the UTF-8 bytes of `secret`. `generate` divides the time by the
/// step, so the step must not be 0. The code depends on the arguments
/// alone, so it has a name; what the name is on given arguments is not
/// stated here.
#[verifier::external_body]
pub(crate) fn totp_generate(digits: usize, skew: u8, step: u64, secret: &str, time: u64) -> (code:
    Option<String>)
    requires
        step > 0,
    ensures
        crate::user::text_of(code) == totp_code(digits, skew, step, secret@, time),
{
    totp_rs::TOTP::new(totp_rs::Algorithm::SHA256, digits, skew, step, secret.as_bytes().to_vec())
        .ok()
        .map(|totp| totp.generate(time))
}

/// Whether `totp_rs` accepts a login code for the second `time`: whether
/// the code is the one of the step of that second or of one of the `skew`
/// steps before or after it.
pub uninterp spec fn totp_accepts(
    digits: usize,
    skew: u8,
    step: u64,
    secret: Seq<char>,
    token: Seq<char>,
    time: u64,
) -> bool;

/// `TOTP::new` and `TOTP::check` of `totp_rs`, with `Algorithm::SHA256` and
/// the UTF-8 bytes of `secret`. A secret or a number of digits that
/// `totp_rs` refuses counts as a code not accepted. `check` divides the
/// time by the step, goes `skew` steps back from there and `skew` steps
/// on, and multiplies each by the step: the step must not be 0, and
/// neither the way back nor the way on may leave the machine's integers.
/// The answer depends on the arguments alone, so it has a name; what the
/// name is on given arguments is not stated here.
#[verifier::external_body]
pub(crate) fn totp_check(
    digits: usize,
    skew: u8,
    step: u64,
    secret: &str,
    token: &str,
    time: u64,
) -> (ok: bool)
    requires
        step > 0,
        time / step >= skew,
        (time / step + skew) * step <= u64::MAX,
    ensures
        ok == totp_accepts(digits, skew, step, secret@, token@, time),
{
    totp_rs::TOTP::new(totp_rs::Algorithm::SHA256, digits, skew, step, secret.as_bytes().to_vec())
        .map(|totp| totp.check(token, time))
        .unwrap_or(false)
}

/// Whether the standard library counts a character as a small letter.
pub uninterp spec fn small_letter(c: char) -> bool;

/// `char::is_lowercase` of the standard library.
#[verifier::external_body]
pub(crate) fn is_small_letter(c: char) -> (small: bool)
    ensures
        small == small_letter(c),
{
    c.is_lowercase()
}

/// Whether the standard library counts a character as a capital letter.
pub uninterp spec fn capital_letter(c: char) -> bool;

/// `char::is_uppercase` of the standard library.
#[verifier::external_body]
pub(crate) fn is_capital_letter(c: char) -> (capital: bool)
    ensures
        capital == capital_letter(c),
{
    c.is_uppercase()
}

/// Whether the standard library counts a character as a number.
pub uninterp spec fn number_char(c: char) -> bool;

/// `char::is_numeric` of the standard library.
#[verifier::external_body]
pub(crate) fn is_number_char(c: char) -> (number: bool)
    ensures
        number == number_char(c),
{
    c.is_numeric()
}

} // verus!
