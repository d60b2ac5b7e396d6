//! What the library has from `uuid` and `sha2`.

use vstd::prelude::*;

verus! {

/// The hyphenated lower-case form of the UUID that `s` names, where
/// `uuid::Uuid::parse_str` accepts `s`.
pub uninterp spec fn uuid_form(s: Seq<char>) -> Option<Seq<char>>;

/// The form, with its text as a character sequence.
pub open spec fn form_view(form: Option<String>) -> Option<Seq<char>> {
    match form {
        Some(form) => Some(form@),
        None => None,
    }
}

/// `uuid::Uuid::parse_str`, with the UUID in its hyphenated lower-case form.
/// The result depends on the text alone.
#[verifier::external_body]
pub(crate) fn parse_uuid(s: &str) -> (form: Option<String>)
    ensures
        form_view(form) == uuid_form(s@),
{
    uuid::Uuid::parse_str(s).ok().map(|id| id.to_string())
}

/// `uuid::Uuid::new_v4` in its hyphenated lower-case form. Which UUID comes is
/// left to chance; its form is one that `parse_str` reads back as it stands.
#[verifier::external_body]
pub(crate) fn random_uuid() -> (form: String)
    ensures
        uuid_form(form@) == Some(form@),
{
    uuid::Uuid::new_v4().to_string()
}

/// Whether `s` names a UUID.
pub fn is_uuid(s: &str) -> (yes: bool)
    ensures
        yes == uuid_form(s@) is Some,
{
    parse_uuid(s).is_some()
}

/// A new random id.
pub fn new_id() -> (id: String)
    ensures
        uuid_form(id@) == Some(id@),
{
    random_uuid()
}

/// The SHA-256 digest of the bytes in lower-case hexadecimal digits.
pub uninterp spec fn sha256_hex(bytes: Seq<u8>) -> Seq<char>;

/// `sha2::Sha256::digest` of the bytes, written with `{:x}`. The result depends
/// on the bytes alone.
#[verifier::external_body]
pub(crate) fn digest_hex(bytes: &Vec<u8>) -> (hex: String)
    ensures
        hex@ == sha256_hex(bytes@),
{
    format!("{:x}", <sha2::Sha256 as sha2::Digest>::digest(bytes))
}

/// The SHA-256 digest of the bytes in lower-case hexadecimal digits.
pub fn sha256(bytes: &Vec<u8>) -> (hex: String)
    ensures
        hex@ == sha256_hex(bytes@),
{
    digest_hex(bytes)
}

} // verus!
