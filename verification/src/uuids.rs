//! Universally unique identifiers, as text.

use vstd::prelude::*;

verus! {

#[verifier::external_type_specification]
#[verifier::external_body]
pub struct ExUuidError(uuid::Error);

/// Whether `c` is a hexadecimal digit in lower case.
pub open spec fn is_lower_hex(c: char) -> bool {
    ('0' <= c && c <= '9') || ('a' <= c && c <= 'f')
}

/// Whether `s` has the hyphenated form of an identifier: 36 characters, a
/// hyphen at each of the positions 8, 13, 18 and 23, and a lower-case
/// hexadecimal digit everywhere else.
pub open spec fn is_hyphenated_uuid(s: Seq<char>) -> bool {
    &&& s.len() == 36
    &&& forall|i: int|
        0 <= i < 36 ==> if i == 8 || i == 13 || i == 18 || i == 23 {
            #[trigger] s[i] == '-'
        } else {
            is_lower_hex(s[i])
        }
}

/// Whether `s` is the hyphenated form of a random (version 4) identifier:
/// the version digit is 4 and the variant digit is one of 8, 9, a and b.
pub open spec fn is_random_uuid(s: Seq<char>) -> bool {
    &&& is_hyphenated_uuid(s)
    &&& s[14] == '4'
    &&& (s[19] == '8' || s[19] == '9' || s[19] == 'a' || s[19] == 'b')
}

/// The hyphenated lower-case form of the identifier that `text` denotes, or
/// `None` where `text` denotes none; this is what `uuid::Uuid::parse_str`
/// followed by formatting makes of `text`.
pub uninterp spec fn uuid_canonical(text: Seq<char>) -> Option<Seq<char>>;

/// A fresh random identifier from `uuid::Uuid::new_v4`, in hyphenated form.
///
/// Trusted: the text has the shape of a version 4 identifier. Which one it is
/// depends on the system's random source, so nothing more is claimed. The
/// call does not return if that source cannot supply bytes.
#[verifier::external_body]
pub(crate) fn fresh_uuid() -> (text: String)
    ensures
        is_random_uuid(text@),
{
    format!("{}", uuid::Uuid::new_v4().hyphenated())
}

/// Reads an identifier with `uuid::Uuid::parse_str` and writes it back in
/// hyphenated lower-case form.
///
/// Trusted: the outcome is the function `uuid_canonical` of the text, and
/// what is written back has the hyphenated form.
#[verifier::external_body]
pub(crate) fn canonical_uuid(text: &str) -> (r: Result<String, uuid::Error>)
    ensures
        match r {
            Ok(canonical) => uuid_canonical(text@) == Some(canonical@) && is_hyphenated_uuid(
                canonical@,
            ),
            Err(_) => uuid_canonical(text@) is None,
        },
{
    match uuid::Uuid::parse_str(text) {
        Ok(id) => Ok(format!("{}", id)),
        Err(e) => Err(e),
    }
}

} // verus!
