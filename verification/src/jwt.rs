//! Signed tokens: RS256 signing and verification by the `frank_jwt` crate.
//!
//! A token is signed with an RSA private key and verified with the matching
//! public key, both given as PEM text. The cryptography is not verified here;
//! what is assumed of it is stated on the two functions that call it. Which
//! keys may be handed to it at all is decided here, by `key_fault`.

use crate::claims::{claims_map, distinct_names, Claim, Claims};
use vstd::prelude::*;
use vstd::string::*;

verus! {

#[verifier::external_type_specification]
#[verifier::external_body]
pub struct ExJwtError(frank_jwt::Error);

/// The token that signing `claims` with `private_key` yields, or `None`
/// where signing fails.
pub uninterp spec fn rs256_token(private_key: Seq<char>, claims: Map<Seq<char>, Seq<char>>) -> Option<
    Seq<char>,
>;

/// The claims that `token` carries, or `None` where it does not verify
/// under `public_key` or its body is no mapping from names to text.
pub uninterp spec fn rs256_claims(token: Seq<char>, public_key: Seq<char>) -> Option<
    Map<Seq<char>, Seq<char>>,
>;

/// The longest key, in bytes, that the cryptographic library takes.
pub const MAX_KEY_BYTES: usize = 2147483647;

/// Whether `key` is short enough for the cryptographic library.
pub open spec fn key_fits(key: &str) -> bool {
    key.len() <= MAX_KEY_BYTES
}

/// Whether `word` stands in `text` from the position `i` on.
pub open spec fn stands_at(text: Seq<u8>, word: Seq<u8>, i: int) -> bool {
    0 <= i && i + word.len() <= text.len() && text.subrange(i, i + word.len()) == word
}

/// Whether `word` stands somewhere in `text`.
pub open spec fn holds_word(text: Seq<u8>, word: Seq<u8>) -> bool {
    exists|i: int| stands_at(text, word, i)
}

/// Whether `key` is free of the word by which PEM text marks a key as
/// encrypted, in its headers or in the name of its block.
pub open spec fn key_is_plain(key: &str) -> bool {
    !holds_word(key.spec_bytes(), "ENCRYPTED".spec_bytes())
}

/// Why `key` is not handed to the cryptographic library, if it is not: it
/// is too long, or it is marked as encrypted.
pub open spec fn key_fault(key: &str) -> Option<Seq<char>> {
    if !key_fits(key) {
        Some("the key is too long"@)
    } else if !key_is_plain(key) {
        Some("the key is encrypted"@)
    } else {
        None
    }
}

/// Whether `word` stands in `text` from the position `i` on.
fn word_stands_at(text: &[u8], word: &[u8], i: usize) -> (r: bool)
    requires
        i + word@.len() <= text@.len(),
    ensures
        r == stands_at(text@, word@, i as int),
{
    let n = word.len();
    let m = text.len();
    let mut j: usize = 0;
    while j < n
        invariant
            n == word@.len(),
            m == text@.len(),
            j <= n,
            i + n <= m,
            forall|k: int| 0 <= k < j ==> text@[i + k] == word@[k],
        decreases n - j,
    {
        if text[i + j] != word[j] {
            assert(text@.subrange(i as int, i + n)[j as int] != word@[j as int]);
            return false;
        }
        j += 1;
    }
    assert(text@.subrange(i as int, i + n) =~= word@);
    true
}

/// Whether `word` stands somewhere in `text`.
fn word_stands_in(text: &[u8], word: &[u8]) -> (r: bool)
    ensures
        r == holds_word(text@, word@),
{
    if word.len() > text.len() {
        return false;
    }
    let last = text.len() - word.len();
    let mut i: usize = 0;
    loop
        invariant
            last == text@.len() - word@.len(),
            i <= last,
            forall|k: int| 0 <= k < i ==> !stands_at(text@, word@, k),
        decreases last - i,
    {
        if word_stands_at(text, word, i) {
            return true;
        }
        if i == last {
            return false;
        }
        i += 1;
    }
}

/// Says why `key` may not be handed to the cryptographic library, if it
/// may not.
pub fn find_key_fault(key: &str) -> (r: Option<String>)
    ensures
        match key_fault(key) {
            Some(cause) => r matches Some(text) && text@ == cause,
            None => r is None,
        },
{
    if key.len() > MAX_KEY_BYTES {
        Some(String::from_str("the key is too long"))
    } else if word_stands_in(key.as_bytes(), "ENCRYPTED".as_bytes()) {
        Some(String::from_str("the key is encrypted"))
    } else {
        None
    }
}

/// Signs `claims` with `frank_jwt::encode`, under an empty header and the
/// RS256 algorithm; each claim becomes a JSON string under its name.
///
/// Trusted: the outcome, a token or a failure, is a function of the key and
/// of the mapping alone. The body is serialised with its names in order,
/// which holds because `serde_json` keeps a map ordered by key as long as
/// its feature `preserve_order` is off, as it is in this build; with that
/// feature on, the token would follow the order of the entries instead. The
/// signature scheme (PKCS #1 v1.5) is deterministic.
///
/// Two kinds of key are kept out. A key of more than `MAX_KEY_BYTES` bytes,
/// as the library does not return on one. A key marked as encrypted, as the
/// library is given no pass phrase for it and would ask for one outside the
/// arguments.
#[verifier::external_body]
pub(crate) fn sign_rs256(private_key: &str, claims: &Claims) -> (r: Result<
    String,
    frank_jwt::Error,
>)
    requires
        key_fault(private_key) is None,
    ensures
        match r {
            Ok(token) => rs256_token(private_key@, claims@) == Some(token@),
            Err(_) => rs256_token(private_key@, claims@) is None,
        },
{
    let mut body = serde_json::Map::new();
    for claim in claims.entries.iter() {
        body.insert(claim.name.clone(), serde_json::Value::String(claim.value.clone()));
    }
    frank_jwt::encode(
        serde_json::Value::Object(serde_json::Map::new()),
        &private_key,
        &serde_json::Value::Object(body),
        frank_jwt::Algorithm::RS256,
    )
}

/// Verifies `token` with `frank_jwt::decode` under RS256, without any check
/// of expiry, and reads its body with `serde_json::from_value` as a mapping
/// from names to text.
///
/// Trusted: the outcome, claims or a failure, is a function of the token and
/// the key alone, and entries that come back have distinct names. A token
/// that does not verify, or whose body is no such mapping, is a failure.
/// The same two kinds of key are kept out as in signing, for the same
/// reasons.
#[verifier::external_body]
pub(crate) fn verify_rs256(token: &str, public_key: &str) -> (r: Result<
    Vec<Claim>,
    frank_jwt::Error,
>)
    requires
        key_fault(public_key) is None,
    ensures
        match r {
            Ok(entries) => distinct_names(entries@) && rs256_claims(token@, public_key@) == Some(
                claims_map(entries@),
            ),
            Err(_) => rs256_claims(token@, public_key@) is None,
        },
{
    let (_, body) = frank_jwt::decode(
        token,
        &public_key,
        frank_jwt::Algorithm::RS256,
        &frank_jwt::ValidationOptions::dangerous(),
    )?;
    let fields: std::collections::BTreeMap<String, String> = serde_json::from_value(body)?;
    Ok(fields.into_iter().map(|(name, value)| Claim { name, value }).collect())
}

/// The text that `Debug` formatting gives for an error of `frank_jwt`.
#[verifier::external_body]
pub(crate) fn jwt_error_text(e: &frank_jwt::Error) -> (text: String) {
    format!("{:?}", e)
}

} // verus!
