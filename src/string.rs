//! Random fixed-length string identifiers: a random UUID's 16 bytes in URL-safe base64.
use crate::{Generator, GeneratorFromStr, GeneratorWithInvalid};
use vstd::prelude::*;
use vstd::std_specs::iter::IteratorSpec;

verus! {

/// Is `c` in the URL-safe base64 alphabet: an ASCII letter or digit, `-` or `_`?
pub open spec fn is_url_safe_char(c: char) -> bool {
    ('A' <= c && c <= 'Z') || ('a' <= c && c <= 'z') || ('0' <= c && c <= '9') || c == '-' || c
        == '_'
}

/// Is `s` the URL-safe base64 text of 16 bytes without padding: 22 characters of the alphabet?
pub open spec fn is_blob(s: Seq<char>) -> bool {
    s.len() == 22 && forall|i: int| 0 <= i < s.len() ==> is_url_safe_char(#[trigger] s[i])
}

/// Does `char::is_alphanumeric` hold of `c`?
pub uninterp spec fn alphanumeric(c: char) -> bool;

/// May `c` stand in a string identifier: is it alphanumeric, `-` or `_`? The ASCII letters and
/// digits are alphanumeric, and so are the other characters that `char::is_alphanumeric`
/// accepts.
pub open spec fn is_id_char(c: char) -> bool {
    is_url_safe_char(c) || alphanumeric(c)
}

/// Relies on `blob_uuid::random_blob`: it encodes the 16 bytes of `Uuid::new_v4` with base64's
/// URL-safe alphabet and no padding, which gives 22 characters of that alphabet.
#[verifier::external_body]
fn random_blob() -> (s: String)
    ensures
        is_blob(s@),
{
    blob_uuid::random_blob()
}

/// Relies on `char::is_alphanumeric`: whether `c` is alphabetic or numeric in Unicode depends
/// on `c` alone.
#[verifier::external_body]
fn char_is_alphanumeric(c: char) -> (r: bool)
    ensures
        r == alphanumeric(c),
{
    c.is_alphanumeric()
}

/// Generates random string identifiers of 22 characters; the reserved value is the empty
/// string.
#[derive(Clone, Copy, Debug)]
pub struct StringGenerator;

impl Default for StringGenerator {
    fn default() -> (g: Self) {
        StringGenerator
    }
}

impl Generator<String> for StringGenerator {
    open spec fn issuable(id: String) -> bool {
        is_blob(id@)
    }

    fn next_id(&self) -> (id: String) {
        random_blob()
    }
}

impl GeneratorWithInvalid<String> for StringGenerator {
    open spec fn is_reserved(id: String) -> bool {
        id@.len() == 0
    }

    proof fn lemma_reserved_not_issuable(id: String) {
    }

    fn invalid_id() -> (id: String) {
        String::new()
    }
}

impl GeneratorFromStr<String> for StringGenerator {
    open spec fn valid_text(s: Seq<char>) -> bool {
        s.len() > 0 && forall|i: int| 0 <= i < s.len() ==> is_id_char(#[trigger] s[i])
    }

    fn is_valid_value(s: &str) -> (r: bool) {
        if s.is_empty() {
            return false;
        }
        let mut chars = s.chars();
        let ghost mut seen: int = 0;
        loop
            invariant
                s@.len() > 0,
                0 <= seen <= s@.len(),
                chars.remaining() == s@.skip(seen),
                forall|i: int| 0 <= i < seen ==> is_id_char(#[trigger] s@[i]),
            decreases s@.len() - seen,
        {
            match chars.next() {
                Some(c) => {
                    let url_safe = ('A' <= c && c <= 'Z') || ('a' <= c && c <= 'z') || ('0' <= c
                        && c <= '9') || c == '-' || c == '_';
                    if !(url_safe || char_is_alphanumeric(c)) {
                        assert(s@[seen] == c);
                        return false;
                    }
                    proof {
                        seen = seen + 1;
                    }
                },
                None => {
                    return true;
                },
            }
        }
    }
}

} // verus!
