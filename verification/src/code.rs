//! Short codes: five characters of the alphanumeric alphabet, drawn at random.

use vstd::prelude::*;
use vstd::string::*;

verus! {

/// The number of characters of a short code.
pub const CODE_LENGTH: usize = 5;

/// Whether `c` belongs to the alphabet of short codes: the ten digits and the
/// letters of ASCII in both cases, 62 symbols in all.
pub open spec fn is_code_char(c: char) -> bool {
    ('0' <= c && c <= '9') || ('a' <= c && c <= 'z') || ('A' <= c && c <= 'Z')
}

/// Whether `s` is a short code: `CODE_LENGTH` characters of the alphabet.
pub open spec fn is_short_code(s: Seq<char>) -> bool {
    &&& s.len() == CODE_LENGTH
    &&& forall|i: int| 0 <= i < s.len() ==> is_code_char(#[trigger] s[i])
}

/// Whether `c` belongs to the alphabet of short codes.
pub fn code_char(c: char) -> (b: bool)
    ensures
        b == is_code_char(c),
{
    ('0' <= c && c <= '9') || ('a' <= c && c <= 'z') || ('A' <= c && c <= 'Z')
}

/// Whether `s` is a short code.
pub fn short_code(s: &str) -> (b: bool)
    ensures
        b == is_short_code(s@),
{
    if s.unicode_len() != CODE_LENGTH {
        return false;
    }
    let mut i: usize = 0;
    while i < CODE_LENGTH
        invariant
            i <= CODE_LENGTH,
            s@.len() == CODE_LENGTH,
            forall|j: int| 0 <= j < i ==> is_code_char(#[trigger] s@[j]),
        decreases CODE_LENGTH - i,
    {
        if !code_char(s.get_char(i)) {
            return false;
        }
        i = i + 1;
    }
    true
}

/// Calls `random_string::generate`, which draws `length` characters from
/// `charset`, each at random and independently of the others. Claimed here of
/// every outcome: the text has `length` characters and each of them occurs in
/// `charset`. The charset must not be empty, or the call panics.
#[verifier::external_body]
fn random_text(length: usize, charset: &str) -> (text: String)
    requires
        charset@.len() > 0,
    ensures
        text@.len() == length,
        forall|i: int| 0 <= i < text@.len() ==> charset@.contains(#[trigger] text@[i]),
{
    random_string::generate(length, charset)
}

/// A fresh candidate for a short code, drawn uniformly from all short codes.
/// Nothing is promised of which code comes out, only that it is one.
pub fn generate_suffix() -> (suffix: String)
    ensures
        is_short_code(suffix@),
{
    let charset = "0123456789abcdefghijklmnopqrstuvwxyzABCDEFGHIJKLMNOPQRSTUVWXYZ";
    proof {
        reveal_strlit("0123456789abcdefghijklmnopqrstuvwxyzABCDEFGHIJKLMNOPQRSTUVWXYZ");
    }
    let suffix = random_text(CODE_LENGTH, charset);
    suffix
}

} // verus!
