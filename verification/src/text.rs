//! Small verified helpers on strings.

use vstd::prelude::*;
use vstd::string::StringSliceAdditionalSpecFns;
use vstd::utf8::{encode_utf8, encode_utf8_decode_utf8};

verus! {

/// Two character sequences with the same UTF-8 encoding are the same sequence.
pub proof fn lemma_utf8_encoding_is_injective(a: Seq<char>, b: Seq<char>)
    requires
        encode_utf8(a) == encode_utf8(b),
    ensures
        a == b,
{
    encode_utf8_decode_utf8(a);
    encode_utf8_decode_utf8(b);
}

/// Whether two strings hold the same characters.
pub fn str_eq(a: &str, b: &str) -> (same: bool)
    ensures
        same == (a@ == b@),
{
    let x = a.as_bytes();
    let y = b.as_bytes();
    if x.len() != y.len() {
        return false;
    }
    let mut i: usize = 0;
    while i < x.len()
        invariant
            x@.len() == y@.len(),
            i <= x@.len(),
            x@ == a.spec_bytes(),
            y@ == b.spec_bytes(),
            forall|k: int| 0 <= k < i ==> x@[k] == y@[k],
        decreases x@.len() - i,
    {
        if x[i] != y[i] {
            return false;
        }
        i += 1;
    }
    proof {
        assert(x@ =~= y@);
        lemma_utf8_encoding_is_injective(a@, b@);
    }
    true
}

/// `text` without the white space at its two ends, as Unicode defines white
/// space.
pub uninterp spec fn trimmed(text: Seq<char>) -> Seq<char>;

/// `text` with every letter in lower case.
pub uninterp spec fn lowercased(text: Seq<char>) -> Seq<char>;

/// `str::trim` hands out the part of the string between its leading and its
/// trailing white space, as Unicode defines white space. The contract claims
/// that the result depends on the characters alone, and names it [`trimmed`].
pub assume_specification[ str::trim ](text: &str) -> (part: &str)
    ensures
        part@ == trimmed(text@),
;

/// `str::to_lowercase` hands out the string's lower-case form, as Unicode
/// defines it. The contract claims that the result depends on the characters
/// alone, and names it [`lowercased`].
pub assume_specification[ str::to_lowercase ](text: &str) -> (lower: String)
    ensures
        lower@ == lowercased(text@),
;

} // verus!
