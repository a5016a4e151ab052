//! Comparisons and slicing of text, stated over sequences of characters.

use vstd::prelude::*;
use vstd::string::*;
use vstd::utf8::*;

verus! {

/// The byte-order mark that some editors put in front of a text file.
pub const BYTE_ORDER_MARK: char = '\u{feff}';

/// Whether two strings hold the same characters.
pub fn same_text(a: &str, b: &str) -> (same: bool)
    ensures
        same == (a@ == b@),
{
    let x = a.as_bytes();
    let y = b.as_bytes();
    proof {
        encode_utf8_decode_utf8(a@);
        encode_utf8_decode_utf8(b@);
    }
    if x.len() != y.len() {
        return false;
    }
    let mut i: usize = 0;
    while i < x.len()
        invariant
            i <= x.len(),
            x.len() == y.len(),
            x@ == a.spec_bytes(),
            y@ == b.spec_bytes(),
            forall|j: int| 0 <= j < i ==> x@[j] == y@[j],
        decreases x.len() - i,
    {
        if x[i] != y[i] {
            return false;
        }
        i += 1;
    }
    assert(x@ =~= y@);
    true
}

/// The text behind a leading byte-order mark, or all of it where there is none.
pub open spec fn spec_without_bom(text: Seq<char>) -> Seq<char> {
    if text.len() > 0 && text[0] == BYTE_ORDER_MARK {
        text.skip(1)
    } else {
        text
    }
}

/// Skips one leading byte-order mark.
pub fn without_bom(text: &str) -> (rest: &str)
    ensures
        rest@ == spec_without_bom(text@),
{
    if text.is_empty() {
        return text;
    }
    if text.get_char(0) == BYTE_ORDER_MARK {
        let n = text.unicode_len();
        text.substring_char(1, n)
    } else {
        text
    }
}

} // verus!
