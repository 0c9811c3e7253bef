//! The printability filter: decides whether decoded text looks like a
//! plausible embedded human message.

use vstd::prelude::*;
use vstd::string::StrSliceExecFns;

verus! {

/// A character counts as printable when it lies in the ASCII range
/// (code point below 128) and is not an ASCII control character
/// (code points 0 through 31 and 127 are rejected).
pub open spec fn printable_char(c: char) -> bool {
    (c as u32) < 128 && !((c as u32) < 32 || (c as u32) == 127)
}

/// Every character of the text is printable ASCII; vacuously true of the
/// empty text.
pub open spec fn all_printable_chars(s: Seq<char>) -> bool {
    forall|i: int| 0 <= i < s.len() ==> printable_char(s[i])
}

/// A byte counts as printable when it is the code of a printable ASCII
/// character, that is, lies in the range 32 through 126.
pub open spec fn printable_byte(b: u8) -> bool {
    32 <= b && b <= 126
}

/// Every byte of the sequence is printable ASCII.
pub open spec fn all_printable_bytes(b: Seq<u8>) -> bool {
    forall|i: int| 0 <= i < b.len() ==> printable_byte(b[i])
}

/// The byte codes read one-for-one as characters.
pub open spec fn bytes_as_chars(b: Seq<u8>) -> Seq<char> {
    Seq::new(b.len(), |i: int| b[i] as char)
}

/// Decides whether every character of `s` is printable, non-control ASCII.
pub fn is_printable_ascii(s: &str) -> (r: bool)
    ensures
        r == all_printable_chars(s@),
{
    let n: usize = s.unicode_len();
    let mut i: usize = 0;
    while i < n
        invariant
            n == s@.len(),
            0 <= i <= n,
            forall|j: int| 0 <= j < i ==> printable_char(s@[j]),
        decreases n - i,
    {
        let c = s.get_char(i);
        let u = c as u32;
        if u < 32 || u >= 127 {
            assert(!printable_char(s@[i as int]));
            return false;
        }
        i += 1;
    }
    true
}

} // verus!
