//! Length helpers that take ownership of their string and hand it back
//! beside the measured length.

use vstd::prelude::*;
use vstd::utf8::encode_utf8;

verus! {

/// Measures `s` and returns it together with its length in bytes of its
/// UTF-8 encoding.
pub fn count_len(s: String) -> (r: (String, usize))
    ensures
        r.0 == s,
        r.1 == encode_utf8(s@).len() as usize,
{
    let len: usize = s.as_str().len();
    (s, len)
}

/// Measures `s` and returns it together with its length in bytes of its
/// UTF-8 encoding.
pub fn calculate_length(s: String) -> (r: (String, usize))
    ensures
        r.0 == s,
        r.1 == encode_utf8(s@).len() as usize,
{
    let len: usize = s.as_str().len();
    (s, len)
}

} // verus!
