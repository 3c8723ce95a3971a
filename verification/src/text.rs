//! String comparison with a specified result.

use vstd::prelude::*;
use vstd::string::StrSliceExecFns;

verus! {

/// Compares two strings; the result reflects equality of their views.
pub fn str_eq(a: &str, b: &str) -> (r: bool)
    ensures
        r == (a@ == b@),
{
    let av = a.as_bytes_vec();
    let bv = b.as_bytes_vec();
    let r = av == bv;
    proof {
        assert(av@ == vstd::utf8::encode_utf8(a@));
        assert(bv@ == vstd::utf8::encode_utf8(b@));
        if r {
            assert(av@ =~= bv@);
            vstd::utf8::encode_utf8_decode_utf8(a@);
            vstd::utf8::encode_utf8_decode_utf8(b@);
        } else {
            if a@ == b@ {
                assert(av@ =~= bv@);
            }
        }
    }
    r
}

} // verus!
