//! Text checks at the boundary with the native interface, which carries
//! NUL-terminated strings.

use vstd::prelude::*;
use vstd::utf8::encode_utf8;
use crate::error::{CoreBaseError, CoreBaseResult, ErrorKind};

verus! {

/// Whether the UTF-8 encoding of `s` holds a NUL byte, which a
/// NUL-terminated string cannot carry.
pub open spec fn has_nul(s: Seq<char>) -> bool {
    encode_utf8(s).contains(0u8)
}

/// Detail message of the error for text that holds a NUL byte.
pub open spec fn nul_error_message() -> Seq<char> {
    "nul byte found in provided data"@
}

/// Whether `s` holds a NUL byte.
pub fn contains_nul(s: &str) -> (r: bool)
    ensures
        r == has_nul(s@),
{
    let bytes = s.as_bytes();
    let mut i: usize = 0;
    while i < bytes.len()
        invariant
            bytes@ == encode_utf8(s@),
            i <= bytes@.len(),
            forall|j: int| 0 <= j < i ==> bytes@[j] != 0u8,
        decreases bytes@.len() - i,
    {
        if bytes[i] == 0u8 {
            assert(bytes@[i as int] == 0u8);
            return true;
        }
        i = i + 1;
    }
    proof {
        if encode_utf8(s@).contains(0u8) {
            let j = choose|j: int| 0 <= j < encode_utf8(s@).len() && encode_utf8(s@)[j] == 0u8;
            assert(bytes@[j] == 0u8);
        }
    }
    false
}

/// Checks that `s` can be handed to the native interface: `InvalidString`
/// exactly when it holds a NUL byte.
pub fn check_c_string(s: &str) -> (r: CoreBaseResult<()>)
    ensures
        has_nul(s@) ==> (r matches Err(e) && e@ == (ErrorKind::InvalidString, nul_error_message())),
        !has_nul(s@) ==> r is Ok,
{
    if contains_nul(s) {
        Err(CoreBaseError::InvalidString(String::from_str("nul byte found in provided data")))
    } else {
        Ok(())
    }
}

} // verus!
