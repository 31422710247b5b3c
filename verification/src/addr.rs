//! Syntactic validation of account addresses.
//!
//! The host runtime owns the authoritative address format; this contract only
//! needs a syntactic gate for the `SetReflectee` input. An address is taken to
//! be well-formed when it is 3 to 54 characters, each a lowercase ASCII letter
//! or a digit — the shape of the bench-style account names the host hands out.

use crate::error::ContractError;
use vstd::prelude::*;
use vstd::string::StrSliceExecFns;

verus! {

/// The longest address accepted.
pub const MAX_ADDR_LEN: usize = 54;

/// The shortest address accepted.
pub const MIN_ADDR_LEN: usize = 3;

/// Whether `c` may appear in an address: a lowercase ASCII letter or a digit.
pub open spec fn valid_addr_char(c: char) -> bool {
    (97 <= c as u32 <= 122) || (48 <= c as u32 <= 57)
}

/// Whether `s` is a syntactically valid address.
pub open spec fn valid_addr(s: Seq<char>) -> bool {
    &&& MIN_ADDR_LEN <= s.len() <= MAX_ADDR_LEN
    &&& forall|i: int| 0 <= i < s.len() ==> valid_addr_char(#[trigger] s[i])
}

/// Checks the given address string, returning `Ok` exactly when it is
/// syntactically valid and `InvalidAddress` otherwise.
pub fn addr_validate(addr: &str) -> (r: Result<(), ContractError>)
    ensures
        r is Ok <==> valid_addr(addr@),
        r is Err ==> r == Err::<(), ContractError>(ContractError::InvalidAddress),
{
    let n = addr.unicode_len();
    if n < MIN_ADDR_LEN || n > MAX_ADDR_LEN {
        return Err(ContractError::InvalidAddress);
    }
    let mut i: usize = 0;
    while i < n
        invariant
            i <= n,
            n == addr@.len(),
            MIN_ADDR_LEN <= n <= MAX_ADDR_LEN,
            forall|j: int| 0 <= j < i ==> valid_addr_char(#[trigger] addr@[j]),
        decreases n - i,
    {
        let c = addr.get_char(i);
        let u = c as u32;
        if !((97 <= u && u <= 122) || (48 <= u && u <= 57)) {
            return Err(ContractError::InvalidAddress);
        }
        i = i + 1;
    }
    Ok(())
}

} // verus!
