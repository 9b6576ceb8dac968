//! The values that travel between the engines and their controller.

use vstd::prelude::*;
use vstd::string::StringSliceAdditionalSpecFns;
use crate::error::KristforgeError;

verus! {

/// A payout address: ten bytes.
#[derive(Debug, Clone, Copy, PartialEq, Eq)]
pub struct Address(pub [u8; 10]);

impl Address {
    /// Number of bytes in an address.
    pub const LENGTH: usize = 10;

    /// The address as a sequence of bytes.
    pub open spec fn bytes(&self) -> Seq<u8> {
        self.0@
    }

    /// Reads an address from exactly ten bytes; any other length is refused
    /// with the length that was found.
    pub fn from_bytes(data: &[u8]) -> (r: Result<Address, KristforgeError>)
        ensures
            data@.len() == 10 ==> r is Ok && r->Ok_0.bytes() == data@,
            data@.len() != 10 ==> r == Err::<Address, KristforgeError>(
                KristforgeError::InvalidAddressLength(data@.len() as usize),
            ),
    {
        if data.len() != 10 {
            return Err(KristforgeError::InvalidAddressLength(data.len()));
        }
        let mut out: [u8; 10] = [0u8; 10];
        let mut i: usize = 0;
        while i < 10
            invariant
                i <= 10,
                data@.len() == 10,
                forall|j: int| 0 <= j < i ==> out@[j] == data@[j],
            decreases 10 - i,
        {
            out[i] = data[i];
            i += 1;
        }
        assert(out@ =~= data@);
        Ok(Address(out))
    }

    /// Reads an address from text: the text's bytes, which must be ten.
    pub fn from_str(s: &str) -> (r: Result<Address, KristforgeError>)
        ensures
            s.spec_bytes().len() == 10 ==> r is Ok && r->Ok_0.bytes() == s.spec_bytes(),
            s.spec_bytes().len() != 10 ==> r == Err::<Address, KristforgeError>(
                KristforgeError::InvalidAddressLength(s.spec_bytes().len() as usize),
            ),
    {
        Address::from_bytes(s.as_bytes())
    }

    /// The ten bytes of the address, in order.
    pub fn to_bytes(&self) -> (out: Vec<u8>)
        ensures
            out@ == self.bytes(),
    {
        let mut out: Vec<u8> = Vec::new();
        let mut i: usize = 0;
        while i < 10
            invariant
                i <= 10,
                out@.len() == i,
                forall|j: int| 0 <= j < i ==> out@[j] == self.0@[j],
            decreases 10 - i,
        {
            out.push(self.0[i]);
            i += 1;
        }
        assert(out@ =~= self.0@);
        out
    }
}

/// The current work unit: a difficulty and the block to build on.
#[derive(Debug, Clone, Copy, PartialEq, Eq)]
pub struct Target {
    pub work: i64,
    pub prev_block: [u8; 12],
}

impl Target {
    /// Number of bytes in a block reference.
    pub const BLOCK_LEN: usize = 12;
}

/// A nonce that a device reported for a target, with the address it was
/// searched for.
#[derive(Debug, Clone, PartialEq, Eq)]
pub struct Solution {
    pub target: Target,
    pub address: Address,
    pub nonce: [u8; 15],
}

impl Solution {
    /// Number of bytes in a nonce.
    pub const NONCE_LEN: usize = 15;
}

} // verus!
