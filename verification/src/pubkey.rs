//! The 32-byte account address used throughout the governance core.
//!
//! The hosting runtime hands every operation the addresses of the records it
//! touches; the logic here only reads their bytes (for hashing) and compares
//! them, so the library holds them as a plain 32-byte value.

use vstd::prelude::*;
use crate::utils::bytes32::bytes32_eq;

verus! {

/// A 32-byte account address / identity.
#[derive(Clone, Copy, Debug)]
pub struct Pubkey {
    pub bytes: [u8; 32],
}

/// The all-zero address, used as "unset" by the records of this library.
pub open spec fn default_key_bytes() -> Seq<u8> {
    Seq::new(32, |i: int| 0u8)
}

impl View for Pubkey {
    type V = Seq<u8>;

    open spec fn view(&self) -> Seq<u8> {
        self.bytes@
    }
}

impl Pubkey {
    /// Wrap raw bytes as an address.
    pub fn new(bytes: [u8; 32]) -> (k: Pubkey)
        ensures
            k@ == bytes@,
    {
        Pubkey { bytes }
    }

    /// Whether this is the all-zero "unset" address.
    pub fn is_default(&self) -> (r: bool)
        ensures
            r <==> self@ == default_key_bytes(),
    {
        let zero: [u8; 32] = [0u8; 32];
        let r = bytes32_eq(&self.bytes, &zero);
        proof {
            assert(zero@ =~= default_key_bytes());
        }
        r
    }
}

impl PartialEq for Pubkey {
    fn eq(&self, other: &Pubkey) -> bool {
        bytes32_eq(&self.bytes, &other.bytes)
    }
}

impl vstd::std_specs::cmp::PartialEqSpecImpl for Pubkey {
    open spec fn obeys_eq_spec() -> bool {
        true
    }

    open spec fn eq_spec(&self, other: &Pubkey) -> bool {
        self.bytes@ == other.bytes@
    }
}

impl Default for Pubkey {
    /// The all-zero address.
    fn default() -> (k: Pubkey)
        ensures
            k@ == default_key_bytes(),
    {
        let k = Pubkey { bytes: [0u8; 32] };
        proof {
            assert(k@ =~= default_key_bytes());
        }
        k
    }
}

} // verus!
