use vstd::prelude::*;

verus! {

/// A 32-byte ledger address, held as four little-endian 64-bit words.
/// The library only ever compares addresses for equality; the ledger-facing
/// layer converts them to and from its own address type.
#[derive(Clone, Copy, Debug, PartialEq, Eq, Structural)]
pub struct Key {
    pub w0: u64,
    pub w1: u64,
    pub w2: u64,
    pub w3: u64,
}

impl Key {
    /// The all-zero address, which the wire format reserves to encode "no key".
    pub open spec fn spec_is_zero(self) -> bool {
        self.w0 == 0 && self.w1 == 0 && self.w2 == 0 && self.w3 == 0
    }

    pub fn is_zero(&self) -> (r: bool)
        ensures
            r == self.spec_is_zero(),
    {
        self.w0 == 0 && self.w1 == 0 && self.w2 == 0 && self.w3 == 0
    }

    pub open spec fn spec_zero() -> Key {
        Key { w0: 0, w1: 0, w2: 0, w3: 0 }
    }

    pub fn zero() -> (r: Key)
        ensures
            r == Key::spec_zero(),
    {
        Key { w0: 0, w1: 0, w2: 0, w3: 0 }
    }

    /// A key whose first word is `n`; convenient for building distinct keys.
    pub fn from_u64(n: u64) -> (r: Key)
        ensures
            r == (Key { w0: n, w1: 0, w2: 0, w3: 0 }),
    {
        Key { w0: n, w1: 0, w2: 0, w3: 0 }
    }
}

/// An optional key is encodable on the wire only if it never holds the
/// all-zero address, which the format reserves for "none".
pub open spec fn spec_opt_key_encodable(k: Option<Key>) -> bool {
    match k {
        Some(key) => !key.spec_is_zero(),
        None => true,
    }
}

pub fn opt_key_encodable(k: &Option<Key>) -> (r: bool)
    ensures
        r == spec_opt_key_encodable(*k),
{
    match k {
        Some(key) => !key.is_zero(),
        None => true,
    }
}

} // verus!
