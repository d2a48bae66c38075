use vstd::prelude::*;

verus! {

/// The 32-byte public key that identifies an account on the ledger.
#[derive(Clone, Copy, Debug, PartialEq, Eq)]
pub struct Pubkey {
    pub bytes: [u8; 32],
}

impl View for Pubkey {
    type V = Seq<u8>;

    open spec fn view(&self) -> Seq<u8> {
        self.bytes@
    }
}

impl Pubkey {
    /// Builds a key from its raw bytes.
    pub fn new_from_array(bytes: [u8; 32]) -> (r: Pubkey)
        ensures
            r.bytes == bytes,
    {
        Pubkey { bytes }
    }

    /// Compares two keys byte by byte.
    pub fn same_as(&self, other: &Pubkey) -> (r: bool)
        ensures
            r == (*self == *other),
    {
        let mut i: usize = 0;
        while i < 32
            invariant
                0 <= i <= 32,
                forall|j: int| 0 <= j < i ==> self.bytes@[j] == other.bytes@[j],
            decreases 32 - i,
        {
            if self.bytes[i] != other.bytes[i] {
                return false;
            }
            i = i + 1;
        }
        proof {
            assert(self.bytes =~= other.bytes);
        }
        true
    }
}

} // verus!
