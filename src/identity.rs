use vstd::prelude::*;

verus! {

/// The 20-byte identity of an account or a contract. The all-zero identity
/// is the sentinel for "unset".
#[derive(Debug, Clone, Copy, PartialEq, Eq)]
pub struct Identity {
    pub bytes: [u8; 20],
}

impl Identity {
    /// Whether this is the all-zero sentinel.
    pub open spec fn is_unset(self) -> bool {
        forall|i: int| 0 <= i < 20 ==> #[trigger] self.bytes@[i] == 0
    }

    pub fn new(bytes: [u8; 20]) -> (r: Identity)
        ensures
            r.bytes@ == bytes@,
    {
        Identity { bytes }
    }

    /// The all-zero sentinel identity.
    pub fn zero() -> (r: Identity)
        ensures
            r.is_unset(),
    {
        let r = Identity { bytes: [0u8; 20] };
        assert(r.bytes@ =~= Seq::new(20, |i: int| 0u8));
        r
    }

    pub fn bytes(&self) -> (r: [u8; 20])
        ensures
            r@ == self.bytes@,
    {
        self.bytes
    }

    pub fn is_zero(&self) -> (r: bool)
        ensures
            r == self.is_unset(),
    {
        let mut i: usize = 0;
        while i < 20
            invariant
                i <= 20,
                forall|j: int| 0 <= j < i ==> #[trigger] self.bytes@[j] == 0,
            decreases 20 - i,
        {
            if self.bytes[i] != 0 {
                return false;
            }
            i = i + 1;
        }
        true
    }
}

} // verus!
