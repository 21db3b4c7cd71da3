use vstd::prelude::*;

use crate::error::VIOPMigrationError;

verus! {

/// An opaque, comparable principal: the 32 bytes of a public key.
#[derive(Clone, Copy, Debug)]
pub struct Identity {
    pub bytes: [u8; 32],
}

impl View for Identity {
    type V = Seq<u8>;

    open spec fn view(&self) -> Seq<u8> {
        self.bytes@
    }
}

/// What checking `caller` against `expected` gives: success exactly when the
/// two identities are bitwise equal.
pub open spec fn identity_check(caller: Identity, expected: Identity) -> Result<(), VIOPMigrationError> {
    if caller@ == expected@ {
        Ok(())
    } else {
        Err(VIOPMigrationError::Unauthorized)
    }
}

impl Identity {
    pub fn new(bytes: [u8; 32]) -> (r: Identity)
        ensures
            r.bytes == bytes,
    {
        Identity { bytes }
    }

    pub fn to_bytes(&self) -> (r: [u8; 32])
        ensures
            r == self.bytes,
    {
        self.bytes
    }

    /// Whether the two identities are bitwise equal.
    pub fn same_as(&self, other: &Identity) -> (r: bool)
        ensures
            r == (self@ == other@),
    {
        let mut i: usize = 0;
        while i < 32
            invariant
                0 <= i <= 32,
                self@.len() == 32,
                other@.len() == 32,
                forall|k: int| 0 <= k < i ==> self@[k] == other@[k],
            decreases 32 - i,
        {
            if self.bytes[i] != other.bytes[i] {
                return false;
            }
            i = i + 1;
        }
        assert(self@ =~= other@);
        true
    }
}

/// Checks a caller's identity against the stored administrator identity.
/// Has no side effects.
pub fn verify(caller: &Identity, expected: &Identity) -> (r: Result<(), VIOPMigrationError>)
    ensures
        r == identity_check(*caller, *expected),
{
    if caller.same_as(expected) {
        Ok(())
    } else {
        Err(VIOPMigrationError::Unauthorized)
    }
}

} // verus!
