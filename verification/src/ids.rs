use vstd::prelude::*;

verus! {

/// A 256-bit account identity: the core's stand-in for an address on the
/// custody platform. The all-zero value is the null identity, which is
/// rejected wherever a configured authority is required.
#[derive(Clone, Copy, PartialEq, Eq, Structural, Debug, Hash)]
pub struct AccountId {
    pub hi: u128,
    pub lo: u128,
}

impl AccountId {
    /// Whether this is the null (all-zero) identity.
    pub open spec fn spec_is_null(self) -> bool {
        self.hi == 0 && self.lo == 0
    }

    #[verifier::when_used_as_spec(spec_is_null)]
    pub fn is_null(self) -> (r: bool)
        ensures
            r == self.spec_is_null(),
    {
        self.hi == 0 && self.lo == 0
    }

    /// The null identity.
    pub fn null() -> (r: AccountId)
        ensures
            r.spec_is_null(),
    {
        AccountId { hi: 0, lo: 0 }
    }
}

} // verus!
