//! Account identities: who calls, who owns the club, who is authorized.

use vstd::prelude::*;

verus! {

/// A 32-byte account identity.
#[derive(Clone, Copy, Debug)]
pub struct AccountId(pub [u8; 32]);

impl PartialEq for AccountId {
    fn eq(&self, otra: &AccountId) -> (r: bool) {
        let mut i: usize = 0;
        while i < 32
            invariant
                0 <= i <= 32,
                forall|k: int| 0 <= k < i ==> self.0@[k] == otra.0@[k],
            decreases 32 - i,
        {
            if self.0[i] != otra.0[i] {
                return false;
            }
            i = i + 1;
        }
        assert(self.0@ =~= otra.0@);
        true
    }
}

impl vstd::std_specs::cmp::PartialEqSpecImpl for AccountId {
    open spec fn obeys_eq_spec() -> bool {
        true
    }

    open spec fn eq_spec(&self, otra: &AccountId) -> bool {
        self.0@ == otra.0@
    }
}

impl Eq for AccountId {
}

/// Equal byte contents make equal identities.
pub proof fn lema_cuenta_por_bytes(a: AccountId, b: AccountId)
    ensures
        a.0@ == b.0@ <==> a == b,
{
    if a.0@ == b.0@ {
        assert(a.0 =~= b.0);
    }
}

} // verus!
