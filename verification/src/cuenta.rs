//! The identity of whoever calls an operation.

use vstd::prelude::*;

verus! {

/// An account: 32 bytes that identify a caller, an owner or a staff member.
#[derive(Clone, Copy, Debug)]
pub struct AccountId {
    pub bytes: [u8; 32],
}

impl AccountId {
    /// The account with the given bytes.
    pub fn new(bytes: [u8; 32]) -> (cuenta: AccountId)
        ensures
            cuenta.bytes == bytes,
    {
        AccountId { bytes }
    }

    /// Whether two accounts are the same, byte for byte.
    pub fn es_igual(&self, otra: &AccountId) -> (iguales: bool)
        ensures
            iguales == (*self == *otra),
    {
        let mut i: usize = 0;
        while i < 32
            invariant
                0 <= i <= 32,
                forall|k: int| 0 <= k < i ==> self.bytes[k] == otra.bytes[k],
            decreases 32 - i,
        {
            if self.bytes[i] != otra.bytes[i] {
                return false;
            }
            i += 1;
        }
        assert(self.bytes =~= otra.bytes);
        true
    }
}

impl PartialEq for AccountId {
    fn eq(&self, other: &AccountId) -> (iguales: bool) {
        self.es_igual(other)
    }
}

impl Eq for AccountId {

}

impl vstd::std_specs::cmp::PartialEqSpecImpl for AccountId {
    open spec fn obeys_eq_spec() -> bool {
        true
    }

    open spec fn eq_spec(&self, other: &AccountId) -> bool {
        *self == *other
    }
}

impl From<[u8; 32]> for AccountId {
    fn from(bytes: [u8; 32]) -> (cuenta: AccountId) {
        AccountId::new(bytes)
    }
}

impl vstd::std_specs::convert::FromSpecImpl<[u8; 32]> for AccountId {
    open spec fn obeys_from_spec() -> bool {
        true
    }

    open spec fn from_spec(bytes: [u8; 32]) -> AccountId {
        AccountId { bytes }
    }
}

/// Whether `cuenta` occurs in `cuentas`.
pub open spec fn contiene_cuenta(cuentas: Seq<AccountId>, cuenta: AccountId) -> bool {
    exists|i: int| 0 <= i < cuentas.len() && cuentas[i] == cuenta
}

/// The first position of `cuenta` in `cuentas`, where it occurs.
pub fn posicion_cuenta(cuentas: &Vec<AccountId>, cuenta: &AccountId) -> (pos: Option<usize>)
    ensures
        pos is None <==> !contiene_cuenta(cuentas@, *cuenta),
        pos matches Some(p) ==> p < cuentas.len() && cuentas[p as int] == *cuenta && forall|k: int|
            0 <= k < p ==> cuentas[k] != *cuenta,
{
    let mut i: usize = 0;
    while i < cuentas.len()
        invariant
            0 <= i <= cuentas.len(),
            forall|k: int| 0 <= k < i ==> cuentas[k] != *cuenta,
        decreases cuentas.len() - i,
    {
        if cuentas[i].es_igual(cuenta) {
            return Some(i);
        }
        i += 1;
    }
    None
}

} // verus!
