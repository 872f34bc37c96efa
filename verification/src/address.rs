//! Who a party is: an account or a contract, named by thirty-two bytes.

use vstd::prelude::*;

use crate::record::same_key;

verus! {

/// What an address names.
#[derive(Clone, Copy, Debug, PartialEq, Eq, Structural)]
pub enum AddressKind {
    /// An account; the payload is its public key.
    Account,
    /// A contract; the payload is its identifier hash.
    Contract,
}

/// A party to a contract call.
#[derive(Clone, Copy, Debug, PartialEq, Eq)]
pub struct Address {
    pub kind: AddressKind,
    pub payload: [u8; 32],
}

impl View for Address {
    type V = Address;

    open spec fn view(&self) -> Address {
        *self
    }
}

impl Address {
    /// The address of the account with public key `payload`.
    pub fn account(payload: [u8; 32]) -> (address: Address)
        ensures
            address == (Address { kind: AddressKind::Account, payload }),
    {
        Address { kind: AddressKind::Account, payload }
    }

    /// The address of the contract with identifier hash `payload`.
    pub fn contract(payload: [u8; 32]) -> (address: Address)
        ensures
            address == (Address { kind: AddressKind::Contract, payload }),
    {
        Address { kind: AddressKind::Contract, payload }
    }

    /// Whether `self` and `other` name the same party.
    pub fn same_as(&self, other: &Address) -> (same: bool)
        ensures
            same == (*self == *other),
    {
        let same_kind = match (self.kind, other.kind) {
            (AddressKind::Account, AddressKind::Account) => true,
            (AddressKind::Contract, AddressKind::Contract) => true,
            _ => false,
        };
        same_kind && same_key(&self.payload, &other.payload)
    }
}

/// Whether `caller` is the party that `required` names. Nobody is the party of an
/// unset requirement.
pub open spec fn is_party(required: Option<Address>, caller: Address) -> bool {
    required == Some(caller)
}

/// Whether `caller` is the party that `required` names.
pub fn check_party(required: &Option<Address>, caller: &Address) -> (allowed: bool)
    ensures
        allowed == is_party(*required, *caller),
{
    match required {
        Some(party) => party.same_as(caller),
        None => false,
    }
}

} // verus!
