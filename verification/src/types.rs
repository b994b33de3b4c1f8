//! The plain values that the pallet stores, takes and emits.

use vstd::prelude::*;
use crate::table::TableKey;

verus! {

/// Whether two 32-byte arrays hold the same bytes.
pub fn same_bytes(a: &[u8; 32], b: &[u8; 32]) -> (r: bool)
    ensures
        r == (*a == *b),
{
    let mut i: usize = 0;
    while i < 32
        invariant
            i <= 32,
            forall|j: int| 0 <= j < i ==> a[j] == b[j],
        decreases 32 - i,
    {
        if a[i] != b[i] {
            return false;
        }
        i = i + 1;
    }
    proof {
        broadcast use vstd::array::group_array_axioms;

        assert(*a =~= *b);
    }
    true
}

/// An account of the chain, given by its 32 bytes.
#[derive(Clone, Copy, Debug, PartialEq, Eq)]
pub struct AccountId {
    pub bytes: [u8; 32],
}

/// The identifier of a property: a 32-byte hash.
#[derive(Clone, Copy, Debug, PartialEq, Eq)]
pub struct PropertyId {
    pub bytes: [u8; 32],
}

impl AccountId {
    /// The account that storage reads give back where nothing was stored: all bytes zero.
    pub open spec fn spec_zero() -> AccountId {
        AccountId { bytes: vstd::array::spec_array_fill_for_copy_type::<u8, 32>(0u8) }
    }

    pub fn zero() -> (r: AccountId)
        ensures
            r == AccountId::spec_zero(),
    {
        AccountId { bytes: [0u8; 32] }
    }
}

impl TableKey for AccountId {
    fn same_key(&self, other: &Self) -> (r: bool) {
        same_bytes(&self.bytes, &other.bytes)
    }
}

impl TableKey for PropertyId {
    fn same_key(&self, other: &Self) -> (r: bool) {
        same_bytes(&self.bytes, &other.bytes)
    }
}

impl TableKey for (PropertyId, u32) {
    fn same_key(&self, other: &Self) -> (r: bool) {
        self.1 == other.1 && same_bytes(&self.0.bytes, &other.0.bytes)
    }
}

impl TableKey for (PropertyId, AccountId) {
    fn same_key(&self, other: &Self) -> (r: bool) {
        same_bytes(&self.0.bytes, &other.0.bytes) && same_bytes(&self.1.bytes, &other.1.bytes)
    }
}

/// What is stored of a property: its details and the price it was created with.
#[derive(Clone, Copy, Debug, PartialEq, Eq)]
pub struct Property {
    pub details: u64,
    pub initialprice: i32,
}

/// Who sent a call: the chain itself, a signed account, or nobody (an unsigned call).
#[derive(Clone, Copy, Debug, PartialEq, Eq)]
pub enum Origin {
    Root,
    Signed(AccountId),
    Unsigned,
}

/// The pallet's own errors.
#[derive(Clone, Copy, Debug, PartialEq, Eq)]
pub enum Error {
    /// Handles checking whether the Property exists.
    PropertyNotExist,
    /// Handles checking that the Property is owned by the account transferring, buying or setting a price for it.
    NotPropertyOwner,
    /// Ensures that the buying price is greater than the asking price.
    NoAvailableTokens,
    /// Ensures that an account has enough funds to purchase a Property.
    NotEnoughBalance,
    NotAdminAccount,
    /// Handles checking that a Property to be created does not exist yet.
    PropertyAlreadyExist,
}

/// Why a call was refused: a wrong origin, or an error of the pallet.
#[derive(Clone, Copy, Debug, PartialEq, Eq)]
pub enum DispatchError {
    BadOrigin,
    Module(Error),
}

/// The events that the pallet deposits.
#[allow(non_camel_case_types)]
#[derive(Clone, Copy, Debug, PartialEq, Eq)]
pub enum Event {
    AdminAccountAdded(AccountId),
    ComissionAccountAdded(AccountId),
    /// A new Property was successfully created. \[sender, property_id\]
    Created(AccountId, PropertyId),
    /// A Property was successfully deleted. \[sender, property_id\]
    Deleted(AccountId, PropertyId),
    Delete_UnSucessfull(AccountId, PropertyId),
    /// Property price was successfully set. \[sender, property_id, new_price\]
    PriceModified(AccountId, PropertyId, i32),
    Sold(AccountId, PropertyId),
    SellError(AccountId, PropertyId),
    /// Tokens were successfully bought. \[buyer, property_id\]
    Bought(AccountId, PropertyId),
    DetailModified(AccountId, PropertyId),
    SellComissionPercentAdded(u32),
    BuyComissionPercentAdded(u32),
}

/// A movement of funds between two accounts, to be made by the chain's currency.
#[derive(Clone, Copy, Debug, PartialEq, Eq)]
pub struct Transfer {
    pub from: AccountId,
    pub to: AccountId,
    pub amount: u128,
}

} // verus!
