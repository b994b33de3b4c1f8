//! The pallet: its storage, its calls and its helpers.

use vstd::prelude::*;
use crate::hashing::{hash_property, lemma_hashed_id, property_id};
use crate::laws::{
    law_balanced_purchase_cannot_overdraw, law_burn_keeps_consistency,
    law_detail_change_keeps_consistency, law_event_keeps_consistency, law_mint_keeps_consistency,
    law_purchase_keeps_consistency, law_reprice_keeps_consistency, law_sale_keeps_consistency,
    law_sale_stays_within_tokens, law_settings_keep_consistency,
};
use crate::model::{PalletModel, unit_quotient, trunc_div};
use crate::table::StorageTable;
use crate::types::{AccountId, DispatchError, Error, Event, Origin, Property, PropertyId, Transfer};

verus! {

/// The pallet's storage, held in memory, with the events deposited so far.
pub struct Pallet {
    admin_acc: StorageTable<AccountId, u32>,
    comission_acc: StorageTable<u32, AccountId>,
    sell_comission: StorageTable<u32, u32>,
    buy_comission: StorageTable<u32, u32>,
    property_cnt: u32,
    properties: StorageTable<PropertyId, Property>,
    property_price: StorageTable<PropertyId, i32>,
    primary_property_owners: StorageTable<PropertyId, AccountId>,
    token_circulation: StorageTable<PropertyId, i32>,
    token_price: StorageTable<PropertyId, i32>,
    properties_ownership: StorageTable<(PropertyId, u32), (AccountId, u32)>,
    secondary_owner_index: StorageTable<PropertyId, u32>,
    secondary_owner: StorageTable<(PropertyId, AccountId), u32>,
    events: Vec<Event>,
}

impl View for Pallet {
    type V = PalletModel;

    closed spec fn view(&self) -> PalletModel {
        PalletModel {
            admin_acc: self.admin_acc@,
            comission_acc: self.comission_acc@,
            sell_comission: self.sell_comission@,
            buy_comission: self.buy_comission@,
            property_cnt: self.property_cnt,
            properties: self.properties@,
            property_price: self.property_price@,
            primary_owners: self.primary_property_owners@,
            token_circulation: self.token_circulation@,
            token_price: self.token_price@,
            ownership: self.properties_ownership@,
            secondary_owner_index: self.secondary_owner_index@,
            secondary_owner: self.secondary_owner@,
            events: self.events@,
        }
    }
}

/// The account that signed `origin`, or `BadOrigin` when it is not signed.
pub fn ensure_signed(origin: Origin) -> (r: Result<AccountId, DispatchError>)
    ensures
        match origin {
            Origin::Signed(who) => r == Ok::<AccountId, DispatchError>(who),
            _ => r == Err::<AccountId, DispatchError>(DispatchError::BadOrigin),
        },
{
    match origin {
        Origin::Signed(who) => Ok(who),
        _ => Err(DispatchError::BadOrigin),
    }
}

/// `Ok` when `origin` is the chain itself, `BadOrigin` otherwise.
pub fn ensure_root(origin: Origin) -> (r: Result<(), DispatchError>)
    ensures
        match origin {
            Origin::Root => r == Ok::<(), DispatchError>(()),
            _ => r == Err::<(), DispatchError>(DispatchError::BadOrigin),
        },
{
    match origin {
        Origin::Root => Ok(()),
        _ => Err(DispatchError::BadOrigin),
    }
}

impl Pallet {
    /// Every table keeps its own invariant, and the storage is consistent.
    pub closed spec fn wf(&self) -> bool {
        &&& self@.consistent()
        &&& self.admin_acc.wf()
        &&& self.comission_acc.wf()
        &&& self.sell_comission.wf()
        &&& self.buy_comission.wf()
        &&& self.properties.wf()
        &&& self.property_price.wf()
        &&& self.primary_property_owners.wf()
        &&& self.token_circulation.wf()
        &&& self.token_price.wf()
        &&& self.properties_ownership.wf()
        &&& self.secondary_owner_index.wf()
        &&& self.secondary_owner.wf()
    }

    /// The pallet with empty storage and no events.
    pub fn new() -> (p: Pallet)
        ensures
            p.wf(),
            p@.consistent(),
            p@ == (PalletModel {
                admin_acc: Map::empty(),
                comission_acc: Map::empty(),
                sell_comission: Map::empty(),
                buy_comission: Map::empty(),
                property_cnt: 0,
                properties: Map::empty(),
                property_price: Map::empty(),
                primary_owners: Map::empty(),
                token_circulation: Map::empty(),
                token_price: Map::empty(),
                ownership: Map::empty(),
                secondary_owner_index: Map::empty(),
                secondary_owner: Map::empty(),
                events: Seq::empty(),
            }),
    {
        let p = Pallet {
            admin_acc: StorageTable::new(),
            comission_acc: StorageTable::new(),
            sell_comission: StorageTable::new(),
            buy_comission: StorageTable::new(),
            property_cnt: 0,
            properties: StorageTable::new(),
            property_price: StorageTable::new(),
            primary_property_owners: StorageTable::new(),
            token_circulation: StorageTable::new(),
            token_price: StorageTable::new(),
            properties_ownership: StorageTable::new(),
            secondary_owner_index: StorageTable::new(),
            secondary_owner: StorageTable::new(),
            events: Vec::new(),
        };
        assert(p@.properties.dom() =~= Set::empty());
        p
    }

    fn deposit_event(&mut self, e: Event)
        requires
            old(self).wf(),
        ensures
            final(self).wf(),
            final(self)@ == old(self)@.with_event(e),
    {
        proof {
            law_event_keeps_consistency(self@, e);
        }
        self.events.push(e);
    }

    ///Add an admin to the Pallet
    pub fn add_superadmin(&mut self, origin: Origin, admin: AccountId) -> (r: Result<(), DispatchError>)
        requires
            old(self).wf(),
        ensures
            old(self)@.consistent() ==> final(self)@.consistent(),
            final(self).wf(),
            match origin {
                Origin::Root => r == Ok::<(), DispatchError>(()) && final(self)@ == (PalletModel {
                    admin_acc: old(self)@.admin_acc.insert(admin, 1),
                    ..old(self)@
                }).with_event(Event::AdminAccountAdded(admin)),
                _ => r == Err::<(), DispatchError>(DispatchError::BadOrigin) && final(self)@ == old(self)@,
            },
    {
        ensure_root(origin)?;
        self.admin_acc.insert(admin, 1);
        proof {
            law_settings_keep_consistency(old(self)@, self@);
        }
        self.deposit_event(Event::AdminAccountAdded(admin));
        Ok(())
    }

    ///Add a comission account to the Plattform
    pub fn add_comissionacount(&mut self, origin: Origin, comissionacount: AccountId) -> (r: Result<(), DispatchError>)
        requires
            old(self).wf(),
        ensures
            old(self)@.consistent() ==> final(self)@.consistent(),
            final(self).wf(),
            match origin {
                Origin::Root => r == Ok::<(), DispatchError>(()) && final(self)@ == (PalletModel {
                    comission_acc: old(self)@.comission_acc.insert(0, comissionacount),
                    ..old(self)@
                }).with_event(Event::ComissionAccountAdded(comissionacount)),
                _ => r == Err::<(), DispatchError>(DispatchError::BadOrigin) && final(self)@ == old(self)@,
            },
    {
        ensure_root(origin)?;
        self.comission_acc.insert(0, comissionacount);
        proof {
            law_settings_keep_consistency(old(self)@, self@);
        }
        self.deposit_event(Event::ComissionAccountAdded(comissionacount));
        Ok(())
    }

    ///Add a Sell comission percent to the Plattform
    pub fn add_sellcomissionpercent(&mut self, origin: Origin, comissionpercent: u32) -> (r: Result<(), DispatchError>)
        requires
            old(self).wf(),
        ensures
            old(self)@.consistent() ==> final(self)@.consistent(),
            final(self).wf(),
            match origin {
                Origin::Root => r == Ok::<(), DispatchError>(()) && final(self)@ == (PalletModel {
                    sell_comission: old(self)@.sell_comission.insert(0, comissionpercent),
                    ..old(self)@
                }).with_event(Event::SellComissionPercentAdded(comissionpercent)),
                _ => r == Err::<(), DispatchError>(DispatchError::BadOrigin) && final(self)@ == old(self)@,
            },
    {
        ensure_root(origin)?;
        self.sell_comission.insert(0, comissionpercent);
        proof {
            law_settings_keep_consistency(old(self)@, self@);
        }
        self.deposit_event(Event::SellComissionPercentAdded(comissionpercent));
        Ok(())
    }

    ///Add a Purchase comission percent to the Plattform
    pub fn add_buycomissionpercent(&mut self, origin: Origin, comissionpercent: u32) -> (r: Result<(), DispatchError>)
        requires
            old(self).wf(),
        ensures
            old(self)@.consistent() ==> final(self)@.consistent(),
            final(self).wf(),
            match origin {
                Origin::Root => r == Ok::<(), DispatchError>(()) && final(self)@ == (PalletModel {
                    buy_comission: old(self)@.buy_comission.insert(0, comissionpercent),
                    ..old(self)@
                }).with_event(Event::BuyComissionPercentAdded(comissionpercent)),
                _ => r == Err::<(), DispatchError>(DispatchError::BadOrigin) && final(self)@ == old(self)@,
            },
    {
        ensure_root(origin)?;
        self.buy_comission.insert(0, comissionpercent);
        proof {
            law_settings_keep_consistency(old(self)@, self@);
        }
        self.deposit_event(Event::BuyComissionPercentAdded(comissionpercent));
        Ok(())
    }
}

impl Pallet {
    fn ownership_entry(&self, id: PropertyId, idx: u32) -> (r: (AccountId, u32))
        requires
            self.properties_ownership.wf(),
        ensures
            r.0 == self@.account_at(id, idx),
            r.1 == self@.balance_at(id, idx),
    {
        match self.properties_ownership.get(&(id, idx)) {
            Some(e) => e,
            None => (AccountId::zero(), 0),
        }
    }

    fn owner_count(&self, id: PropertyId) -> (r: u32)
        requires
            self.secondary_owner_index.wf(),
        ensures
            r == self@.owner_count(id),
    {
        match self.secondary_owner_index.get(&id) {
            Some(c) => c,
            None => 0,
        }
    }

    /// Stores a new property under `property_id`: its data, its price, its primary owner, a
    /// token circulation equal to the price, a token price of 1, and the price as the primary
    /// owner's token balance at slot 0; the counter goes up by one. An identifier that is
    /// already stored is refused with `PropertyAlreadyExist` and nothing changes.
    pub fn register_property(
        &mut self,
        property_id: PropertyId,
        owner: &AccountId,
        details: u64,
        price: i32,
    ) -> (r: Result<(), Error>)
        requires
            old(self).wf(),
            old(self)@.property_cnt < u32::MAX,
            price >= 0,
        ensures
            final(self).wf(),
            final(self)@.consistent(),
            if old(self)@.properties.contains_key(property_id) {
                r == Err::<(), Error>(Error::PropertyAlreadyExist) && final(self)@ == old(self)@
            } else {
                r == Ok::<(), Error>(()) && final(self)@ == old(self)@.minted(property_id, *owner, details, price)
            },
    {
        if self.properties.contains_key(&property_id) {
            return Err(Error::PropertyAlreadyExist);
        }
        let property = Property { details, initialprice: price };
        let new_cnt = self.property_cnt.checked_add(1).unwrap();
        self.property_cnt = new_cnt;
        self.properties.insert(property_id, property);
        self.property_price.insert(property_id, price);
        self.primary_property_owners.insert(property_id, *owner);
        self.token_circulation.insert(property_id, price);
        self.token_price.insert(property_id, 1);
        let price_u32: u32 = price as u32;
        self.properties_ownership.insert((property_id, 0), (*owner, price_u32));
        proof {
            law_mint_keeps_consistency(old(self)@, property_id, *owner, details, price);
        }
        Ok(())
    }

    // Helper to mint a Property.
    /// Mints a property: its identifier is the hash of its details and price, and it is
    /// registered under that identifier unless a property is already stored there.
    pub fn mint(&mut self, owner: &AccountId, details: u64, price: i32) -> (r: Result<PropertyId, Error>)
        requires
            old(self).wf(),
            old(self)@.property_cnt < u32::MAX,
            price >= 0,
        ensures
            final(self).wf(),
            final(self)@.consistent(),
            if old(self)@.properties.contains_key(property_id(details, price)) {
                r == Err::<PropertyId, Error>(Error::PropertyAlreadyExist) && final(self)@ == old(self)@
            } else {
                r == Ok::<PropertyId, Error>(property_id(details, price)) && final(self)@ == old(
                    self,
                )@.minted(property_id(details, price), *owner, details, price)
            },
    {
        let property_id = hash_property(details, price);
        proof {
            lemma_hashed_id(details, price, property_id);
        }
        match self.register_property(property_id, owner, details, price) {
            Ok(()) => Ok(property_id),
            Err(e) => Err(e),
        }
    }

    /// Create a new unique Property.
    /// The actual Property creation is done in the `mint()` function.
    pub fn create_property(&mut self, origin: Origin, owner: AccountId, details: u64, price: i32) -> (r: Result<(), DispatchError>)
        requires
            old(self).wf(),
            origin matches Origin::Signed(s) && old(self)@.admin_acc.contains_key(s) ==> {
                old(self)@.property_cnt < u32::MAX && price >= 0
            },
        ensures
            final(self).wf(),
            final(self)@.consistent(),
            match origin {
                Origin::Signed(s) => if !old(self)@.admin_acc.contains_key(s) {
                    r == Err::<(), DispatchError>(DispatchError::Module(Error::NotAdminAccount))
                        && final(self)@ == old(self)@
                } else if old(self)@.properties.contains_key(property_id(details, price)) {
                    r == Err::<(), DispatchError>(DispatchError::Module(Error::PropertyAlreadyExist))
                        && final(self)@ == old(self)@
                } else {
                    r == Ok::<(), DispatchError>(()) && final(self)@ == old(self)@.minted(
                        property_id(details, price),
                        owner,
                        details,
                        price,
                    ).with_event(Event::Created(s, property_id(details, price)))
                },
                _ => r == Err::<(), DispatchError>(DispatchError::BadOrigin) && final(self)@ == old(self)@,
            },
    {
        let sender = ensure_signed(origin)?;
        if !self.admin_acc.contains_key(&sender) {
            return Err(DispatchError::Module(Error::NotAdminAccount));
        }
        let property_id = match self.mint(&owner, details, price) {
            Ok(id) => id,
            Err(e) => {
                return Err(DispatchError::Module(e));
            },
        };
        self.deposit_event(Event::Created(sender, property_id));
        Ok(())
    }

    /// Modify the details for a Property.
    ///
    /// Updates Property details and updates storage.
    pub fn modify_property_details(&mut self, origin: Origin, property_id: PropertyId, detail: u64) -> (r: Result<(), DispatchError>)
        requires
            old(self).wf(),
        ensures
            final(self).wf(),
            final(self)@.consistent(),
            match origin {
                Origin::Signed(s) => if !old(self)@.admin_acc.contains_key(s) {
                    r == Err::<(), DispatchError>(DispatchError::Module(Error::NotAdminAccount))
                        && final(self)@ == old(self)@
                } else if !old(self)@.properties.contains_key(property_id) {
                    r == Err::<(), DispatchError>(DispatchError::Module(Error::PropertyNotExist))
                        && final(self)@ == old(self)@
                } else {
                    r == Ok::<(), DispatchError>(()) && final(self)@ == (PalletModel {
                        properties: old(self)@.properties.insert(
                            property_id,
                            Property { details: detail, ..old(self)@.properties[property_id] },
                        ),
                        ..old(self)@
                    }).with_event(Event::DetailModified(s, property_id))
                },
                _ => r == Err::<(), DispatchError>(DispatchError::BadOrigin) && final(self)@ == old(self)@,
            },
    {
        let sender = ensure_signed(origin)?;
        if !self.admin_acc.contains_key(&sender) {
            return Err(DispatchError::Module(Error::NotAdminAccount));
        }
        let mut property = match self.properties.get(&property_id) {
            Some(p) => p,
            None => {
                return Err(DispatchError::Module(Error::PropertyNotExist));
            },
        };
        property.details = detail;
        self.properties.insert(property_id, property);
        proof {
            law_detail_change_keeps_consistency(old(self)@, property_id, property);
        }
        self.deposit_event(Event::DetailModified(sender, property_id));
        Ok(())
    }
}

/// `1 / tokenprice` for a non-zero token price, truncated toward zero as Rust's `/` does.
fn unit_div(tokenprice: i32) -> (r: i32)
    requires
        tokenprice != 0,
    ensures
        r == unit_quotient(tokenprice),
{
    if tokenprice == 1 {
        1
    } else if tokenprice == -1 {
        -1
    } else {
        0
    }
}

/// `a / b` on `i32`, truncated toward zero as Rust's `/` does.
pub fn div_toward_zero(a: i32, b: i32) -> (r: i32)
    requires
        b != 0,
        trunc_div(a as int, b as int) <= i32::MAX,
    ensures
        r == trunc_div(a as int, b as int),
{
    let ua: i64 = if a < 0 { -(a as i64) } else { a as i64 };
    let ub: i64 = if b < 0 { -(b as i64) } else { b as i64 };
    let q: i64 = ua / ub;
    assert(0 <= q <= ua) by (nonlinear_arith)
        requires
            q == ua / ub,
            ua >= 0,
            ub >= 1,
    ;
    if (a < 0) == (b < 0) {
        q as i32
    } else {
        (-q) as i32
    }
}

impl Pallet {
    /// Modify the price for a Property.
    ///
    /// Updates Property price and updates storage.
    pub fn modify_property_price(&mut self, origin: Origin, property_id: PropertyId, new_price: i32) -> (r: Result<(), DispatchError>)
        requires
            old(self).wf(),
            origin matches Origin::Signed(s) && old(self)@.admin_acc.contains_key(s) ==> (old(
                self,
            )@.properties.contains_key(property_id) ==> old(self)@.reprice_defined(property_id, new_price)),
        ensures
            final(self).wf(),
            final(self)@.consistent(),
            match origin {
                Origin::Signed(s) => if !old(self)@.admin_acc.contains_key(s) {
                    r == Err::<(), DispatchError>(DispatchError::Module(Error::NotAdminAccount))
                        && final(self)@ == old(self)@
                } else if !old(self)@.properties.contains_key(property_id) {
                    r == Err::<(), DispatchError>(DispatchError::Module(Error::PropertyNotExist))
                        && final(self)@ == old(self)@
                } else {
                    r == Ok::<(), DispatchError>(()) && final(self)@ == (PalletModel {
                        property_price: old(self)@.property_price.insert(property_id, new_price),
                        token_price: old(self)@.token_price.insert(
                            property_id,
                            PalletModel::repriced_token(
                                old(self)@.property_price[property_id],
                                new_price,
                            ) as i32,
                        ),
                        ..old(self)@
                    }).with_event(Event::PriceModified(s, property_id, new_price))
                },
                _ => r == Err::<(), DispatchError>(DispatchError::BadOrigin) && final(self)@ == old(self)@,
            },
    {
        let sender = ensure_signed(origin)?;
        if !self.admin_acc.contains_key(&sender) {
            return Err(DispatchError::Module(Error::NotAdminAccount));
        }
        if !self.properties.contains_key(&property_id) {
            return Err(DispatchError::Module(Error::PropertyNotExist));
        }
        let old_price = self.property_price.get(&property_id).unwrap();
        self.property_price.insert(property_id, new_price);
        let difference: i32 = new_price - old_price;
        let percent: i32 = div_toward_zero(difference, old_price) * 100;
        let newtokenprice: i32 = old_price + (percent * 100);
        self.token_price.insert(property_id, newtokenprice);
        proof {
            law_reprice_keeps_consistency(old(self)@, property_id, new_price, newtokenprice);
        }
        self.deposit_event(Event::PriceModified(sender, property_id, new_price));
        Ok(())
    }

    /// The platform's commission account stored under `key`, or the zero account.
    pub fn comissionacc(&self, key: u32) -> (r: AccountId)
        requires
            self.wf(),
        ensures
            r == (match self@.comission_acc.get(key) {
                Some(a) => a,
                None => AccountId::spec_zero(),
            }),
    {
        match self.comission_acc.get(&key) {
            Some(a) => a,
            None => AccountId::zero(),
        }
    }

    /// The sale commission percent stored under `key`, or 0.
    pub fn sellcomission(&self, key: u32) -> (r: u32)
        requires
            self.wf(),
        ensures
            r == (match self@.sell_comission.get(key) {
                Some(p) => p,
                None => 0,
            }),
    {
        match self.sell_comission.get(&key) {
            Some(p) => p,
            None => 0,
        }
    }

    /// The purchase commission percent stored under `key`, or 0.
    pub fn buycomission(&self, key: u32) -> (r: u32)
        requires
            self.wf(),
        ensures
            r == (match self@.buy_comission.get(key) {
                Some(p) => p,
                None => 0,
            }),
    {
        match self.buy_comission.get(&key) {
            Some(p) => p,
            None => 0,
        }
    }

    // Helper to finalise transaction payment.
    /// Settles a payment of `transaction_amt` from `buyer` to `seller`: the commission is the
    /// purchase or sale percent of the amount, rounded down; the buyer must hold the amount
    /// plus the commission and the seller the commission (`buyer_free` and `seller_free` are
    /// their free balances). When both do, the transfers to make are returned: the amount from
    /// buyer to seller, then the commission from the buyer and from the seller to the
    /// commission account; otherwise `None`.
    pub fn finalisetransaction(
        &self,
        seller: AccountId,
        buyer: AccountId,
        transaction_amt: u32,
        is_buy_token: bool,
        buyer_free: u128,
        seller_free: u128,
    ) -> (r: Option<Vec<Transfer>>)
        requires
            self.wf(),
            self@.settlement_defined(transaction_amt, is_buy_token),
        ensures
            match r {
                Some(v) => self@.settlement(seller, buyer, transaction_amt, is_buy_token, buyer_free, seller_free)
                    == Some(v@),
                None => self@.settlement(seller, buyer, transaction_amt, is_buy_token, buyer_free, seller_free)
                    is None,
            },
    {
        let comissionaccount = self.comissionacc(0);
        let comissionpercent = if is_buy_token {
            self.buycomission(0)
        } else {
            self.sellcomission(0)
        };
        let comissionamt = (transaction_amt * comissionpercent) / 100;
        let totalamt = transaction_amt + comissionamt;
        let totalamtcrypto = totalamt as u128;
        let comissioncrypto = comissionamt as u128;
        let transactionamtcrypto = transaction_amt as u128;
        if buyer_free < totalamtcrypto {
            return None;
        }
        if seller_free < comissioncrypto {
            return None;
        }
        let mut transfers: Vec<Transfer> = Vec::new();
        transfers.push(Transfer { from: buyer, to: seller, amount: transactionamtcrypto });
        transfers.push(Transfer { from: buyer, to: comissionaccount, amount: comissioncrypto });
        transfers.push(Transfer { from: seller, to: comissionaccount, amount: comissioncrypto });
        Some(transfers)
    }
}


impl Pallet {
    /// Buy a property token.
    ///
    /// `buyer_free` is the free balance of the signer and `seller_free` that of the
    /// property's primary owner, as the chain's currency reports them. On success the result
    /// lists the transfers that pay for the purchase; a buyer or seller who cannot cover the
    /// payment gets `NotEnoughBalance` and nothing changes.
    pub fn buy_propertytoken(
        &mut self,
        origin: Origin,
        property_id: PropertyId,
        nooftokens: i32,
        buyer_free: u128,
        seller_free: u128,
    ) -> (r: Result<Vec<Transfer>, DispatchError>)
        requires
            old(self).wf(),
            old(self)@.buy_defined(origin, property_id, nooftokens, buyer_free, seller_free),
        ensures
            final(self).wf(),
            final(self)@.consistent(),
            match origin {
                Origin::Signed(buyer) => if !old(self)@.properties.contains_key(property_id) {
                    r == Err::<Vec<Transfer>, DispatchError>(
                        DispatchError::Module(Error::PropertyNotExist),
                    ) && final(self)@ == old(self)@
                } else if old(self)@.token_circulation[property_id] - nooftokens < 0 {
                    r == Err::<Vec<Transfer>, DispatchError>(
                        DispatchError::Module(Error::NoAvailableTokens),
                    ) && final(self)@ == old(self)@
                } else {
                    match old(self)@.settlement(
                        old(self)@.primary_owners[property_id],
                        buyer,
                        old(self)@.trade_price(property_id, nooftokens) as u32,
                        true,
                        buyer_free,
                        seller_free,
                    ) {
                        Some(ts) => r matches Ok(v) && v@ == ts && final(self)@ == old(self)@.purchased(buyer, property_id, nooftokens).with_event(Event::Bought(buyer, property_id)),
                        None => r == Err::<Vec<Transfer>, DispatchError>(
                            DispatchError::Module(Error::NotEnoughBalance),
                        ) && final(self)@ == old(self)@,
                    }
                },
                _ => r == Err::<Vec<Transfer>, DispatchError>(DispatchError::BadOrigin) && final(self)@ == old(self)@,
            },
    {
        let buyer = match ensure_signed(origin) {
            Ok(b) => b,
            Err(e) => {
                return Err(e);
            },
        };
        if !self.properties.contains_key(&property_id) {
            return Err(DispatchError::Module(Error::PropertyNotExist));
        }
        //Get the primary owner of the property
        let primaryowner = self.primary_property_owners.get(&property_id).unwrap();
        //Calculate Total crypto price of transaction
        let tokenprice = self.token_price.get(&property_id).unwrap();
        let cryptodifference: i32 = unit_div(tokenprice);
        let totalcryptoprice: u32 = (cryptodifference * nooftokens) as u32;
        //Ensure available Tokens
        let old_circulation = self.token_circulation.get(&property_id).unwrap();
        if old_circulation - nooftokens < 0 {
            return Err(DispatchError::Module(Error::NoAvailableTokens));
        }
        // Helper to handle payment
        let transfers = match self.finalisetransaction(
            primaryowner,
            buyer,
            totalcryptoprice,
            true,
            buyer_free,
            seller_free,
        ) {
            Some(ts) => ts,
            None => {
                return Err(DispatchError::Module(Error::NotEnoughBalance));
            },
        };
        let ghost m0 = self@;
        proof {
            law_balanced_purchase_cannot_overdraw(m0, buyer, property_id, nooftokens);
        }
        //Decrease Token circulation
        let new_circulation = old_circulation - nooftokens;
        self.token_circulation.insert(property_id, new_circulation);
        let no_of_tokens_u32: u32 = nooftokens as u32;
        //Check if the buyer already owns some token for the property
        if self.secondary_owner.contains_key(&(property_id, buyer)) {
            let index = self.secondary_owner.get(&(property_id, buyer)).unwrap();
            let (holder, heldtokenbalance) = self.ownership_entry(property_id, index);
            let new_token_balance: u32 = heldtokenbalance + no_of_tokens_u32;
            self.properties_ownership.insert((property_id, index), (holder, new_token_balance));
        } else {
            let ownercount_before = self.owner_count(property_id);
            let newcount = ownercount_before + 1;
            self.secondary_owner_index.insert(property_id, newcount);
            self.secondary_owner.insert((property_id, buyer), newcount);
            self.properties_ownership.insert((property_id, newcount), (buyer, no_of_tokens_u32));
        }
        //Update the token balance for the primary owner
        let (primary, heldtokenbalance) = self.ownership_entry(property_id, 0);
        let new_token_balance: u32 = heldtokenbalance - no_of_tokens_u32;
        self.properties_ownership.insert((property_id, 0), (primary, new_token_balance));
        proof {
            law_purchase_keeps_consistency(m0, buyer, property_id, nooftokens);
        }
        self.deposit_event(Event::Bought(buyer, property_id));
        Ok(transfers)
    }

    /// Sell a property token.
    ///
    /// `buyer_free` is the free balance of the property's primary owner, who pays, and
    /// `seller_free` that of the signer. A signer who holds no tokens of the property gets
    /// `NotPropertyOwner`. A sale of more tokens than the signer holds, or one that a balance
    /// cannot cover, moves nothing and deposits `SellError`; a paid sale moves the tokens,
    /// deposits `Sold`, and returns the transfers that pay for it.
    pub fn sell_propertytoken(
        &mut self,
        origin: Origin,
        property_id: PropertyId,
        nooftokens: i32,
        buyer_free: u128,
        seller_free: u128,
    ) -> (r: Result<Vec<Transfer>, DispatchError>)
        requires
            old(self).wf(),
            old(self)@.sell_defined(origin, property_id, nooftokens, buyer_free, seller_free),
        ensures
            final(self).wf(),
            final(self)@.consistent(),
            match origin {
                Origin::Signed(s) => if !old(self)@.properties.contains_key(property_id) {
                    r == Err::<Vec<Transfer>, DispatchError>(
                        DispatchError::Module(Error::PropertyNotExist),
                    ) && final(self)@ == old(self)@
                } else if !old(self)@.secondary_owner.contains_key((property_id, s)) {
                    r == Err::<Vec<Transfer>, DispatchError>(
                        DispatchError::Module(Error::NotPropertyOwner),
                    ) && final(self)@ == old(self)@
                } else {
                    let idx = old(self)@.secondary_owner[(property_id, s)];
                    if old(self)@.balance_at(property_id, idx) < nooftokens {
                        r matches Ok(v) && v@ == Seq::<Transfer>::empty() && final(self)@ == old(self)@.with_event(Event::SellError(s, property_id))
                    } else {
                        match old(self)@.settlement(
                            s,
                            old(self)@.primary_owners[property_id],
                            old(self)@.trade_price(property_id, nooftokens) as u32,
                            false,
                            buyer_free,
                            seller_free,
                        ) {
                            Some(ts) => r matches Ok(v) && v@ == ts && final(self)@ == old(self)@.sold(property_id, idx, nooftokens).with_event(
                                Event::Sold(s, property_id),
                            ),
                            None => r matches Ok(v) && v@ == Seq::<Transfer>::empty() && final(self)@ == old(self)@.with_event(Event::SellError(s, property_id)),
                        }
                    }
                },
                _ => r == Err::<Vec<Transfer>, DispatchError>(DispatchError::BadOrigin) && final(self)@ == old(self)@,
            },
    {
        let signer = match ensure_signed(origin) {
            Ok(b) => b,
            Err(e) => {
                return Err(e);
            },
        };
        if !self.properties.contains_key(&property_id) {
            return Err(DispatchError::Module(Error::PropertyNotExist));
        }
        if !self.secondary_owner.contains_key(&(property_id, signer)) {
            return Err(DispatchError::Module(Error::NotPropertyOwner));
        }
        //Get the index
        let index = self.secondary_owner.get(&(property_id, signer)).unwrap();
        //Get the old token balance
        let (seller, heldtokenbalance) = self.ownership_entry(property_id, index);
        let no_of_tokens_u32: u32 = nooftokens as u32;
        //Check if there are sufficent tokens
        if heldtokenbalance < no_of_tokens_u32 {
            self.deposit_event(Event::SellError(seller, property_id));
            return Ok(Vec::new());
        }
        let ghost m0 = self@;
        proof {
            law_sale_stays_within_tokens(m0, signer, property_id, nooftokens);
        }
        //Get the primary owner of the property
        let primaryowner = self.primary_property_owners.get(&property_id).unwrap();
        //Calculate Total crypto price of transaction
        let tokenprice = self.token_price.get(&property_id).unwrap();
        let cryptodifference: i32 = unit_div(tokenprice);
        assert(cryptodifference * nooftokens <= nooftokens) by (nonlinear_arith)
            requires
                -1 <= cryptodifference <= 1,
                nooftokens >= 0,
        ;
        let totalcryptoprice: u32 = (cryptodifference * nooftokens) as u32;
        // Helper to handle payment
        match self.finalisetransaction(
            seller,
            primaryowner,
            totalcryptoprice,
            false,
            buyer_free,
            seller_free,
        ) {
            Some(transfers) => {
                //Increase Token circulation
                let old_circulation = self.token_circulation.get(&property_id).unwrap();
                let new_circulation = old_circulation + nooftokens;
                self.token_circulation.insert(property_id, new_circulation);
                //Change the token balance
                let new_token_balance: u32 = heldtokenbalance - no_of_tokens_u32;
                self.properties_ownership.insert((property_id, index), (seller, new_token_balance));
                //Update the token balance for the primary owner
                let (primary, primarybalance) = self.ownership_entry(property_id, 0);
                let new_primary_balance: u32 = primarybalance + no_of_tokens_u32;
                self.properties_ownership.insert((property_id, 0), (primary, new_primary_balance));
                proof {
                    law_sale_keeps_consistency(m0, signer, property_id, nooftokens);
                }
                self.deposit_event(Event::Sold(seller, property_id));
                Ok(transfers)
            },
            None => {
                self.deposit_event(Event::SellError(seller, property_id));
                Ok(Vec::new())
            },
        }
    }
}

impl Pallet {
    /// Whether no secondary owner of `property_id` (slots `1..=count`) holds tokens.
    fn all_slots_clear(&self, property_id: PropertyId) -> (r: bool)
        requires
            self.wf(),
        ensures
            r == self@.burn_all_clear(property_id),
    {
        let ownercount = self.owner_count(property_id);
        let mut j: u32 = 0;
        while j < ownercount
            invariant
                self.wf(),
                j <= ownercount,
                ownercount == self@.owner_count(property_id),
                forall|i: u32| 1 <= i <= j ==> #[trigger] self@.balance_at(property_id, i) == 0,
            decreases ownercount - j,
        {
            if self.ownership_entry(property_id, j + 1).1 != 0 {
                return false;
            }
            j = j + 1;
        }
        true
    }

    // Helper to burn a Property.
    /// Burns a stored property whose secondary owners (slots `1..=count`) hold no tokens: every
    /// entry of the property goes (its data, prices, primary owner, circulation, owner slots
    /// and owner-index entries), the counter goes down by one, and the result is `true`. A
    /// missing property, or one with a secondary owner who holds tokens, is left as it is and
    /// the result is `false`.
    pub fn burn(&mut self, property_id: PropertyId) -> (r: bool)
        requires
            old(self).wf(),
        ensures
            final(self).wf(),
            final(self)@.consistent(),
            if old(self)@.properties.contains_key(property_id) && old(self)@.burn_all_clear(property_id) {
                r && final(self)@ == old(self)@.burned(property_id)
            } else {
                !r && final(self)@ == old(self)@
            },
    {
        if !self.properties.contains_key(&property_id) {
            return false;
        }
        // Check if the token balance of secondary owners is zero
        if !self.all_slots_clear(property_id) {
            return false;
        }
        let ownercount = self.owner_count(property_id);
        let ghost m0 = self@;
        self.properties_ownership.remove(&(property_id, 0));
        proof {
            assert(self.properties_ownership@ =~= m0.ownership.remove_keys(
                Set::new(|k: (PropertyId, u32)| k.0 == property_id && k.1 <= 0),
            ));
            assert(self.secondary_owner@ =~= m0.secondary_owner.remove_keys(
                Set::new(
                    |k: (PropertyId, AccountId)|
                        k.0 == property_id && exists|i: u32| 1 <= i <= 0 && k.1 == #[trigger] m0.account_at(property_id, i),
                ),
            ));
        }
        let mut j: u32 = 0;
        while j < ownercount
            invariant
                m0 == old(self)@,
                m0.consistent(),
                m0.properties.contains_key(property_id),
                ownercount == m0.owner_count(property_id),
                j <= ownercount,
                self.properties_ownership.wf(),
                self.secondary_owner.wf(),
                self.properties_ownership@ == m0.ownership.remove_keys(
                    Set::new(|k: (PropertyId, u32)| k.0 == property_id && k.1 <= j),
                ),
                self.secondary_owner@ == m0.secondary_owner.remove_keys(
                    Set::new(
                        |k: (PropertyId, AccountId)|
                            k.0 == property_id && exists|i: u32| 1 <= i <= j && k.1 == #[trigger] m0.account_at(property_id, i),
                    ),
                ),
                self.admin_acc == old(self).admin_acc,
                self.comission_acc == old(self).comission_acc,
                self.sell_comission == old(self).sell_comission,
                self.buy_comission == old(self).buy_comission,
                self.property_cnt == old(self).property_cnt,
                self.properties == old(self).properties,
                self.property_price == old(self).property_price,
                self.primary_property_owners == old(self).primary_property_owners,
                self.token_circulation == old(self).token_circulation,
                self.token_price == old(self).token_price,
                self.secondary_owner_index == old(self).secondary_owner_index,
                self.events == old(self).events,
            decreases ownercount - j,
        {
            let slot = j + 1;
            let holder = match self.properties_ownership.get(&(property_id, slot)) {
                Some(e) => e.0,
                None => AccountId::zero(),
            };
            self.properties_ownership.remove(&(property_id, slot));
            self.secondary_owner.remove(&(property_id, holder));
            proof {
                assert(holder == m0.account_at(property_id, slot));
                assert(self.properties_ownership@ =~= m0.ownership.remove_keys(
                    Set::new(|k: (PropertyId, u32)| k.0 == property_id && k.1 <= slot),
                ));
                assert forall|k: (PropertyId, AccountId)|
                    (k.0 == property_id && exists|i: u32| 1 <= i <= slot && k.1 == #[trigger] m0.account_at(property_id, i))
                    <==> ((k.0 == property_id && exists|i: u32| 1 <= i <= j && k.1 == #[trigger] m0.account_at(property_id, i))
                        || k == (property_id, holder)) by {}
                assert(self.secondary_owner@ =~= m0.secondary_owner.remove_keys(
                    Set::new(
                        |k: (PropertyId, AccountId)|
                            k.0 == property_id && exists|i: u32| 1 <= i <= slot && k.1 == #[trigger] m0.account_at(property_id, i),
                    ),
                ));
            }
            j = slot;
        }
        proof {
            // every slot of the property lies in 0..=count, and every owner-index entry points
            // at a slot in 1..=count that holds its account
            assert(self.properties_ownership@ =~= m0.ownership.remove_keys(
                Set::new(|k: (PropertyId, u32)| k.0 == property_id),
            ));
            assert forall|k: (PropertyId, AccountId)| #[trigger] m0.secondary_owner.contains_key(k) && k.0 == property_id
                implies exists|i: u32| 1 <= i <= ownercount && k.1 == #[trigger] m0.account_at(property_id, i) by {
                assert(k.1 == m0.account_at(property_id, m0.secondary_owner[k]));
            }
            assert(self.secondary_owner@ =~= m0.secondary_owner.remove_keys(
                Set::new(|k: (PropertyId, AccountId)| k.0 == property_id),
            ));
            assert(m0.properties.dom().remove(property_id).len() + 1 == m0.properties.dom().len());
        }
        self.secondary_owner_index.remove(&property_id);
        // Decrement the Property Count
        self.property_cnt = self.property_cnt - 1;
        // Remove the Property data
        self.properties.remove(&property_id);
        // Remove the property price
        self.property_price.remove(&property_id);
        // Remove the primary property owner
        self.primary_property_owners.remove(&property_id);
        // Update the token TokenCirculation
        self.token_circulation.remove(&property_id);
        self.token_price.remove(&property_id);
        assert(self@ =~= m0.burned(property_id));
        proof {
            law_burn_keeps_consistency(m0, property_id);
        }
        true
    }

    /// Remove a Property.
    /// The actual Property deletion is done in the `burn()` function.
    pub fn delete_property(&mut self, origin: Origin, property_id: PropertyId) -> (r: Result<(), DispatchError>)
        requires
            old(self).wf(),
        ensures
            final(self).wf(),
            final(self)@.consistent(),
            match origin {
                Origin::Signed(s) => if !old(self)@.admin_acc.contains_key(s) {
                    r == Err::<(), DispatchError>(DispatchError::Module(Error::NotAdminAccount))
                        && final(self)@ == old(self)@
                } else if !old(self)@.properties.contains_key(property_id) {
                    r == Err::<(), DispatchError>(DispatchError::Module(Error::PropertyNotExist))
                        && final(self)@ == old(self)@
                } else if old(self)@.burn_all_clear(property_id) {
                    r == Ok::<(), DispatchError>(()) && final(self)@ == old(self)@.burned(
                        property_id,
                    ).with_event(Event::Deleted(s, property_id))
                } else {
                    r == Ok::<(), DispatchError>(()) && final(self)@ == old(self)@.with_event(
                        Event::Delete_UnSucessfull(s, property_id),
                    )
                },
                _ => r == Err::<(), DispatchError>(DispatchError::BadOrigin) && final(self)@ == old(self)@,
            },
    {
        let sender = ensure_signed(origin)?;
        if !self.admin_acc.contains_key(&sender) {
            return Err(DispatchError::Module(Error::NotAdminAccount));
        }
        if !self.properties.contains_key(&property_id) {
            return Err(DispatchError::Module(Error::PropertyNotExist));
        }
        let result = self.burn(property_id);
        if result {
            self.deposit_event(Event::Deleted(sender, property_id));
        } else {
            self.deposit_event(Event::Delete_UnSucessfull(sender, property_id));
        }
        Ok(())
    }
}

impl Pallet {
    /// The admin mark stored for `who`, or 0.
    pub fn adminacc(&self, who: AccountId) -> (r: u32)
        requires
            self.wf(),
        ensures
            r == (match self@.admin_acc.get(who) {
                Some(v) => v,
                None => 0,
            }),
    {
        match self.admin_acc.get(&who) {
            Some(v) => v,
            None => 0,
        }
    }

    /// Whether `who` is an admin account.
    pub fn is_admin(&self, who: AccountId) -> (r: bool)
        requires
            self.wf(),
        ensures
            r == self@.admin_acc.contains_key(who),
    {
        self.admin_acc.contains_key(&who)
    }

    /// The number of properties counted so far.
    pub fn property_cnt(&self) -> (r: u32)
        ensures
            r == self@.property_cnt,
    {
        self.property_cnt
    }

    /// The stored data of a property.
    pub fn properties(&self, property_id: PropertyId) -> (r: Option<Property>)
        requires
            self.wf(),
        ensures
            r == self@.properties.get(property_id),
    {
        self.properties.get(&property_id)
    }

    /// The price of a property.
    pub fn propertyprice(&self, property_id: PropertyId) -> (r: Option<i32>)
        requires
            self.wf(),
        ensures
            r == self@.property_price.get(property_id),
    {
        self.property_price.get(&property_id)
    }

    /// The primary owner of a property.
    pub fn primary_property_owners(&self, property_id: PropertyId) -> (r: Option<AccountId>)
        requires
            self.wf(),
        ensures
            r == self@.primary_owners.get(property_id),
    {
        self.primary_property_owners.get(&property_id)
    }

    /// The tokens of a property in circulation.
    pub fn token_circulation(&self, property_id: PropertyId) -> (r: Option<i32>)
        requires
            self.wf(),
        ensures
            r == self@.token_circulation.get(property_id),
    {
        self.token_circulation.get(&property_id)
    }

    /// The token price of a property.
    pub fn token_price(&self, property_id: PropertyId) -> (r: Option<i32>)
        requires
            self.wf(),
        ensures
            r == self@.token_price.get(property_id),
    {
        self.token_price.get(&property_id)
    }

    /// The holder and token balance at a slot of a property, or the zero account with 0.
    pub fn properties_ownership(&self, key: (PropertyId, u32)) -> (r: (AccountId, u32))
        requires
            self.wf(),
        ensures
            r == (self@.account_at(key.0, key.1), self@.balance_at(key.0, key.1)),
    {
        self.ownership_entry(key.0, key.1)
    }

    /// The number of secondary owners recorded for a property, or 0.
    pub fn secondary_owner_index(&self, property_id: PropertyId) -> (r: u32)
        requires
            self.wf(),
        ensures
            r == self@.owner_count(property_id),
    {
        self.owner_count(property_id)
    }

    /// The slot of an account among the owners of a property, or 0.
    pub fn secondary_owners(&self, key: (PropertyId, AccountId)) -> (r: u32)
        requires
            self.wf(),
        ensures
            r == self@.holder_index(key.0, key.1),
    {
        match self.secondary_owner.get(&key) {
            Some(v) => v,
            None => 0,
        }
    }

    /// The events deposited so far, oldest first.
    pub fn events(&self) -> (r: &Vec<Event>)
        ensures
            r@ == self@.events,
    {
        &self.events
    }
}


/// `a / b` truncated toward zero, on values wide enough that no quotient overflows.
fn wide_div_toward_zero(a: i64, b: i64) -> (r: i64)
    requires
        b != 0,
        -0x1_0000_0000 <= a <= 0x1_0000_0000,
        -0x1_0000_0000 <= b <= 0x1_0000_0000,
    ensures
        r == trunc_div(a as int, b as int),
        -0x1_0000_0000 <= r <= 0x1_0000_0000,
{
    let ua: i64 = if a < 0 { -a } else { a };
    let ub: i64 = if b < 0 { -b } else { b };
    let q: i64 = ua / ub;
    assert(0 <= q <= ua) by (nonlinear_arith)
        requires
            q == ua / ub,
            ua >= 0,
            ub >= 1,
    ;
    if (a < 0) == (b < 0) {
        q
    } else {
        -q
    }
}

impl Pallet {
    /// Whether a payment of `amount` computes its commission and total without overflow
    /// (`None` when it does not), and if so whether the two free balances cover it.
    fn settlement_outcome(&self, amount: u32, is_buy_token: bool, buyer_free: u128, seller_free: u128) -> (r: Option<bool>)
        requires
            self.wf(),
        ensures
            r is Some <==> self@.settlement_defined(amount, is_buy_token),
            r matches Some(ok) ==> forall|s: AccountId, b: AccountId|
                (#[trigger] self@.settlement(s, b, amount, is_buy_token, buyer_free, seller_free) is Some) == ok,
    {
        let pct: u32 = if is_buy_token {
            self.buycomission(0)
        } else {
            self.sellcomission(0)
        };
        let a64: u64 = amount as u64;
        let p64: u64 = pct as u64;
        assert(a64 * p64 <= 0xffff_ffff * 0xffff_ffff) by (nonlinear_arith)
            requires
                a64 <= 0xffff_ffff,
                p64 <= 0xffff_ffff,
        ;
        let product: u64 = a64 * p64;
        if product > 0xffff_ffff {
            return None;
        }
        let c: u64 = product / 100;
        let total: u64 = a64 + c;
        if total > 0xffff_ffff {
            return None;
        }
        Some(!(buyer_free < total as u128 || seller_free < c as u128))
    }

    /// Whether the storage updates of a paid purchase stay free of overflow.
    fn purchase_check(&self, buyer: AccountId, property_id: PropertyId, nooftokens: i32) -> (r: bool)
        requires
            self.wf(),
        ensures
            r == self@.purchase_defined(buyer, property_id, nooftokens),
    {
        if nooftokens < 0 {
            return false;
        }
        if self.secondary_owner.contains_key(&(property_id, buyer)) {
            true
        } else {
            let count: u64 = self.owner_count(property_id) as u64;
            count + 1 <= 0xffff_ffff
        }
    }

    /// Whether `buy_propertytoken` with these inputs stays clear of the panics that its
    /// `requires` rules out (a zero token price, a negative or overflowing price or token count,
    /// an overflowing commission, or an owner slot that cannot be numbered).
    pub fn buy_propertytoken_defined(
        &self,
        origin: Origin,
        property_id: PropertyId,
        nooftokens: i32,
        buyer_free: u128,
        seller_free: u128,
    ) -> (r: bool)
        requires
            self.wf(),
        ensures
            r == self@.buy_defined(origin, property_id, nooftokens, buyer_free, seller_free),
    {
        let buyer = match origin {
            Origin::Signed(b) => b,
            _ => {
                return true;
            },
        };
        if !self.properties.contains_key(&property_id) {
            return true;
        }
        let primary = self.primary_property_owners.get(&property_id).unwrap();
        let tokenprice = self.token_price.get(&property_id).unwrap();
        if tokenprice == 0 {
            return false;
        }
        let q: i64 = unit_div(tokenprice) as i64;
        let n64: i64 = nooftokens as i64;
        assert(-0x8000_0000 <= q * n64 <= 0x8000_0000) by (nonlinear_arith)
            requires
                -1 <= q <= 1,
                -0x8000_0000 <= n64 <= 0x8000_0000,
        ;
        let price: i64 = q * n64;
        if price < 0 || price > 0x7fff_ffff {
            return false;
        }
        let circulation = self.token_circulation.get(&property_id).unwrap();
        let rest: i64 = circulation as i64 - n64;
        if rest < -0x8000_0000 || rest > 0x7fff_ffff {
            return false;
        }
        if rest < 0 {
            return true;
        }
        let amount: u32 = price as u32;
        match self.settlement_outcome(amount, true, buyer_free, seller_free) {
            None => false,
            Some(paid) => {
                assert(self@.settlement(primary, buyer, amount, true, buyer_free, seller_free) is Some == paid);
                if paid {
                    self.purchase_check(buyer, property_id, nooftokens)
                } else {
                    true
                }
            },
        }
    }

    /// Whether `sell_propertytoken` with these inputs stays clear of the panics that its
    /// `requires` rules out (a negative token count, a zero token price, a negative price, an
    /// overflowing commission).
    pub fn sell_propertytoken_defined(
        &self,
        origin: Origin,
        property_id: PropertyId,
        nooftokens: i32,
        buyer_free: u128,
        seller_free: u128,
    ) -> (r: bool)
        requires
            self.wf(),
        ensures
            r == self@.sell_defined(origin, property_id, nooftokens, buyer_free, seller_free),
    {
        let signer = match origin {
            Origin::Signed(s) => s,
            _ => {
                return true;
            },
        };
        if !self.properties.contains_key(&property_id) {
            return true;
        }
        if !self.secondary_owner.contains_key(&(property_id, signer)) {
            return true;
        }
        let idx = self.secondary_owner.get(&(property_id, signer)).unwrap();
        if nooftokens < 0 {
            return false;
        }
        let balance = self.ownership_entry(property_id, idx).1;
        if (balance as i64) < (nooftokens as i64) {
            return true;
        }
        let tokenprice = self.token_price.get(&property_id).unwrap();
        if tokenprice == 0 {
            return false;
        }
        let q: i64 = unit_div(tokenprice) as i64;
        let n64: i64 = nooftokens as i64;
        assert(-0x8000_0000 <= q * n64 <= n64) by (nonlinear_arith)
            requires
                -1 <= q <= 1,
                0 <= n64 <= 0x8000_0000,
        ;
        let price: i64 = q * n64;
        if price < 0 {
            return false;
        }
        self.settlement_outcome(price as u32, false, buyer_free, seller_free).is_some()
    }

    /// Whether `modify_property_price` by an admin stays clear of the panics that its
    /// `requires` rules out: a missing price, a zero old price, and an overflowing difference,
    /// quotient, percent or token price.
    pub fn modify_property_price_defined(&self, property_id: PropertyId, new_price: i32) -> (r: bool)
        requires
            self.wf(),
        ensures
            r == self@.reprice_defined(property_id, new_price),
    {
        let old_price = match self.property_price.get(&property_id) {
            Some(p) => p,
            None => {
                return false;
            },
        };
        if old_price == 0 {
            return false;
        }
        let difference: i64 = new_price as i64 - old_price as i64;
        if difference < -0x8000_0000 || difference > 0x7fff_ffff {
            return false;
        }
        let q: i64 = wide_div_toward_zero(difference, old_price as i64);
        if q > 0x7fff_ffff {
            return false;
        }
        let percent: i64 = q * 100;
        if percent < -0x8000_0000 || percent > 0x7fff_ffff {
            return false;
        }
        let scaled: i64 = percent * 100;
        if scaled < -0x8000_0000 || scaled > 0x7fff_ffff {
            return false;
        }
        let token: i64 = old_price as i64 + scaled;
        token >= -0x8000_0000 && token <= 0x7fff_ffff
    }
}

} // verus!
