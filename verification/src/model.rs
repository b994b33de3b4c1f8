//! The mathematical model of the pallet's storage, and what each call does to it.

use vstd::prelude::*;
use crate::types::{AccountId, Event, Origin, Property, PropertyId, Transfer};

verus! {

/// The pallet's storage as maps, with the events it has deposited.
#[verifier::ext_equal]
pub struct PalletModel {
    /// Admin accounts (a key present means an admin).
    pub admin_acc: Map<AccountId, u32>,
    /// The platform's commission account, under key 0.
    pub comission_acc: Map<u32, AccountId>,
    /// Commission percent on a sale, under key 0.
    pub sell_comission: Map<u32, u32>,
    /// Commission percent on a purchase, under key 0.
    pub buy_comission: Map<u32, u32>,
    /// The property counter.
    pub property_cnt: u32,
    pub properties: Map<PropertyId, Property>,
    pub property_price: Map<PropertyId, i32>,
    pub primary_owners: Map<PropertyId, AccountId>,
    pub token_circulation: Map<PropertyId, i32>,
    pub token_price: Map<PropertyId, i32>,
    /// (property, index) to (holder, token balance); index 0 is the primary owner.
    pub ownership: Map<(PropertyId, u32), (AccountId, u32)>,
    /// The last index handed to a secondary owner of each property.
    pub secondary_owner_index: Map<PropertyId, u32>,
    /// (property, account) to that account's index in `ownership`.
    pub secondary_owner: Map<(PropertyId, AccountId), u32>,
    pub events: Seq<Event>,
}

/// `1 / tokenprice` as Rust computes it for a non-zero `i32`: truncated toward zero.
pub open spec fn unit_quotient(tokenprice: i32) -> int {
    if tokenprice == 1 {
        1
    } else if tokenprice == -1 {
        -1
    } else {
        0
    }
}

pub open spec fn abs(a: int) -> int {
    if a < 0 {
        -a
    } else {
        a
    }
}

/// Integer division truncated toward zero, as Rust's `/` on signed integers.
pub open spec fn trunc_div(a: int, b: int) -> int {
    if (a < 0) == (b < 0) {
        abs(a) / abs(b)
    } else {
        -(abs(a) / abs(b))
    }
}

/// The commission on an amount at a percent, rounded down.
pub open spec fn commission_amount(amount: u32, percent: u32) -> int {
    (amount * percent) / 100
}

impl PalletModel {
    /// Token balance stored at `(id, idx)`; 0 where nothing is stored.
    pub open spec fn balance_at(self, id: PropertyId, idx: u32) -> u32 {
        match self.ownership.get((id, idx)) {
            Some(e) => e.1,
            None => 0,
        }
    }

    /// Holder stored at `(id, idx)`; the zero account where nothing is stored.
    pub open spec fn account_at(self, id: PropertyId, idx: u32) -> AccountId {
        match self.ownership.get((id, idx)) {
            Some(e) => e.0,
            None => AccountId::spec_zero(),
        }
    }

    /// The number of secondary owners recorded for `id`; 0 where nothing is stored.
    pub open spec fn owner_count(self, id: PropertyId) -> u32 {
        match self.secondary_owner_index.get(id) {
            Some(c) => c,
            None => 0,
        }
    }

    /// The index of `who` among the owners of `id`; 0 where nothing is stored.
    pub open spec fn holder_index(self, id: PropertyId, who: AccountId) -> u32 {
        match self.secondary_owner.get((id, who)) {
            Some(c) => c,
            None => 0,
        }
    }

    pub open spec fn commission_account(self) -> AccountId {
        match self.comission_acc.get(0) {
            Some(a) => a,
            None => AccountId::spec_zero(),
        }
    }

    pub open spec fn commission_percent(self, is_buy_token: bool) -> u32 {
        let m = if is_buy_token {
            self.buy_comission
        } else {
            self.sell_comission
        };
        match m.get(0) {
            Some(p) => p,
            None => 0,
        }
    }

    pub open spec fn with_event(self, e: Event) -> PalletModel {
        PalletModel { events: self.events.push(e), ..self }
    }

    // ---------------------------------------------------------------- settlement
    /// The commission and the total that a payment of `amount` computes without overflow.
    pub open spec fn settlement_defined(self, amount: u32, is_buy_token: bool) -> bool {
        let pct = self.commission_percent(is_buy_token);
        &&& amount * pct <= u32::MAX
        &&& amount + commission_amount(amount, pct) <= u32::MAX
    }

    /// The outcome of a payment of `amount` from `buyer` to `seller`, given the free balances
    /// of the two: `None` when either falls short, otherwise the three transfers in order.
    pub open spec fn settlement(
        self,
        seller: AccountId,
        buyer: AccountId,
        amount: u32,
        is_buy_token: bool,
        buyer_free: u128,
        seller_free: u128,
    ) -> Option<Seq<Transfer>> {
        let c = commission_amount(amount, self.commission_percent(is_buy_token));
        let fee = self.commission_account();
        if buyer_free < amount + c || seller_free < c {
            None
        } else {
            Some(
                seq![
                    Transfer { from: buyer, to: seller, amount: amount as u128 },
                    Transfer { from: buyer, to: fee, amount: c as u128 },
                    Transfer { from: seller, to: fee, amount: c as u128 },
                ],
            )
        }
    }

    // ---------------------------------------------------------------- minting
    /// The storage after registering a property under `id`.
    pub open spec fn minted(
        self,
        id: PropertyId,
        owner: AccountId,
        details: u64,
        price: i32,
    ) -> PalletModel {
        PalletModel {
            property_cnt: (self.property_cnt + 1) as u32,
            properties: self.properties.insert(id, Property { details, initialprice: price }),
            property_price: self.property_price.insert(id, price),
            primary_owners: self.primary_owners.insert(id, owner),
            token_circulation: self.token_circulation.insert(id, price),
            token_price: self.token_price.insert(id, 1),
            ownership: self.ownership.insert((id, 0), (owner, price as u32)),
            ..self
        }
    }

    // ---------------------------------------------------------------- burning
    /// No secondary owner of `id` (slots `1..=count`) holds tokens.
    pub open spec fn burn_all_clear(self, id: PropertyId) -> bool {
        forall|i: u32| 1 <= i <= self.owner_count(id) ==> #[trigger] self.balance_at(id, i) == 0
    }

    /// The storage after a successful burn of `id`: every entry of the property is gone and
    /// the counter goes down by one.
    pub open spec fn burned(self, id: PropertyId) -> PalletModel {
        PalletModel {
            ownership: self.ownership.remove_keys(Set::new(|k: (PropertyId, u32)| k.0 == id)),
            secondary_owner: self.secondary_owner.remove_keys(
                Set::new(|k: (PropertyId, AccountId)| k.0 == id),
            ),
            secondary_owner_index: self.secondary_owner_index.remove(id),
            property_cnt: (self.property_cnt - 1) as u32,
            properties: self.properties.remove(id),
            property_price: self.property_price.remove(id),
            primary_owners: self.primary_owners.remove(id),
            token_circulation: self.token_circulation.remove(id),
            token_price: self.token_price.remove(id),
            ..self
        }
    }

    // ---------------------------------------------------------------- buying
    /// The token price of a purchase or sale of `n` tokens of `id`.
    pub open spec fn trade_price(self, id: PropertyId, n: i32) -> int {
        unit_quotient(self.token_price[id]) * n
    }

    /// The storage after a paid purchase has lowered the circulation and credited the buyer.
    pub open spec fn purchase_mid(self, buyer: AccountId, id: PropertyId, n: i32) -> PalletModel {
        let m1 = PalletModel {
            token_circulation: self.token_circulation.insert(
                id,
                (self.token_circulation[id] - n) as i32,
            ),
            ..self
        };
        if m1.secondary_owner.contains_key((id, buyer)) {
            let idx = m1.secondary_owner[(id, buyer)];
            PalletModel {
                ownership: m1.ownership.insert(
                    (id, idx),
                    (m1.account_at(id, idx), (m1.balance_at(id, idx) + n) as u32),
                ),
                ..m1
            }
        } else {
            let c = (m1.owner_count(id) + 1) as u32;
            PalletModel {
                secondary_owner_index: m1.secondary_owner_index.insert(id, c),
                secondary_owner: m1.secondary_owner.insert((id, buyer), c),
                ownership: m1.ownership.insert((id, c), (buyer, n as u32)),
                ..m1
            }
        }
    }

    /// The storage after a paid purchase of `n` tokens of `id` by `buyer` (before its event).
    pub open spec fn purchased(self, buyer: AccountId, id: PropertyId, n: i32) -> PalletModel {
        let m2 = self.purchase_mid(buyer, id, n);
        PalletModel {
            ownership: m2.ownership.insert(
                (id, 0),
                (m2.account_at(id, 0), (m2.balance_at(id, 0) - n) as u32),
            ),
            ..m2
        }
    }

    /// The storage updates of a paid purchase stay free of overflow: the token count is not
    /// negative, and a new owner slot can still be numbered.
    pub open spec fn purchase_defined(self, buyer: AccountId, id: PropertyId, n: i32) -> bool {
        &&& n >= 0
        &&& !self.secondary_owner.contains_key((id, buyer)) ==> self.owner_count(id) + 1
            <= u32::MAX
    }

    /// `buy_propertytoken` runs without a panic on these inputs.
    pub open spec fn buy_defined(
        self,
        origin: Origin,
        id: PropertyId,
        n: i32,
        buyer_free: u128,
        seller_free: u128,
    ) -> bool {
        origin matches Origin::Signed(buyer) ==> (self.properties.contains_key(id) ==> {
            &&& self.token_price[id] != 0
            &&& 0 <= self.trade_price(id, n) <= i32::MAX
            &&& i32::MIN <= self.token_circulation[id] - n <= i32::MAX
            &&& self.token_circulation[id] - n >= 0 ==> {
                &&& self.settlement_defined(self.trade_price(id, n) as u32, true)
                &&& self.settlement(
                    self.primary_owners[id],
                    buyer,
                    self.trade_price(id, n) as u32,
                    true,
                    buyer_free,
                    seller_free,
                ) is Some ==> self.purchase_defined(buyer, id, n)
            }
        })
    }

    // ---------------------------------------------------------------- selling
    /// The storage after a paid sale of `n` tokens held at slot `idx` of `id`.
    pub open spec fn sold(self, id: PropertyId, idx: u32, n: i32) -> PalletModel {
        let seller = self.account_at(id, idx);
        let m1 = PalletModel {
            token_circulation: self.token_circulation.insert(
                id,
                (self.token_circulation[id] + n) as i32,
            ),
            ownership: self.ownership.insert((id, idx), (seller, (self.balance_at(id, idx) - n) as u32)),
            ..self
        };
        PalletModel {
            ownership: m1.ownership.insert(
                (id, 0),
                (m1.account_at(id, 0), (m1.balance_at(id, 0) + n) as u32),
            ),
            ..m1
        }
    }

    /// `sell_propertytoken` runs without a panic on these inputs.
    pub open spec fn sell_defined(
        self,
        origin: Origin,
        id: PropertyId,
        n: i32,
        buyer_free: u128,
        seller_free: u128,
    ) -> bool {
        origin matches Origin::Signed(s) ==> (self.properties.contains_key(id)
            && self.secondary_owner.contains_key((id, s)) ==> {
            &&& n >= 0
            &&& self.balance_at(id, self.secondary_owner[(id, s)]) >= n ==> {
                &&& self.token_price[id] != 0
                &&& self.trade_price(id, n) >= 0
                &&& self.settlement_defined(self.trade_price(id, n) as u32, false)
            }
        })
    }

    // ---------------------------------------------------------------- price changes
    /// The new token price that a change of a property's price from `old` to `new` gives.
    pub open spec fn repriced_token(old: i32, new: i32) -> int {
        old + trunc_div(new - old, old as int) * 100 * 100
    }

    /// `modify_property_price` runs without a panic for an admin on these inputs.
    pub open spec fn reprice_defined(self, id: PropertyId, new_price: i32) -> bool {
        let old = self.property_price[id];
        &&& self.property_price.contains_key(id)
        &&& old != 0
        &&& i32::MIN <= new_price - old <= i32::MAX
        &&& trunc_div(new_price - old, old as int) <= i32::MAX
        &&& i32::MIN <= trunc_div(new_price - old, old as int) * 100 <= i32::MAX
        &&& i32::MIN <= trunc_div(new_price - old, old as int) * 100 * 100 <= i32::MAX
        &&& i32::MIN <= PalletModel::repriced_token(old, new_price) <= i32::MAX
    }

    // ---------------------------------------------------------------- consistency
    /// The tokens held at the slots `0..k` of `id`.
    pub open spec fn slot_total(self, id: PropertyId, k: nat) -> int
        decreases k,
    {
        if k == 0 {
            0
        } else {
            self.slot_total(id, (k - 1) as nat) + self.balance_at(id, (k - 1) as u32)
        }
    }

    /// The tokens held by all the owners of `id`: the primary owner at slot 0 and the
    /// secondary owners at slots `1..=count`.
    pub open spec fn tokens_held(self, id: PropertyId) -> int {
        self.slot_total(id, (self.owner_count(id) + 1) as nat)
    }

    /// The maps of per-property data all hold the same properties.
    pub open spec fn property_maps_in_step(self) -> bool {
        &&& self.property_price.dom() == self.properties.dom()
        &&& self.primary_owners.dom() == self.properties.dom()
        &&& self.token_circulation.dom() == self.properties.dom()
        &&& self.token_price.dom() == self.properties.dom()
    }

    /// A stored property: its primary owner holds slot 0, the tokens in circulation are what
    /// slot 0 holds, and all its owners together hold as many tokens as its initial price.
    pub open spec fn property_well_held(self, id: PropertyId) -> bool {
        &&& self.ownership.contains_key((id, 0))
        &&& self.account_at(id, 0) == self.primary_owners[id]
        &&& self.token_circulation[id] == self.balance_at(id, 0)
        &&& self.tokens_held(id) == self.properties[id].initialprice
    }

    /// The state that every call keeps.
    pub open spec fn consistent(self) -> bool {
        &&& self.property_maps_in_step()
        &&& self.properties.dom().finite()
        &&& self.property_cnt == self.properties.dom().len()
        &&& forall|id: PropertyId| #[trigger]
            self.properties.contains_key(id) ==> self.property_well_held(id)
        &&& forall|k: (PropertyId, u32)| #[trigger]
            self.ownership.contains_key(k) ==> self.properties.contains_key(k.0) && k.1
                <= self.owner_count(k.0)
        &&& forall|k: (PropertyId, AccountId)| #[trigger]
            self.secondary_owner.contains_key(k) ==> {
                &&& self.properties.contains_key(k.0)
                &&& 1 <= self.secondary_owner[k] <= self.owner_count(k.0)
                &&& self.account_at(k.0, self.secondary_owner[k]) == k.1
            }
        &&& forall|id: PropertyId| #[trigger]
            self.secondary_owner_index.contains_key(id) ==> self.properties.contains_key(id)
    }
}

} // verus!
