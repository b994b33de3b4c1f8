//! What the pallet's calls keep and undo, stated over the storage model.

use vstd::prelude::*;
use crate::model::{PalletModel, trunc_div, unit_quotient};
use crate::types::{AccountId, Event, Property, PropertyId, Transfer};

verus! {

// ------------------------------------------------------------------ token totals
/// Two states whose slots `0..k` of `id` hold the same balances hold the same total there.
pub proof fn lemma_total_frame(m1: PalletModel, m2: PalletModel, id: PropertyId, k: nat)
    requires
        k <= 0x1_0000_0000,
        forall|i: u32| i < k ==> #[trigger] m1.balance_at(id, i) == m2.balance_at(id, i),
    ensures
        m1.slot_total(id, k) == m2.slot_total(id, k),
    decreases k,
{
    if k > 0 {
        lemma_total_frame(m1, m2, id, (k - 1) as nat);
        assert(m1.balance_at(id, (k - 1) as u32) == m2.balance_at(id, (k - 1) as u32));
    }
}

/// Changing the balance of one slot `j < k` by `d` changes the total of the slots `0..k` by `d`.
pub proof fn lemma_total_change(m1: PalletModel, m2: PalletModel, id: PropertyId, k: nat, j: u32, d: int)
    requires
        k <= 0x1_0000_0000,
        j < k,
        m2.balance_at(id, j) == m1.balance_at(id, j) + d,
        forall|i: u32| i < k && i != j ==> #[trigger] m1.balance_at(id, i) == m2.balance_at(id, i),
    ensures
        m2.slot_total(id, k) == m1.slot_total(id, k) + d,
    decreases k,
{
    if k - 1 == j {
        lemma_total_frame(m1, m2, id, (k - 1) as nat);
    } else {
        lemma_total_change(m1, m2, id, (k - 1) as nat, j, d);
        assert(m1.balance_at(id, (k - 1) as u32) == m2.balance_at(id, (k - 1) as u32));
    }
}

/// The total of the slots `0..k` (`k >= 1`) is at least what slot 0 holds, and at least what
/// slot 0 and any other slot `j < k` hold together.
pub proof fn lemma_total_covers(m: PalletModel, id: PropertyId, k: nat, j: u32)
    requires
        1 <= k <= 0x1_0000_0000,
    ensures
        m.slot_total(id, k) >= m.balance_at(id, 0),
        1 <= j < k ==> m.slot_total(id, k) >= m.balance_at(id, 0) + m.balance_at(id, j),
    decreases k,
{
    assert(m.slot_total(id, k) == m.slot_total(id, (k - 1) as nat) + m.balance_at(id, (k - 1) as u32));
    if k == 1 {
        assert(m.slot_total(id, 0) == 0);
    } else {
        lemma_total_covers(m, id, (k - 1) as nat, j);
    }
}

// ------------------------------------------------------------------ consistency
/// A change that touches neither the properties, their owners and tokens, nor the counter
/// (a new admin, a commission setting, an event) keeps the storage consistent.
pub proof fn law_settings_keep_consistency(m: PalletModel, m2: PalletModel)
    requires
        m.consistent(),
        m2.property_cnt == m.property_cnt,
        m2.properties == m.properties,
        m2.property_price == m.property_price,
        m2.primary_owners == m.primary_owners,
        m2.token_circulation == m.token_circulation,
        m2.token_price == m.token_price,
        m2.ownership == m.ownership,
        m2.secondary_owner_index == m.secondary_owner_index,
        m2.secondary_owner == m.secondary_owner,
    ensures
        m2.consistent(),
{
    assert forall|id: PropertyId| #[trigger] m2.properties.contains_key(id) implies m2.property_well_held(id) by {
        assert(m.property_well_held(id));
        lemma_total_frame(m, m2, id, (m.owner_count(id) + 1) as nat);
    }
}

/// Depositing an event keeps the storage consistent.
pub proof fn law_event_keeps_consistency(m: PalletModel, e: Event)
    requires
        m.consistent(),
    ensures
        m.with_event(e).consistent(),
{
    law_settings_keep_consistency(m, m.with_event(e));
}

/// Minting a property under a new identifier with a non-negative price keeps the storage
/// consistent: the count grows with the set of properties, the price is held at slot 0 by
/// the owner, and it is also the circulation.
pub proof fn law_mint_keeps_consistency(
    m: PalletModel,
    id: PropertyId,
    owner: AccountId,
    details: u64,
    price: i32,
)
    requires
        m.consistent(),
        !m.properties.contains_key(id),
        m.property_cnt < u32::MAX,
        price >= 0,
    ensures
        m.minted(id, owner, details, price).consistent(),
{
    let m2 = m.minted(id, owner, details, price);
    assert(m2.property_price.dom() =~= m2.properties.dom());
    assert(m2.primary_owners.dom() =~= m2.properties.dom());
    assert(m2.token_circulation.dom() =~= m2.properties.dom());
    assert(m2.token_price.dom() =~= m2.properties.dom());
    assert(m2.properties.dom() =~= m.properties.dom().insert(id));
    assert(!m.secondary_owner_index.contains_key(id));
    assert forall|k: PropertyId| #[trigger] m2.properties.contains_key(k) implies m2.property_well_held(k) by {
        if k == id {
            assert(m2.owner_count(id) == 0);
            assert(m2.slot_total(id, 1) == m2.slot_total(id, 0) + m2.balance_at(id, 0));
        } else {
            assert(m.property_well_held(k));
            assert((k, 0u32) != (id, 0u32));
            assert forall|i: u32| i < m.owner_count(k) + 1 implies #[trigger] m.balance_at(k, i)
                == m2.balance_at(k, i) by {
                assert((k, i) != (id, 0u32));
            }
            lemma_total_frame(m, m2, k, (m.owner_count(k) + 1) as nat);
        }
    }
    assert forall|k: (PropertyId, AccountId)| #[trigger] m2.secondary_owner.contains_key(k) implies {
        &&& m2.properties.contains_key(k.0)
        &&& 1 <= m2.secondary_owner[k] <= m2.owner_count(k.0)
        &&& m2.account_at(k.0, m2.secondary_owner[k]) == k.1
    } by {
        assert((k.0, m.secondary_owner[k]) != (id, 0u32));
    }
}

/// Changing the details of a stored property, keeping its initial price, keeps the storage
/// consistent.
pub proof fn law_detail_change_keeps_consistency(m: PalletModel, id: PropertyId, p: Property)
    requires
        m.consistent(),
        m.properties.contains_key(id),
        p.initialprice == m.properties[id].initialprice,
    ensures
        (PalletModel { properties: m.properties.insert(id, p), ..m }).consistent(),
{
    let m2 = PalletModel { properties: m.properties.insert(id, p), ..m };
    assert(m2.properties.dom() =~= m.properties.dom());
    assert forall|k: PropertyId| #[trigger] m2.properties.contains_key(k) implies m2.property_well_held(k) by {
        assert(m.property_well_held(k));
        lemma_total_frame(m, m2, k, (m.owner_count(k) + 1) as nat);
    }
}

/// Changing the price of a stored property (and with it the token price) keeps the storage
/// consistent.
pub proof fn law_reprice_keeps_consistency(m: PalletModel, id: PropertyId, price: i32, tokenprice: i32)
    requires
        m.consistent(),
        m.property_price.contains_key(id),
    ensures
        (PalletModel {
            property_price: m.property_price.insert(id, price),
            token_price: m.token_price.insert(id, tokenprice),
            ..m
        }).consistent(),
{
    let m2 = PalletModel {
        property_price: m.property_price.insert(id, price),
        token_price: m.token_price.insert(id, tokenprice),
        ..m
    };
    assert(m2.property_price.dom() =~= m.property_price.dom());
    assert(m2.token_price.dom() =~= m.token_price.dom());
    assert forall|k: PropertyId| #[trigger] m2.properties.contains_key(k) implies m2.property_well_held(k) by {
        assert(m.property_well_held(k));
        lemma_total_frame(m, m2, k, (m.owner_count(k) + 1) as nat);
    }
}

/// Burning a stored property keeps the storage consistent: with all its entries gone, the
/// count falls with the set of properties, and every other property is untouched.
pub proof fn law_burn_keeps_consistency(m: PalletModel, id: PropertyId)
    requires
        m.consistent(),
        m.properties.contains_key(id),
    ensures
        m.burned(id).consistent(),
{
    let b = m.burned(id);
    assert(b.properties.dom() =~= m.properties.dom().remove(id));
    assert(b.property_price.dom() =~= b.properties.dom());
    assert(b.primary_owners.dom() =~= b.properties.dom());
    assert(b.token_circulation.dom() =~= b.properties.dom());
    assert(b.token_price.dom() =~= b.properties.dom());
    assert forall|k: PropertyId| #[trigger] b.properties.contains_key(k) implies b.property_well_held(k) by {
        assert(m.property_well_held(k));
        assert(b.owner_count(k) == m.owner_count(k));
        assert forall|i: u32| i < m.owner_count(k) + 1 implies #[trigger] m.balance_at(k, i)
            == b.balance_at(k, i) by {
        }
        lemma_total_frame(m, b, k, (m.owner_count(k) + 1) as nat);
    }
    assert forall|k: (PropertyId, AccountId)| #[trigger] b.secondary_owner.contains_key(k) implies {
        &&& b.properties.contains_key(k.0)
        &&& 1 <= b.secondary_owner[k] <= b.owner_count(k.0)
        &&& b.account_at(k.0, b.secondary_owner[k]) == k.1
    } by {
        assert(m.secondary_owner.contains_key(k));
        assert(b.ownership.get((k.0, m.secondary_owner[k])) == m.ownership.get((k.0, m.secondary_owner[k])));
    }
}

// ------------------------------------------------------------------ purchases
/// In a consistent state, a purchase that the circulation allows never takes more from the
/// primary owner's slot than it holds, and never lifts a holder's balance past the property's
/// tokens.
pub proof fn law_balanced_purchase_cannot_overdraw(m: PalletModel, buyer: AccountId, id: PropertyId, n: i32)
    requires
        m.consistent(),
        m.properties.contains_key(id),
        0 <= n <= m.token_circulation[id],
        m.purchase_defined(buyer, id, n),
    ensures
        m.purchase_mid(buyer, id, n).balance_at(id, 0) == m.balance_at(id, 0),
        m.balance_at(id, 0) >= n,
        m.secondary_owner.contains_key((id, buyer)) ==> m.balance_at(id, m.secondary_owner[(id, buyer)]) + n
            <= m.properties[id].initialprice,
        m.properties[id].initialprice <= i32::MAX,
{
    assert(m.property_well_held(id));
    if m.secondary_owner.contains_key((id, buyer)) {
        let idx = m.secondary_owner[(id, buyer)];
        assert((id, idx) != (id, 0u32));
        lemma_total_covers(m, id, (m.owner_count(id) + 1) as nat, idx);
    } else {
        let c = (m.owner_count(id) + 1) as u32;
        assert((id, c) != (id, 0u32));
    }
}

/// A paid purchase neither creates nor destroys tokens: all owners of the property together
/// hold as many as before.
pub proof fn law_purchase_conserves_tokens(m: PalletModel, buyer: AccountId, id: PropertyId, n: i32)
    requires
        m.consistent(),
        m.properties.contains_key(id),
        0 <= n <= m.token_circulation[id],
        m.purchase_defined(buyer, id, n),
    ensures
        m.purchased(buyer, id, n).tokens_held(id) == m.tokens_held(id),
{
    law_balanced_purchase_cannot_overdraw(m, buyer, id, n);
    let mid = m.purchase_mid(buyer, id, n);
    let p = m.purchased(buyer, id, n);
    let k = (m.owner_count(id) + 1) as nat;
    if m.secondary_owner.contains_key((id, buyer)) {
        let idx = m.secondary_owner[(id, buyer)];
        assert(1 <= idx <= m.owner_count(id));
        assert forall|i: u32| i < k && i != idx implies #[trigger] m.balance_at(id, i) == mid.balance_at(id, i) by {
            assert((id, i) != (id, idx));
        }
        lemma_total_change(m, mid, id, k, idx, n as int);
        assert forall|i: u32| i < k && i != 0 implies #[trigger] mid.balance_at(id, i) == p.balance_at(id, i) by {
            assert((id, i) != (id, 0u32));
        }
        lemma_total_change(mid, p, id, k, 0, -n);
    } else {
        let c = (m.owner_count(id) + 1) as u32;
        assert(!m.ownership.contains_key((id, c)));
        assert forall|i: u32| i < k implies #[trigger] m.balance_at(id, i) == mid.balance_at(id, i) by {
            assert((id, i) != (id, c));
        }
        lemma_total_frame(m, mid, id, k);
        assert(mid.slot_total(id, k + 1) == mid.slot_total(id, k) + mid.balance_at(id, c));
        assert forall|i: u32| i < k + 1 && i != 0 implies #[trigger] mid.balance_at(id, i) == p.balance_at(id, i) by {
            assert((id, i) != (id, 0u32));
        }
        lemma_total_change(mid, p, id, k + 1, 0, -n);
    }
}

/// A paid purchase keeps the storage consistent.
pub proof fn law_purchase_keeps_consistency(m: PalletModel, buyer: AccountId, id: PropertyId, n: i32)
    requires
        m.consistent(),
        m.properties.contains_key(id),
        0 <= n <= m.token_circulation[id],
        m.purchase_defined(buyer, id, n),
    ensures
        m.purchased(buyer, id, n).consistent(),
{
    law_balanced_purchase_cannot_overdraw(m, buyer, id, n);
    law_purchase_conserves_tokens(m, buyer, id, n);
    let mid = m.purchase_mid(buyer, id, n);
    let p = m.purchased(buyer, id, n);
    let existing = m.secondary_owner.contains_key((id, buyer));
    let slot: u32 = if existing { m.secondary_owner[(id, buyer)] } else { (m.owner_count(id) + 1) as u32 };
    assert((id, slot) != (id, 0u32));
    assert(p.token_circulation.dom() =~= m.token_circulation.dom());
    if !existing {
        assert(p.secondary_owner_index.dom() =~= m.secondary_owner_index.dom().insert(id));
    }
    assert forall|k: PropertyId| #[trigger] p.properties.contains_key(k) implies p.property_well_held(k) by {
        if k != id {
            assert(m.property_well_held(k));
            assert(p.owner_count(k) == m.owner_count(k));
            assert forall|i: u32| i < m.owner_count(k) + 1 implies #[trigger] m.balance_at(k, i)
                == p.balance_at(k, i) by {
                assert((k, i) != (id, 0u32));
                assert((k, i) != (id, slot));
            }
            lemma_total_frame(m, p, k, (m.owner_count(k) + 1) as nat);
        }
    }
    assert forall|k: (PropertyId, u32)| #[trigger] p.ownership.contains_key(k) implies p.properties.contains_key(k.0)
        && k.1 <= p.owner_count(k.0) by {
        if k != (id, slot) && k != (id, 0u32) {
            assert(m.ownership.contains_key(k));
        }
    }
    assert forall|k: (PropertyId, AccountId)| #[trigger] p.secondary_owner.contains_key(k) implies {
        &&& p.properties.contains_key(k.0)
        &&& 1 <= p.secondary_owner[k] <= p.owner_count(k.0)
        &&& p.account_at(k.0, p.secondary_owner[k]) == k.1
    } by {
        if k != (id, buyer) || existing {
            assert(m.secondary_owner.contains_key(k));
            let j = m.secondary_owner[k];
            assert(p.secondary_owner[k] == j);
            if (k.0, j) != (id, slot) {
                assert((k.0, j) != (id, 0u32));
                assert(p.ownership.get((k.0, j)) == m.ownership.get((k.0, j)));
            }
        }
    }
    assert forall|k: PropertyId| #[trigger] p.secondary_owner_index.contains_key(k) implies p.properties.contains_key(k) by {
    }
}

// ------------------------------------------------------------------ sales
/// In a consistent state, a sale by a holder of at least `n` tokens keeps the circulation and
/// the primary owner's slot within the property's tokens.
pub proof fn law_sale_stays_within_tokens(m: PalletModel, seller: AccountId, id: PropertyId, n: i32)
    requires
        m.consistent(),
        m.properties.contains_key(id),
        m.secondary_owner.contains_key((id, seller)),
        0 <= n <= m.balance_at(id, m.secondary_owner[(id, seller)]),
    ensures
        m.token_circulation[id] + n <= m.properties[id].initialprice <= i32::MAX,
        m.account_at(id, m.secondary_owner[(id, seller)]) == seller,
{
    assert(m.property_well_held(id));
    let idx = m.secondary_owner[(id, seller)];
    lemma_total_covers(m, id, (m.owner_count(id) + 1) as nat, idx);
}

/// A paid sale neither creates nor destroys tokens.
pub proof fn law_sale_conserves_tokens(m: PalletModel, seller: AccountId, id: PropertyId, n: i32)
    requires
        m.consistent(),
        m.properties.contains_key(id),
        m.secondary_owner.contains_key((id, seller)),
        0 <= n <= m.balance_at(id, m.secondary_owner[(id, seller)]),
    ensures
        m.sold(id, m.secondary_owner[(id, seller)], n).tokens_held(id) == m.tokens_held(id),
{
    law_sale_stays_within_tokens(m, seller, id, n);
    let idx = m.secondary_owner[(id, seller)];
    let k = (m.owner_count(id) + 1) as nat;
    let m1 = PalletModel {
        token_circulation: m.token_circulation.insert(id, (m.token_circulation[id] + n) as i32),
        ownership: m.ownership.insert((id, idx), (m.account_at(id, idx), (m.balance_at(id, idx) - n) as u32)),
        ..m
    };
    let p = m.sold(id, idx, n);
    assert((id, idx) != (id, 0u32));
    assert forall|i: u32| i < k && i != idx implies #[trigger] m.balance_at(id, i) == m1.balance_at(id, i) by {
        assert((id, i) != (id, idx));
    }
    lemma_total_change(m, m1, id, k, idx, -n);
    assert forall|i: u32| i < k && i != 0 implies #[trigger] m1.balance_at(id, i) == p.balance_at(id, i) by {
        assert((id, i) != (id, 0u32));
    }
    lemma_total_change(m1, p, id, k, 0, n as int);
}

/// A paid sale keeps the storage consistent.
pub proof fn law_sale_keeps_consistency(m: PalletModel, seller: AccountId, id: PropertyId, n: i32)
    requires
        m.consistent(),
        m.properties.contains_key(id),
        m.secondary_owner.contains_key((id, seller)),
        0 <= n <= m.balance_at(id, m.secondary_owner[(id, seller)]),
    ensures
        m.sold(id, m.secondary_owner[(id, seller)], n).consistent(),
{
    law_sale_stays_within_tokens(m, seller, id, n);
    law_sale_conserves_tokens(m, seller, id, n);
    let idx = m.secondary_owner[(id, seller)];
    let p = m.sold(id, idx, n);
    assert((id, idx) != (id, 0u32));
    assert(p.token_circulation.dom() =~= m.token_circulation.dom());
    assert forall|k: PropertyId| #[trigger] p.properties.contains_key(k) implies p.property_well_held(k) by {
        if k != id {
            assert(m.property_well_held(k));
            assert forall|i: u32| i < m.owner_count(k) + 1 implies #[trigger] m.balance_at(k, i)
                == p.balance_at(k, i) by {
                assert((k, i) != (id, 0u32));
                assert((k, i) != (id, idx));
            }
            lemma_total_frame(m, p, k, (m.owner_count(k) + 1) as nat);
        }
    }
    assert forall|k: (PropertyId, u32)| #[trigger] p.ownership.contains_key(k) implies p.properties.contains_key(k.0)
        && k.1 <= p.owner_count(k.0) by {
        if k != (id, idx) && k != (id, 0u32) {
            assert(m.ownership.contains_key(k));
        }
    }
    assert forall|k: (PropertyId, AccountId)| #[trigger] p.secondary_owner.contains_key(k) implies {
        &&& p.properties.contains_key(k.0)
        &&& 1 <= p.secondary_owner[k] <= p.owner_count(k.0)
        &&& p.account_at(k.0, p.secondary_owner[k]) == k.1
    } by {
        let j = m.secondary_owner[k];
        assert((k.0, j) != (id, 0u32));
        if (k.0, j) != (id, idx) {
            assert(p.ownership.get((k.0, j)) == m.ownership.get((k.0, j)));
        }
    }
}

/// The slot that a buyer holds after a purchase of `id`.
pub open spec fn slot_after_purchase(m: PalletModel, buyer: AccountId, id: PropertyId, n: i32) -> u32 {
    m.purchased(buyer, id, n).secondary_owner[(id, buyer)]
}

/// Selling back the `n` tokens just bought, both payments going through, puts the token
/// circulation and every token balance back where they were.
pub proof fn law_sell_undoes_buy(m: PalletModel, buyer: AccountId, id: PropertyId, n: i32)
    requires
        m.consistent(),
        m.properties.contains_key(id),
        0 <= n <= m.token_circulation[id],
        m.purchase_defined(buyer, id, n),
    ensures
        m.purchased(buyer, id, n).sold(id, slot_after_purchase(m, buyer, id, n), n).token_circulation
            == m.token_circulation,
        forall|k: PropertyId, i: u32|
            #[trigger] m.purchased(buyer, id, n).sold(id, slot_after_purchase(m, buyer, id, n), n).balance_at(
                k,
                i,
            ) == m.balance_at(k, i),
{
    law_balanced_purchase_cannot_overdraw(m, buyer, id, n);
    let mid = m.purchase_mid(buyer, id, n);
    let m1 = m.purchased(buyer, id, n);
    let idx = slot_after_purchase(m, buyer, id, n);
    let m2 = m1.sold(id, idx, n);
    assert(m2.token_circulation =~= m.token_circulation);
    assert(idx >= 1);
    assert((id, idx) != (id, 0u32));
    if m.secondary_owner.contains_key((id, buyer)) {
        assert(idx == m.secondary_owner[(id, buyer)]);
        assert(m1.balance_at(id, idx) == m.balance_at(id, idx) + n);
    } else {
        assert(idx == m.owner_count(id) + 1);
        assert(!m.ownership.contains_key((id, idx)));
        assert(m1.balance_at(id, idx) == n);
    }
    assert(m1.balance_at(id, 0) == m.balance_at(id, 0) - n);
    assert forall|k: PropertyId, i: u32| #[trigger] m2.balance_at(k, i) == m.balance_at(k, i) by {
        if (k, i) == (id, 0u32) {
        } else if (k, i) == (id, idx) {
        } else {
            assert(m2.ownership.get((k, i)) == m.ownership.get((k, i)));
        }
    }
}

// ------------------------------------------------------------------ arithmetic of the calls
/// `trunc_div` is the division that Rust's `/` performs on integers: `a` is the quotient
/// times `b` plus a remainder that is smaller than `b` in size and has the sign of `a` (or is
/// zero). These conditions hold of exactly one quotient.
pub proof fn law_trunc_div_is_rust_division(a: int, b: int)
    requires
        b != 0,
    ensures
        ({
            let r = a - trunc_div(a, b) * b;
            &&& (if r < 0 { -r } else { r }) < (if b < 0 { -b } else { b })
            &&& r == 0 || (r > 0) == (a > 0)
        }),
{
    let aa: int = if a < 0 { -a } else { a };
    let bb: int = if b < 0 { -b } else { b };
    let q0 = aa / bb;
    let r0 = aa % bb;
    assert(aa == bb * q0 + r0 && 0 <= r0 < bb) by (nonlinear_arith)
        requires
            bb > 0,
            aa >= 0,
            q0 == aa / bb,
            r0 == aa % bb,
    ;
    let q = trunc_div(a, b);
    if (a < 0) == (b < 0) {
        assert(q == q0);
    } else {
        assert(q == -q0);
    }
    assert(a - q * b == (if a < 0 { -r0 } else { r0 })) by (nonlinear_arith)
        requires
            aa == bb * q0 + r0,
            aa == (if a < 0 { -a } else { a }),
            bb == (if b < 0 { -b } else { b }),
            q == (if (a < 0) == (b < 0) { q0 } else { -q0 }),
    ;
}

/// `1 / tokenprice`, the unit in which purchases and sales are priced, is Rust's division of 1
/// by a non-zero token price: 1 is the quotient times the price plus a remainder that is not
/// negative and smaller than the price in size.
pub proof fn law_unit_quotient_is_rust_division(tokenprice: i32)
    requires
        tokenprice != 0,
    ensures
        ({
            let r = 1 - unit_quotient(tokenprice) * tokenprice;
            &&& 0 <= r
            &&& r < (if tokenprice < 0 { -tokenprice } else { tokenprice as int })
        }),
{
}

/// A price change from `old` (not zero) to `new` sets the token price to `old` plus
/// 10000 times the quotient of the difference `new - old` by `old`, truncated toward zero as
/// Rust's `/` on `i32` truncates: the difference is that quotient times `old` plus a
/// remainder smaller than `old` in size and of the difference's sign (or zero). So a cut of
/// less than the whole price (0 < new < old) leaves the token price at `old`.
pub proof fn law_token_price_after_reprice(old: i32, new: i32)
    requires
        old != 0,
    ensures
        ({
            let t = PalletModel::repriced_token(old, new) - old;
            let q = t / 10000;
            let d = new - old;
            let r = d - q * old;
            &&& t == q * 10000
            &&& (if r < 0 { -r } else { r }) < (if old < 0 { -old } else { old as int })
            &&& r == 0 || (r > 0) == (d > 0)
        }),
        0 < new < old ==> PalletModel::repriced_token(old, new) == old,
{
    let d = new - old;
    law_trunc_div_is_rust_division(d, old as int);
    let q = trunc_div(d, old as int);
    assert(PalletModel::repriced_token(old, new) - old == q * 10000);
    assert((q * 10000) / 10000 == q);
    if 0 < new < old {
        let r = d - q * old;
        if q > 0 {
            assert(q * old >= old) by (nonlinear_arith)
                requires
                    q >= 1,
                    old > 0,
            ;
        } else if q < 0 {
            assert(q * old <= -old) by (nonlinear_arith)
                requires
                    q <= -1,
                    old > 0,
            ;
        }
        assert(q == 0);
    }
}

// ------------------------------------------------------------------ payments
/// A payment of `amount` from `buyer` to `seller`, for a purchase (`is_buy_token`) or a sale,
/// goes through exactly when the payer (`buyer`, with free balance `buyer_free`) can cover
/// the amount plus the commission and the payee (`seller_free`) can cover the commission.
/// The commission is `amount * p / 100` rounded down, `p` being the purchase percent stored
/// under key 0 for a purchase and the sale percent stored under key 0 for a sale (0 where
/// none is stored), whatever its size. The transfers are, in order: the amount from payer to
/// payee, and the commission from each of them to the commission account stored under key 0
/// (the zero account where none is stored).
pub proof fn law_payment_terms(
    m: PalletModel,
    seller: AccountId,
    buyer: AccountId,
    amount: u32,
    is_buy_token: bool,
    buyer_free: u128,
    seller_free: u128,
)
    ensures
        ({
            let p: u32 = if is_buy_token {
                match m.buy_comission.get(0) {
                    Some(x) => x,
                    None => 0,
                }
            } else {
                match m.sell_comission.get(0) {
                    Some(x) => x,
                    None => 0,
                }
            };
            let c = (amount * p) / 100;
            let fee = match m.comission_acc.get(0) {
                Some(f) => f,
                None => AccountId::spec_zero(),
            };
            let outcome = m.settlement(seller, buyer, amount, is_buy_token, buyer_free, seller_free);
            &&& (outcome is Some <==> (buyer_free >= amount + c && seller_free >= c))
            &&& (outcome is Some ==> outcome->0 == seq![
                Transfer { from: buyer, to: seller, amount: amount as u128 },
                Transfer { from: buyer, to: fee, amount: c as u128 },
                Transfer { from: seller, to: fee, amount: c as u128 },
            ])
        }),
{
}

// ------------------------------------------------------------------ burning
/// A burn goes through exactly when every secondary owner slot of the property (slots
/// `1..=count`, count being the recorded number of secondary owners, 0 where none is
/// recorded) holds no tokens; a single slot in that range that holds tokens stops it.
pub proof fn law_burn_needs_empty_secondary_slots(m: PalletModel, id: PropertyId)
    ensures
        m.burn_all_clear(id) <==> (forall|i: u32|
            #![trigger m.ownership.get((id, i))]
            1 <= i <= (match m.secondary_owner_index.get(id) {
                Some(c) => c,
                None => 0u32,
            }) ==> (match m.ownership.get((id, i)) {
                Some(e) => e.1,
                None => 0u32,
            }) == 0),
        forall|i: u32|
            1 <= i <= (match m.secondary_owner_index.get(id) {
                Some(c) => c,
                None => 0u32,
            }) && (match #[trigger] m.ownership.get((id, i)) {
                Some(e) => e.1,
                None => 0u32,
            }) != 0 ==> !m.burn_all_clear(id),
{
    let count = m.owner_count(id);
    assert(count == (match m.secondary_owner_index.get(id) {
        Some(c) => c,
        None => 0u32,
    }));
    if m.burn_all_clear(id) {
        assert forall|i: u32| 1 <= i <= count implies (match #[trigger] m.ownership.get((id, i)) {
            Some(e) => e.1,
            None => 0u32,
        }) == 0 by {
            assert(m.balance_at(id, i) == 0);
        }
    } else {
        let w = choose|i: u32| !(1 <= i <= count ==> #[trigger] m.balance_at(id, i) == 0);
        assert(1 <= w <= count && m.balance_at(id, w) != 0);
        assert((match m.ownership.get((id, w)) {
            Some(e) => e.1,
            None => 0u32,
        }) != 0);
    }
    assert forall|i: u32|
        1 <= i <= count && (match #[trigger] m.ownership.get((id, i)) {
            Some(e) => e.1,
            None => 0u32,
        }) != 0 implies !m.burn_all_clear(id) by {
        assert(m.balance_at(id, i) != 0);
    }
}

// ------------------------------------------------------------------ what trades move
/// The payment for `n` tokens is `1 / tokenprice` (Rust's truncating division) times `n`:
/// `n` at a token price of 1, `-n` at -1, and nothing at any other non-zero token price.
pub proof fn law_trade_price(m: PalletModel, id: PropertyId, n: i32)
    requires
        m.token_price.contains_key(id),
    ensures
        m.token_price[id] == 1 ==> m.trade_price(id, n) == n,
        m.token_price[id] == -1 ==> m.trade_price(id, n) == -n,
        (m.token_price[id] > 1 || m.token_price[id] < -1) ==> m.trade_price(id, n) == 0,
{
    assert(-1 * (n as int) == -n);
}

/// A paid purchase of `n` tokens moves exactly `n` tokens from the primary owner's slot 0 to
/// the buyer's slot, and lowers the circulation by `n`. A buyer who already holds a slot keeps
/// it; a new buyer gets the next slot, recorded under the buyer's account. No other balance
/// changes.
pub proof fn law_purchase_moves_tokens(m: PalletModel, buyer: AccountId, id: PropertyId, n: i32)
    requires
        m.consistent(),
        m.properties.contains_key(id),
        0 <= n <= m.token_circulation[id],
        m.purchase_defined(buyer, id, n),
    ensures
        ({
            let p = m.purchased(buyer, id, n);
            let j = p.secondary_owner[(id, buyer)];
            &&& p.secondary_owner.contains_key((id, buyer))
            &&& m.secondary_owner.contains_key((id, buyer)) ==> j == m.secondary_owner[(id, buyer)]
            &&& !m.secondary_owner.contains_key((id, buyer)) ==> j == m.owner_count(id) + 1
                && p.owner_count(id) == j
            &&& p.account_at(id, j) == buyer
            &&& p.balance_at(id, j) == m.balance_at(id, j) + n
            &&& p.balance_at(id, 0) == m.balance_at(id, 0) - n
            &&& p.account_at(id, 0) == m.account_at(id, 0)
            &&& p.token_circulation[id] == m.token_circulation[id] - n
            &&& forall|k: PropertyId, i: u32|
                (k, i) != (id, 0u32) && (k, i) != (id, j) ==> #[trigger] p.balance_at(k, i)
                    == m.balance_at(k, i)
        }),
{
    law_balanced_purchase_cannot_overdraw(m, buyer, id, n);
    let p = m.purchased(buyer, id, n);
    let j = p.secondary_owner[(id, buyer)];
    assert(j >= 1);
    assert((id, j) != (id, 0u32));
    if !m.secondary_owner.contains_key((id, buyer)) {
        assert(!m.ownership.contains_key((id, j)));
    }
    assert forall|k: PropertyId, i: u32|
        (k, i) != (id, 0u32) && (k, i) != (id, j) implies #[trigger] p.balance_at(k, i)
            == m.balance_at(k, i) by {
        assert(p.ownership.get((k, i)) == m.ownership.get((k, i)));
    }
}

/// A paid sale of `n` tokens held at slot `idx` moves exactly `n` tokens from that slot back
/// to the primary owner's slot 0, and raises the circulation by `n`. No other balance changes,
/// and both slots keep their holders.
pub proof fn law_sale_moves_tokens(m: PalletModel, seller: AccountId, id: PropertyId, n: i32)
    requires
        m.consistent(),
        m.properties.contains_key(id),
        m.secondary_owner.contains_key((id, seller)),
        0 <= n <= m.balance_at(id, m.secondary_owner[(id, seller)]),
    ensures
        ({
            let idx = m.secondary_owner[(id, seller)];
            let p = m.sold(id, idx, n);
            &&& p.balance_at(id, idx) == m.balance_at(id, idx) - n
            &&& p.account_at(id, idx) == seller
            &&& p.balance_at(id, 0) == m.balance_at(id, 0) + n
            &&& p.account_at(id, 0) == m.account_at(id, 0)
            &&& p.token_circulation[id] == m.token_circulation[id] + n
            &&& p.secondary_owner == m.secondary_owner
            &&& forall|k: PropertyId, i: u32|
                (k, i) != (id, 0u32) && (k, i) != (id, idx) ==> #[trigger] p.balance_at(k, i)
                    == m.balance_at(k, i)
        }),
{
    law_sale_stays_within_tokens(m, seller, id, n);
    let idx = m.secondary_owner[(id, seller)];
    let p = m.sold(id, idx, n);
    assert((id, idx) != (id, 0u32));
    assert forall|k: PropertyId, i: u32|
        (k, i) != (id, 0u32) && (k, i) != (id, idx) implies #[trigger] p.balance_at(k, i)
            == m.balance_at(k, i) by {
        assert(p.ownership.get((k, i)) == m.ownership.get((k, i)));
    }
}

/// Minting stores the property with its details and price, gives its owner the whole price
/// in tokens at slot 0, puts as many tokens in circulation at a token price of 1, and counts
/// one more property.
pub proof fn law_mint_stores_the_property(
    m: PalletModel,
    id: PropertyId,
    owner: AccountId,
    details: u64,
    price: i32,
)
    requires
        m.property_cnt < u32::MAX,
        price >= 0,
    ensures
        ({
            let p = m.minted(id, owner, details, price);
            &&& p.properties.get(id) == Some(Property { details, initialprice: price })
            &&& p.property_price.get(id) == Some(price)
            &&& p.primary_owners.get(id) == Some(owner)
            &&& p.token_circulation.get(id) == Some(price)
            &&& p.token_price.get(id) == Some(1i32)
            &&& p.ownership.get((id, 0)) == Some((owner, price as u32))
            &&& p.property_cnt == m.property_cnt + 1
            &&& p.secondary_owner == m.secondary_owner
            &&& p.secondary_owner_index == m.secondary_owner_index
        }),
{
}

} // verus!
