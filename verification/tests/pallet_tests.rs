use nodetemplatetoken::pallet::{div_toward_zero, ensure_root, ensure_signed, Pallet};
use nodetemplatetoken::types::{AccountId, DispatchError, Error, Event, Origin, Property, PropertyId, Transfer};

fn acc(b: u8) -> AccountId {
    AccountId { bytes: [b; 32] }
}

fn expected_id(details: u64, price: i32) -> PropertyId {
    let h = <frame_support::sp_runtime::traits::BlakeTwo256 as frame_support::sp_runtime::traits::Hash>::hash_of(
        &(details, price),
    );
    PropertyId { bytes: h.0 }
}

const ROOT_ADMIN: u8 = 1;
const OWNER: u8 = 2;
const BUYER: u8 = 3;
const FEE: u8 = 9;

/// A pallet with an admin, a commission account, and one property of price 100 owned by OWNER.
fn setup(buy_pct: u32, sell_pct: u32) -> (Pallet, PropertyId) {
    let mut p = Pallet::new();
    assert_eq!(p.add_superadmin(Origin::Root, acc(ROOT_ADMIN)), Ok(()));
    assert_eq!(p.add_comissionacount(Origin::Root, acc(FEE)), Ok(()));
    assert_eq!(p.add_buycomissionpercent(Origin::Root, buy_pct), Ok(()));
    assert_eq!(p.add_sellcomissionpercent(Origin::Root, sell_pct), Ok(()));
    assert_eq!(p.create_property(Origin::Signed(acc(ROOT_ADMIN)), acc(OWNER), 7, 100), Ok(()));
    (p, expected_id(7, 100))
}

#[test]
fn genesis_is_empty() {
    let p = Pallet::new();
    assert_eq!(p.property_cnt(), 0);
    assert!(p.events().is_empty());
    assert_eq!(p.comissionacc(0), AccountId { bytes: [0; 32] });
    assert_eq!(p.buycomission(0), 0);
    assert_eq!(p.sellcomission(0), 0);
    assert_eq!(p.adminacc(acc(1)), 0);
}

#[test]
fn root_calls_configure_and_others_are_refused() {
    let mut p = Pallet::new();
    assert_eq!(p.add_superadmin(Origin::Signed(acc(1)), acc(1)), Err(DispatchError::BadOrigin));
    assert_eq!(p.add_comissionacount(Origin::Unsigned, acc(9)), Err(DispatchError::BadOrigin));
    assert_eq!(p.add_sellcomissionpercent(Origin::Signed(acc(1)), 5), Err(DispatchError::BadOrigin));
    assert_eq!(p.add_buycomissionpercent(Origin::Signed(acc(1)), 5), Err(DispatchError::BadOrigin));
    assert!(p.events().is_empty());
    assert_eq!(p.adminacc(acc(1)), 0);

    assert_eq!(p.add_superadmin(Origin::Root, acc(1)), Ok(()));
    assert_eq!(p.add_comissionacount(Origin::Root, acc(9)), Ok(()));
    assert_eq!(p.add_sellcomissionpercent(Origin::Root, 5), Ok(()));
    assert_eq!(p.add_buycomissionpercent(Origin::Root, 7), Ok(()));
    assert_eq!(p.adminacc(acc(1)), 1);
    assert_eq!(p.comissionacc(0), acc(9));
    assert_eq!(p.sellcomission(0), 5);
    assert_eq!(p.buycomission(0), 7);
    assert_eq!(
        p.events().clone(),
        vec![
            Event::AdminAccountAdded(acc(1)),
            Event::ComissionAccountAdded(acc(9)),
            Event::SellComissionPercentAdded(5),
            Event::BuyComissionPercentAdded(7),
        ]
    );
}

#[test]
fn ensure_helpers() {
    assert_eq!(ensure_signed(Origin::Signed(acc(4))), Ok(acc(4)));
    assert_eq!(ensure_signed(Origin::Root), Err(DispatchError::BadOrigin));
    assert_eq!(ensure_signed(Origin::Unsigned), Err(DispatchError::BadOrigin));
    assert_eq!(ensure_root(Origin::Root), Ok(()));
    assert_eq!(ensure_root(Origin::Signed(acc(4))), Err(DispatchError::BadOrigin));
}

#[test]
fn create_property_stores_everything() {
    let (p, id) = setup(0, 0);
    assert_eq!(p.property_cnt(), 1);
    assert_eq!(p.properties(id), Some(Property { details: 7, initialprice: 100 }));
    assert_eq!(p.propertyprice(id), Some(100));
    assert_eq!(p.primary_property_owners(id), Some(acc(OWNER)));
    assert_eq!(p.token_circulation(id), Some(100));
    assert_eq!(p.token_price(id), Some(1));
    assert_eq!(p.properties_ownership((id, 0)), (acc(OWNER), 100));
    assert_eq!(p.secondary_owner_index(id), 0);
    assert_eq!(*p.events().last().unwrap(), Event::Created(acc(ROOT_ADMIN), id));
}

#[test]
fn create_property_needs_an_admin() {
    let mut p = Pallet::new();
    assert_eq!(
        p.create_property(Origin::Signed(acc(5)), acc(5), 1, 10),
        Err(DispatchError::Module(Error::NotAdminAccount))
    );
    assert_eq!(p.create_property(Origin::Unsigned, acc(5), 1, 10), Err(DispatchError::BadOrigin));
    assert_eq!(p.create_property(Origin::Root, acc(5), 1, 10), Err(DispatchError::BadOrigin));
    assert_eq!(p.property_cnt(), 0);
    assert!(p.events().is_empty());
}

#[test]
fn mint_identifier_is_the_hash_of_details_and_price() {
    let mut p = Pallet::new();
    let id = p.mint(&acc(2), 42, 500).unwrap();
    assert_eq!(id, expected_id(42, 500));
    assert_ne!(id.bytes, [0u8; 32]);
    let other = p.mint(&acc(2), 43, 500).unwrap();
    assert_ne!(id, other);
    // the same details and price give the same identifier, which is already taken
    assert_eq!(p.mint(&acc(3), 42, 500), Err(Error::PropertyAlreadyExist));
    assert_eq!(p.property_cnt(), 2);
    assert_eq!(p.primary_property_owners(id), Some(acc(2)));
}

#[test]
fn register_property_under_a_given_id() {
    let mut p = Pallet::new();
    let id = PropertyId { bytes: [7; 32] };
    assert_eq!(p.register_property(id, &acc(2), 1, 30), Ok(()));
    assert_eq!(p.register_property(id, &acc(3), 2, 40), Err(Error::PropertyAlreadyExist));
    assert_eq!(p.properties(id), Some(Property { details: 1, initialprice: 30 }));
    assert_eq!(p.token_circulation(id), Some(30));
    assert_eq!(p.token_price(id), Some(1));
    assert_eq!(p.properties_ownership((id, 0)), (acc(2), 30));
    assert_eq!(p.property_cnt(), 1);
}

#[test]
fn modify_property_details() {
    let (mut p, id) = setup(0, 0);
    assert_eq!(p.modify_property_details(Origin::Signed(acc(ROOT_ADMIN)), id, 99), Ok(()));
    assert_eq!(p.properties(id), Some(Property { details: 99, initialprice: 100 }));
    assert_eq!(*p.events().last().unwrap(), Event::DetailModified(acc(ROOT_ADMIN), id));
    let missing = PropertyId { bytes: [5; 32] };
    assert_eq!(
        p.modify_property_details(Origin::Signed(acc(ROOT_ADMIN)), missing, 1),
        Err(DispatchError::Module(Error::PropertyNotExist))
    );
    assert_eq!(
        p.modify_property_details(Origin::Signed(acc(BUYER)), id, 1),
        Err(DispatchError::Module(Error::NotAdminAccount))
    );
    assert_eq!(p.modify_property_details(Origin::Root, id, 1), Err(DispatchError::BadOrigin));
    assert_eq!(p.properties(id), Some(Property { details: 99, initialprice: 100 }));
}

#[test]
fn modify_property_price_sets_token_price() {
    let (mut p, id) = setup(0, 0);
    // (150 - 100) / 100 == 0, so the token price becomes the old price
    assert_eq!(p.modify_property_price(Origin::Signed(acc(ROOT_ADMIN)), id, 150), Ok(()));
    assert_eq!(p.propertyprice(id), Some(150));
    assert_eq!(p.token_price(id), Some(100));
    // (300 - 150) / 150 == 1: 150 + 1 * 100 * 100
    assert_eq!(p.modify_property_price(Origin::Signed(acc(ROOT_ADMIN)), id, 300), Ok(()));
    assert_eq!(p.token_price(id), Some(10150));
    // (-450 - 300) / 300 == -2 (toward zero): 300 - 20000
    assert_eq!(p.modify_property_price(Origin::Signed(acc(ROOT_ADMIN)), id, -450), Ok(()));
    assert_eq!(p.token_price(id), Some(-19700));
    assert_eq!(*p.events().last().unwrap(), Event::PriceModified(acc(ROOT_ADMIN), id, -450));
    assert_eq!(
        p.modify_property_price(Origin::Signed(acc(BUYER)), id, 1),
        Err(DispatchError::Module(Error::NotAdminAccount))
    );
    assert_eq!(p.modify_property_price(Origin::Unsigned, id, 1), Err(DispatchError::BadOrigin));
}

#[test]
fn division_truncates_toward_zero() {
    assert_eq!(div_toward_zero(7, 2), 3);
    assert_eq!(div_toward_zero(-7, 2), -3);
    assert_eq!(div_toward_zero(7, -2), -3);
    assert_eq!(div_toward_zero(-7, -2), 3);
    assert_eq!(div_toward_zero(i32::MIN, 1), i32::MIN);
    assert_eq!(div_toward_zero(0, -5), 0);
}

#[test]
fn finalisetransaction_commission() {
    let (p, _) = setup(3, 1);
    // 3% of 250 is 7.5, rounded down to 7; the buyer needs 257, the seller 7
    let t = p.finalisetransaction(acc(OWNER), acc(BUYER), 250, true, 257, 7).unwrap();
    assert_eq!(
        t,
        vec![
            Transfer { from: acc(BUYER), to: acc(OWNER), amount: 250 },
            Transfer { from: acc(BUYER), to: acc(FEE), amount: 7 },
            Transfer { from: acc(OWNER), to: acc(FEE), amount: 7 },
        ]
    );
    assert_eq!(p.finalisetransaction(acc(OWNER), acc(BUYER), 250, true, 256, 7), None);
    assert_eq!(p.finalisetransaction(acc(OWNER), acc(BUYER), 250, true, 257, 6), None);
    // 1% of 99 is 0
    let t = p.finalisetransaction(acc(OWNER), acc(BUYER), 99, false, 99, 0).unwrap();
    assert_eq!(t[1].amount, 0);
    assert_eq!(t[2].amount, 0);
}

#[test]
fn buy_tokens() {
    let (mut p, id) = setup(10, 0);
    let t = p.buy_propertytoken(Origin::Signed(acc(BUYER)), id, 10, 11, 1).unwrap();
    assert_eq!(
        t,
        vec![
            Transfer { from: acc(BUYER), to: acc(OWNER), amount: 10 },
            Transfer { from: acc(BUYER), to: acc(FEE), amount: 1 },
            Transfer { from: acc(OWNER), to: acc(FEE), amount: 1 },
        ]
    );
    assert_eq!(p.token_circulation(id), Some(90));
    assert_eq!(p.secondary_owner_index(id), 1);
    assert_eq!(p.secondary_owners((id, acc(BUYER))), 1);
    assert_eq!(p.properties_ownership((id, 1)), (acc(BUYER), 10));
    assert_eq!(p.properties_ownership((id, 0)), (acc(OWNER), 90));
    assert_eq!(*p.events().last().unwrap(), Event::Bought(acc(BUYER), id));
    // a second purchase goes to the same slot
    p.buy_propertytoken(Origin::Signed(acc(BUYER)), id, 5, 1000, 1000).unwrap();
    assert_eq!(p.secondary_owner_index(id), 1);
    assert_eq!(p.properties_ownership((id, 1)), (acc(BUYER), 15));
    assert_eq!(p.properties_ownership((id, 0)), (acc(OWNER), 85));
    assert_eq!(p.token_circulation(id), Some(85));
}

#[test]
fn buy_with_short_balance_changes_nothing() {
    let (mut p, id) = setup(10, 0);
    let n_events = p.events().len();
    // the buyer needs 11
    assert_eq!(
        p.buy_propertytoken(Origin::Signed(acc(BUYER)), id, 10, 10, 1),
        Err(DispatchError::Module(Error::NotEnoughBalance))
    );
    // the seller needs 1
    assert_eq!(
        p.buy_propertytoken(Origin::Signed(acc(BUYER)), id, 10, 11, 0),
        Err(DispatchError::Module(Error::NotEnoughBalance))
    );
    assert_eq!(p.token_circulation(id), Some(100));
    assert_eq!(p.secondary_owner_index(id), 0);
    assert_eq!(p.events().len(), n_events);
}

#[test]
fn buy_more_than_circulates() {
    let (mut p, id) = setup(0, 0);
    assert_eq!(
        p.buy_propertytoken(Origin::Signed(acc(BUYER)), id, 101, 1000, 1000),
        Err(DispatchError::Module(Error::NoAvailableTokens))
    );
    assert_eq!(p.buy_propertytoken(Origin::Unsigned, id, 1, 1000, 1000), Err(DispatchError::BadOrigin));
    assert_eq!(p.token_circulation(id), Some(100));
}

#[test]
fn buy_at_a_raised_token_price_costs_nothing() {
    let (mut p, id) = setup(10, 0);
    p.modify_property_price(Origin::Signed(acc(ROOT_ADMIN)), id, 300).unwrap();
    assert_eq!(p.token_price(id), Some(20100));
    // 1 / 20100 == 0, so the payment is 0
    let t = p.buy_propertytoken(Origin::Signed(acc(BUYER)), id, 20, 0, 0).unwrap();
    assert_eq!(t.len(), 3);
    assert!(t.iter().all(|x| x.amount == 0));
    assert_eq!(p.properties_ownership((id, 1)), (acc(BUYER), 20));
    assert_eq!(p.token_circulation(id), Some(80));
}

#[test]
fn sell_tokens() {
    let (mut p, id) = setup(0, 10);
    p.buy_propertytoken(Origin::Signed(acc(BUYER)), id, 40, 1000, 1000).unwrap();
    let t = p.sell_propertytoken(Origin::Signed(acc(BUYER)), id, 30, 33, 3).unwrap();
    assert_eq!(
        t,
        vec![
            Transfer { from: acc(OWNER), to: acc(BUYER), amount: 30 },
            Transfer { from: acc(OWNER), to: acc(FEE), amount: 3 },
            Transfer { from: acc(BUYER), to: acc(FEE), amount: 3 },
        ]
    );
    assert_eq!(p.token_circulation(id), Some(90));
    assert_eq!(p.properties_ownership((id, 1)), (acc(BUYER), 10));
    assert_eq!(p.properties_ownership((id, 0)), (acc(OWNER), 90));
    assert_eq!(*p.events().last().unwrap(), Event::Sold(acc(BUYER), id));
}

#[test]
fn sell_more_than_held() {
    let (mut p, id) = setup(0, 0);
    p.buy_propertytoken(Origin::Signed(acc(BUYER)), id, 5, 1000, 1000).unwrap();
    let n = p.events().len();
    assert_eq!(p.sell_propertytoken(Origin::Signed(acc(BUYER)), id, 6, 1000, 1000), Ok(vec![]));
    assert_eq!(&p.events()[n..], &[Event::SellError(acc(BUYER), id)]);
    assert_eq!(p.properties_ownership((id, 1)), (acc(BUYER), 5));
    assert_eq!(p.token_circulation(id), Some(95));
}

#[test]
fn sell_with_short_balance_reports_an_error() {
    let (mut p, id) = setup(0, 10);
    p.buy_propertytoken(Origin::Signed(acc(BUYER)), id, 20, 1000, 1000).unwrap();
    let n = p.events().len();
    // the seller owes a commission of 1 but holds nothing
    assert_eq!(p.sell_propertytoken(Origin::Signed(acc(BUYER)), id, 10, 1000, 0), Ok(vec![]));
    assert_eq!(&p.events()[n..], &[Event::SellError(acc(BUYER), id)]);
    assert_eq!(p.properties_ownership((id, 1)), (acc(BUYER), 20));
    assert_eq!(p.token_circulation(id), Some(80));
}

#[test]
fn sell_by_a_non_holder_is_refused() {
    let (mut p, id) = setup(0, 0);
    let n = p.events().len();
    assert_eq!(
        p.sell_propertytoken(Origin::Signed(acc(BUYER)), id, 1, 1000, 1000),
        Err(DispatchError::Module(Error::NotPropertyOwner))
    );
    // the primary owner holds slot 0 but is no secondary owner
    assert_eq!(
        p.sell_propertytoken(Origin::Signed(acc(OWNER)), id, 1, 1000, 1000),
        Err(DispatchError::Module(Error::NotPropertyOwner))
    );
    assert_eq!(p.events().len(), n);
    assert_eq!(p.sell_propertytoken(Origin::Root, id, 1, 1000, 1000), Err(DispatchError::BadOrigin));
}

#[test]
fn sell_undoes_buy_on_concrete_values() {
    let (mut p, id) = setup(5, 5);
    let before: Vec<(AccountId, u32)> = (0..3).map(|i| p.properties_ownership((id, i))).collect();
    p.buy_propertytoken(Origin::Signed(acc(BUYER)), id, 25, 1000, 1000).unwrap();
    p.sell_propertytoken(Origin::Signed(acc(BUYER)), id, 25, 1000, 1000).unwrap();
    assert_eq!(p.token_circulation(id), Some(100));
    for i in 0..3u32 {
        assert_eq!(p.properties_ownership((id, i)).1, before[i as usize].1);
    }
}

#[test]
fn circulation_matches_primary_balance() {
    let (mut p, id) = setup(0, 0);
    p.buy_propertytoken(Origin::Signed(acc(BUYER)), id, 30, 1000, 1000).unwrap();
    p.buy_propertytoken(Origin::Signed(acc(4)), id, 20, 1000, 1000).unwrap();
    p.sell_propertytoken(Origin::Signed(acc(BUYER)), id, 10, 1000, 1000).unwrap();
    assert_eq!(p.token_circulation(id), Some(60));
    assert_eq!(p.properties_ownership((id, 0)).1, 60);
    assert_eq!(p.properties_ownership((id, 1)), (acc(BUYER), 20));
    assert_eq!(p.properties_ownership((id, 2)), (acc(4), 20));
}

#[test]
fn delete_property_without_owners() {
    let (mut p, id) = setup(0, 0);
    assert_eq!(p.delete_property(Origin::Signed(acc(ROOT_ADMIN)), id), Ok(()));
    assert_eq!(*p.events().last().unwrap(), Event::Deleted(acc(ROOT_ADMIN), id));
    assert_eq!(p.property_cnt(), 0);
    assert_eq!(p.properties(id), None);
    assert_eq!(p.propertyprice(id), None);
    assert_eq!(p.primary_property_owners(id), None);
    assert_eq!(p.token_circulation(id), None);
    assert_eq!(p.token_price(id), None);
    // every slot of the property is gone
    assert_eq!(p.properties_ownership((id, 0)), (AccountId { bytes: [0; 32] }, 0));
    // deleting it again finds nothing
    assert_eq!(
        p.delete_property(Origin::Signed(acc(ROOT_ADMIN)), id),
        Err(DispatchError::Module(Error::PropertyNotExist))
    );
    assert_eq!(p.property_cnt(), 0);
}

#[test]
fn delete_property_with_held_tokens_fails() {
    let (mut p, id) = setup(0, 0);
    p.buy_propertytoken(Origin::Signed(acc(BUYER)), id, 10, 1000, 1000).unwrap();
    assert_eq!(p.delete_property(Origin::Signed(acc(ROOT_ADMIN)), id), Ok(()));
    assert_eq!(*p.events().last().unwrap(), Event::Delete_UnSucessfull(acc(ROOT_ADMIN), id));
    assert_eq!(p.property_cnt(), 1);
    assert_eq!(p.properties(id), Some(Property { details: 7, initialprice: 100 }));
    assert_eq!(
        p.delete_property(Origin::Signed(acc(BUYER)), id),
        Err(DispatchError::Module(Error::NotAdminAccount))
    );
    assert_eq!(p.delete_property(Origin::Unsigned, id), Err(DispatchError::BadOrigin));
}

#[test]
fn admin_lookup() {
    let (p, _) = setup(0, 0);
    assert!(p.is_admin(acc(ROOT_ADMIN)));
    assert!(!p.is_admin(acc(BUYER)));
}

#[test]
fn buy_guard() {
    let (mut p, id) = setup(10, 0);
    let missing = PropertyId { bytes: [5; 32] };
    // a missing property is refused with an error, not a panic
    assert!(p.buy_propertytoken_defined(Origin::Signed(acc(BUYER)), missing, 1, 100, 100));
    assert!(p.buy_propertytoken_defined(Origin::Signed(acc(BUYER)), id, 10, 100, 100));
    // a negative count at token price 1 gives a negative payment
    assert!(!p.buy_propertytoken_defined(Origin::Signed(acc(BUYER)), id, -1, 100, 100));
    // more than circulates is refused with an error, not a panic
    assert!(p.buy_propertytoken_defined(Origin::Signed(acc(BUYER)), id, 101, 100, 100));
    // an unsigned call fails on its origin once the property exists
    assert!(p.buy_propertytoken_defined(Origin::Unsigned, id, 1, 0, 0));
    assert!(p.buy_propertytoken_defined(Origin::Unsigned, missing, 1, 0, 0));
    // a price of 10000 cut to 0: (0 - 10000) / 10000 * 100 * 100 == -10000, so the token price is 0
    p.create_property(Origin::Signed(acc(ROOT_ADMIN)), acc(OWNER), 8, 10000).unwrap();
    let id2 = expected_id(8, 10000);
    p.modify_property_price(Origin::Signed(acc(ROOT_ADMIN)), id2, 0).unwrap();
    assert_eq!(p.token_price(id2), Some(0));
    // buying would divide by the zero token price
    assert!(!p.buy_propertytoken_defined(Origin::Signed(acc(BUYER)), id2, 1, 100, 100));
}

#[test]
fn sell_guard() {
    let (mut p, id) = setup(0, 0);
    p.buy_propertytoken(Origin::Signed(acc(BUYER)), id, 10, 1000, 1000).unwrap();
    assert!(p.sell_propertytoken_defined(Origin::Signed(acc(BUYER)), id, 5, 1000, 1000));
    assert!(!p.sell_propertytoken_defined(Origin::Signed(acc(BUYER)), id, -5, 1000, 1000));
    // a non-holder does nothing, whatever the count
    assert!(p.sell_propertytoken_defined(Origin::Signed(acc(4)), id, -5, 1000, 1000));
}

#[test]
fn price_guard() {
    let (mut p, id) = setup(0, 0);
    assert!(p.modify_property_price_defined(id, 300));
    // (2_000_000_000 - 100) / 100 * 100 * 100 overflows
    assert!(!p.modify_property_price_defined(id, 2_000_000_000));
    let missing = PropertyId { bytes: [5; 32] };
    assert!(!p.modify_property_price_defined(missing, 1));
    assert_eq!(
        p.modify_property_price(Origin::Signed(acc(ROOT_ADMIN)), missing, 1),
        Err(DispatchError::Module(Error::PropertyNotExist))
    );
    p.modify_property_price(Origin::Signed(acc(ROOT_ADMIN)), id, 0).unwrap();
    // the old price is now 0: dividing by it would panic
    assert!(!p.modify_property_price_defined(id, 5));
}


#[test]
fn create_an_existing_property_is_refused() {
    let (mut p, id) = setup(0, 0);
    p.buy_propertytoken(Origin::Signed(acc(BUYER)), id, 10, 1000, 1000).unwrap();
    let n = p.events().len();
    assert_eq!(
        p.create_property(Origin::Signed(acc(ROOT_ADMIN)), acc(4), 7, 100),
        Err(DispatchError::Module(Error::PropertyAlreadyExist))
    );
    assert_eq!(p.property_cnt(), 1);
    assert_eq!(p.primary_property_owners(id), Some(acc(OWNER)));
    assert_eq!(p.token_circulation(id), Some(90));
    assert_eq!(p.properties_ownership((id, 0)), (acc(OWNER), 90));
    assert_eq!(p.events().len(), n);
}

#[test]
fn missing_property_is_reported() {
    let mut p = Pallet::new();
    p.add_superadmin(Origin::Root, acc(ROOT_ADMIN)).unwrap();
    let missing = PropertyId { bytes: [5; 32] };
    assert_eq!(
        p.buy_propertytoken(Origin::Signed(acc(BUYER)), missing, 1, 1000, 1000),
        Err(DispatchError::Module(Error::PropertyNotExist))
    );
    assert_eq!(
        p.sell_propertytoken(Origin::Signed(acc(BUYER)), missing, 1, 1000, 1000),
        Err(DispatchError::Module(Error::PropertyNotExist))
    );
    assert_eq!(
        p.delete_property(Origin::Signed(acc(ROOT_ADMIN)), missing),
        Err(DispatchError::Module(Error::PropertyNotExist))
    );
    assert_eq!(p.property_cnt(), 0);
    assert!(p.events().len() == 1);
}

#[test]
fn burn_refuses_while_a_secondary_owner_holds_tokens() {
    let (mut p, id) = setup(0, 0);
    // the buyer takes every token: slot 0 is empty, slot 1 holds 100
    p.buy_propertytoken(Origin::Signed(acc(BUYER)), id, 100, 1000, 1000).unwrap();
    assert!(!p.burn(id));
    assert_eq!(p.properties(id), Some(Property { details: 7, initialprice: 100 }));
    assert_eq!(p.properties_ownership((id, 0)), (acc(OWNER), 0));
    assert_eq!(p.properties_ownership((id, 1)), (acc(BUYER), 100));
    assert_eq!(p.property_cnt(), 1);
    assert_eq!(p.delete_property(Origin::Signed(acc(ROOT_ADMIN)), id), Ok(()));
    assert_eq!(*p.events().last().unwrap(), Event::Delete_UnSucessfull(acc(ROOT_ADMIN), id));
    assert_eq!(p.property_cnt(), 1);
}

#[test]
fn burn_removes_every_entry_once_secondary_owners_hold_nothing() {
    let (mut p, id) = setup(0, 0);
    p.buy_propertytoken(Origin::Signed(acc(BUYER)), id, 100, 1000, 1000).unwrap();
    p.sell_propertytoken(Origin::Signed(acc(BUYER)), id, 100, 1000, 1000).unwrap();
    // the primary owner still holds tokens at slot 0; that does not stop the burn
    assert!(p.burn(id));
    assert_eq!(p.property_cnt(), 0);
    assert_eq!(p.properties(id), None);
    assert_eq!(p.secondary_owner_index(id), 0);
    assert_eq!(p.secondary_owners((id, acc(BUYER))), 0);
    assert_eq!(p.properties_ownership((id, 0)), (AccountId { bytes: [0; 32] }, 0));
    assert_eq!(p.properties_ownership((id, 1)), (AccountId { bytes: [0; 32] }, 0));
    // the property can be created afresh, starting from no secondary owners
    p.create_property(Origin::Signed(acc(ROOT_ADMIN)), acc(OWNER), 7, 100).unwrap();
    p.buy_propertytoken(Origin::Signed(acc(4)), id, 10, 1000, 1000).unwrap();
    assert_eq!(p.properties_ownership((id, 1)), (acc(4), 10));
    assert!(!p.burn(PropertyId { bytes: [5; 32] }));
}

#[test]
fn tokens_are_conserved_across_trades() {
    let (mut p, id) = setup(3, 2);
    p.buy_propertytoken(Origin::Signed(acc(BUYER)), id, 30, 1000, 1000).unwrap();
    p.buy_propertytoken(Origin::Signed(acc(4)), id, 25, 1000, 1000).unwrap();
    p.sell_propertytoken(Origin::Signed(acc(BUYER)), id, 12, 1000, 1000).unwrap();
    p.buy_propertytoken(Origin::Signed(acc(BUYER)), id, 7, 1000, 1000).unwrap();
    let count = p.secondary_owner_index(id);
    let total: u32 = (0..=count).map(|i| p.properties_ownership((id, i)).1).sum();
    assert_eq!(total, 100);
    assert_eq!(p.token_circulation(id), Some(p.properties_ownership((id, 0)).1 as i32));
}
