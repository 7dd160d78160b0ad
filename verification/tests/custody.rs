use herehere::custody::Bucket;
use herehere::custody::Vault;
use herehere::error::Error;
use scrypto::constants::XRD;
use scrypto::math::Decimal;
use scrypto::types::ResourceAddress;

fn dec(text: &str) -> Decimal {
    Decimal::try_from(text).unwrap()
}

fn other_resource() -> ResourceAddress {
    let mut raw = [0u8; 30];
    raw[0] = 93;
    raw[29] = 7;
    ResourceAddress::new_or_panic(raw)
}

#[test]
fn vault_starts_empty() {
    let vault = Vault::new(XRD);
    assert_eq!(vault.amount(), Decimal::ZERO);
    assert_eq!(vault.resource_address(), XRD);
}

#[test]
fn vault_put_adds_the_bucket() {
    let mut vault = Vault::new(XRD);
    vault.put(Bucket::new(XRD, Decimal::from(69)));
    vault.put(Bucket::new(XRD, dec("6.9")));
    assert_eq!(vault.amount(), dec("75.9"));
    assert_eq!(vault.resource_address(), XRD);
}

#[test]
fn vault_take_all_hands_out_the_balance() {
    let mut vault = Vault::new(XRD);
    vault.put(Bucket::new(XRD, dec("82.9")));
    let bucket = vault.take_all();
    assert_eq!(bucket.amount(), dec("82.9"));
    assert_eq!(bucket.resource_address(), XRD);
    assert_eq!(vault.amount(), Decimal::ZERO);
    let nothing = vault.take_all();
    assert_eq!(nothing.amount(), Decimal::ZERO);
}

#[test]
fn vault_has_room_up_to_the_largest_decimal() {
    let mut vault = Vault::new(XRD);
    assert!(vault.has_room(&Decimal::MAX));
    vault.put(Bucket::new(XRD, Decimal::MAX));
    assert_eq!(vault.amount(), Decimal::MAX);
    assert!(vault.has_room(&Decimal::ZERO));
    assert!(!vault.has_room(&Decimal::ONE_ATTO));
    assert!(!vault.has_room(&dec("6.9")));
    assert!(vault.has_room(&dec("-1")));
}

#[test]
fn bucket_holds_what_it_was_made_with() {
    let bucket = Bucket::new(other_resource(), dec("12.5"));
    assert_eq!(bucket.resource_address(), other_resource());
    assert_eq!(bucket.amount(), dec("12.5"));
}

#[test]
fn bucket_take_splits_to_the_atto() {
    let mut bucket = Bucket::new(XRD, Decimal::from(100));
    let taken = bucket.take(Decimal::from(69));
    assert_eq!(taken.amount(), Decimal::from(69));
    assert_eq!(taken.resource_address(), XRD);
    assert_eq!(bucket.amount(), Decimal::from(31));
    assert_eq!(bucket.resource_address(), XRD);
}

#[test]
fn bucket_take_keeps_fractions() {
    let mut bucket = Bucket::new(XRD, Decimal::from(7));
    let taken = bucket.take(dec("6.9"));
    assert_eq!(taken.amount(), dec("6.9"));
    assert_eq!(bucket.amount(), dec("0.1"));
    let one_atto = bucket.take(Decimal::ONE_ATTO);
    assert_eq!(one_atto.amount(), dec("0.000000000000000001"));
    assert_eq!(bucket.amount(), dec("0.099999999999999999"));
}

#[test]
fn bucket_take_of_everything_leaves_nothing() {
    let mut bucket = Bucket::new(XRD, dec("6.9"));
    let taken = bucket.take(dec("6.9"));
    assert_eq!(taken.amount(), dec("6.9"));
    assert_eq!(bucket.amount(), Decimal::ZERO);
}

#[test]
fn bucket_can_give_while_the_rest_is_representable() {
    let bucket = Bucket::new(XRD, Decimal::MIN);
    assert!(bucket.can_give(&Decimal::ZERO));
    assert!(!bucket.can_give(&Decimal::ONE_ATTO));
    assert!(bucket.can_give(&dec("-1")));
    let plenty = Bucket::new(XRD, Decimal::MAX);
    assert!(plenty.can_give(&Decimal::MAX));
    assert!(!plenty.can_give(&dec("-0.000000000000000001")));
}

#[test]
fn validate_takes_the_price_and_more() {
    let price = dec("6.9");
    assert_eq!(Bucket::new(XRD, dec("6.9")).validate(&XRD, &price), Ok(()));
    assert_eq!(Bucket::new(XRD, Decimal::from(7)).validate(&XRD, &price), Ok(()));
    assert_eq!(Bucket::new(XRD, Decimal::MAX).validate(&XRD, &price), Ok(()));
}

#[test]
fn validate_refuses_one_atto_too_little() {
    let price = dec("6.9");
    let short = Bucket::new(XRD, dec("6.899999999999999999"));
    assert_eq!(short.validate(&XRD, &price), Err(Error::InsufficientPayment));
    let empty = Bucket::new(XRD, Decimal::ZERO);
    assert_eq!(empty.validate(&XRD, &price), Err(Error::InsufficientPayment));
}

#[test]
fn validate_refuses_another_currency() {
    let price = dec("6.9");
    let foreign = Bucket::new(other_resource(), Decimal::from(100));
    assert_eq!(foreign.validate(&XRD, &price), Err(Error::InvalidCurrency));
}

#[test]
fn validate_looks_at_the_currency_first() {
    let price = dec("6.9");
    let foreign_and_short = Bucket::new(other_resource(), Decimal::from(1));
    assert_eq!(foreign_and_short.validate(&XRD, &price), Err(Error::InvalidCurrency));
}

#[test]
fn validate_against_a_price_of_nothing_or_less() {
    let empty = Bucket::new(XRD, Decimal::ZERO);
    assert_eq!(empty.validate(&XRD, &Decimal::ZERO), Ok(()));
    assert_eq!(empty.validate(&XRD, &dec("-5")), Ok(()));
    let owing = Bucket::new(XRD, dec("-6"));
    assert_eq!(owing.validate(&XRD, &dec("-5")), Err(Error::InsufficientPayment));
}
