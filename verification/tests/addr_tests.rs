use reflector::addr::addr_validate;
use reflector::error::ContractError;

#[test]
fn accepts_well_formed_addresses() {
    for good in ["bob", "owner", "sneakypleb", "val0", "abc123", &"z9".repeat(27)] {
        assert_eq!(Ok(()), addr_validate(good), "expected {good:?} to be accepted");
    }
}

#[test]
fn rejects_too_short_or_too_long() {
    for bad in ["", "a", "ab", &"a".repeat(55), &"b".repeat(100)] {
        assert_eq!(Err(ContractError::InvalidAddress), addr_validate(bad));
    }
}

#[test]
fn rejects_bad_characters() {
    for bad in ["Bob", "OWNER", "has space", "semi;colon", "under_score", "dash-ed", "d\u{e9}j\u{e0}"] {
        assert_eq!(Err(ContractError::InvalidAddress), addr_validate(bad));
    }
}
