use tsid_database_id::{IDOrganisation, IDUnknown, ParseError, TSIDDatabaseID};

#[test]
fn round_trip_prefixed() {
    let values: Vec<u64> = vec![0, 1, 42, 123456789, 496830748901259230, u64::MAX];
    for n in values {
        let x = TSIDDatabaseID::<IDOrganisation>::from_raw_number(n);
        let s = x.to_string();
        let y = TSIDDatabaseID::<IDOrganisation>::from_str(&s).unwrap();
        assert_eq!(y.to_raw_number(), n);
        assert_eq!(y, x);
    }
}

#[test]
fn round_trip_unprefixed() {
    let values: Vec<u64> = vec![0, 1, 42, 123456789, 496830748901259230, u64::MAX];
    for n in values {
        let x = TSIDDatabaseID::<IDUnknown>::from_raw_number(n);
        let s = x.to_string();
        let y = TSIDDatabaseID::<IDUnknown>::from_str(&s).unwrap();
        assert_eq!(y.to_raw_number(), n);
        assert_eq!(y, x);
    }
}

#[test]
fn prefix_enforcement() {
    let enc = TSIDDatabaseID::<IDUnknown>::from_raw_number(42).to_string();
    let wrong = format!("wrongprefix_{}", enc);
    assert_eq!(
        TSIDDatabaseID::<IDOrganisation>::from_str(&wrong),
        Err(ParseError::MissingPrefix)
    );
    // The bare encoding, the prefix without its separator, and the empty
    // string all lack the required `org_` prefix.
    assert_eq!(
        TSIDDatabaseID::<IDOrganisation>::from_str(&enc),
        Err(ParseError::MissingPrefix)
    );
    let no_sep = format!("org{}", enc);
    assert_eq!(
        TSIDDatabaseID::<IDOrganisation>::from_str(&no_sep),
        Err(ParseError::MissingPrefix)
    );
    assert_eq!(
        TSIDDatabaseID::<IDOrganisation>::from_str(""),
        Err(ParseError::MissingPrefix)
    );
}

#[test]
fn encoding_rejection() {
    assert_eq!(
        TSIDDatabaseID::<IDOrganisation>::from_str("org_not-valid-base32!!"),
        Err(ParseError::InvalidEncoding)
    );
    assert_eq!(
        TSIDDatabaseID::<IDOrganisation>::from_str("org_"),
        Err(ParseError::InvalidEncoding)
    );
}

#[test]
fn equality_ignores_tag_but_not_raw_value() {
    let a = TSIDDatabaseID::<IDOrganisation>::from_raw_number(42);
    let b = TSIDDatabaseID::<IDUnknown>::from_raw_number(42);
    assert_eq!(a.into_unknown(), b.into_unknown());
    assert_eq!(a.into_unknown().to_raw_number(), 42);
    let c = TSIDDatabaseID::<IDOrganisation>::from_raw_number(43);
    assert_ne!(a, c);
    assert_ne!(a.into_unknown(), c.into_unknown());
}

#[test]
fn signed_unsigned_symmetry() {
    let x = TSIDDatabaseID::<IDUnknown>::from_integer(-1);
    assert_eq!(x.to_raw_number(), u64::MAX);
    assert_eq!(x.to_integer(), -1);
    let y = TSIDDatabaseID::<IDUnknown>::from_integer(i64::MIN);
    assert_eq!(y.to_raw_number(), 0x8000_0000_0000_0000);
    assert_eq!(y.to_integer(), i64::MIN);
    let z = TSIDDatabaseID::<IDUnknown>::from_raw_number(7);
    assert_eq!(
        TSIDDatabaseID::<IDUnknown>::from_integer(z.to_integer()),
        z
    );
}

#[test]
fn concrete_organisation_scenario() {
    let x = TSIDDatabaseID::<IDOrganisation>::from_raw_number(123456789);
    assert_eq!(x.to_string(), "org_00000003NQK8N");
    let y = TSIDDatabaseID::<IDOrganisation>::from_str("org_00000003NQK8N").unwrap();
    assert_eq!(y.to_raw_number(), 123456789);
    assert_eq!(
        TSIDDatabaseID::<IDOrganisation>::from_str("123456789"),
        Err(ParseError::MissingPrefix)
    );
}

#[test]
fn bare_short_string_is_not_an_encoding() {
    // An encoding is exactly 13 characters: a bare decimal string of another
    // length is rejected even by the resource that requires no prefix.
    assert_eq!(
        TSIDDatabaseID::<IDUnknown>::from_str("123456789"),
        Err(ParseError::InvalidEncoding)
    );
}

#[test]
fn matches_external_generator_encoding() {
    // The canonical rendering agrees with the external generator crate's own
    // rendering of the same number.
    let values: Vec<u64> = vec![0, 1, 42, 123456789, 496830748901259230, u64::MAX];
    for n in values {
        let ours = TSIDDatabaseID::<IDUnknown>::from_raw_number(n).to_string();
        let theirs = tsid::TSID::from(n).to_string();
        assert_eq!(ours, theirs);
    }
    assert_eq!(
        TSIDDatabaseID::<IDUnknown>::from_raw_number(496830748901259230).to_string(),
        "0DS8RXW6W0DYY"
    );
}

#[test]
fn random_values_round_trip() {
    let x = TSIDDatabaseID::<IDOrganisation>::random();
    let y = TSIDDatabaseID::<IDOrganisation>::from_str(&x.to_string()).unwrap();
    assert_eq!(y, x);
    let u = TSIDDatabaseID::<IDUnknown>::random();
    let v = TSIDDatabaseID::<IDUnknown>::from_str(&u.to_string()).unwrap();
    assert_eq!(v, u);
}

#[test]
fn erasure_round_trips_through_storage_forms() {
    let x = TSIDDatabaseID::<IDOrganisation>::from_raw_number(987654321);
    let erased = x.into_unknown();
    assert_eq!(erased.to_raw_number(), x.to_raw_number());
    assert_eq!(
        TSIDDatabaseID::<IDUnknown>::from_raw_number(x.to_raw_number()),
        erased
    );
}
