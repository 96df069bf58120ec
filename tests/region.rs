use conoha::region::Region;

#[test]
fn parse_region() {
    assert_eq!(Region::from_str("tyo1"), Ok(Region::Tyo1));
    assert_eq!(Region::from_str("Tyo1"), Ok(Region::Tyo1));
    assert_eq!(Region::from_str("TYO1"), Ok(Region::Tyo1));
    assert_eq!(Region::from_str("TYO3"), Err("Couldn't parse region"));
}

#[test]
fn every_region_parses_in_any_case() {
    for (text, region) in [
        ("tyo2", Region::Tyo2),
        ("TyO2", Region::Tyo2),
        ("syn1", Region::Syn1),
        ("SYN1", Region::Syn1),
        ("sjc1", Region::Sjc1),
        ("sJC1", Region::Sjc1),
    ] {
        assert_eq!(Region::from_str(text), Ok(region));
    }
}

#[test]
fn other_strings_are_rejected() {
    for text in ["", "tyo", "tyo11", " tyo1", "sjc2", "työ1", "ｔyo1"] {
        assert_eq!(Region::from_str(text), Err("Couldn't parse region"));
    }
}

#[test]
fn codes_round_trip() {
    for region in [Region::Tyo1, Region::Tyo2, Region::Syn1, Region::Sjc1] {
        assert_eq!(Region::from_str(region.to_url()), Ok(region));
    }
    assert_eq!(Region::Sjc1.to_url(), "sjc1");
    assert_eq!(Region::Syn1.to_url(), "syn1");
}
