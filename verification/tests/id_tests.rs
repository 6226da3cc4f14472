use torii::{RawItemId, Timestamp};

#[test]
fn id_text_is_prefixed_hyphenated_lowercase_hex() {
    let id = RawItemId { uuid: 0x0123_4567_89ab_cdef_fedc_ba98_7654_3210 };
    assert_eq!(id.to_string(), "ri_01234567-89ab-cdef-fedc-ba9876543210");
    assert_eq!(RawItemId { uuid: 0 }.to_string(), "ri_00000000-0000-0000-0000-000000000000");
    assert_eq!(
        RawItemId { uuid: u128::MAX }.to_string(),
        "ri_ffffffff-ffff-ffff-ffff-ffffffffffff"
    );
}

#[test]
fn id_parse_accepts_either_case() {
    let id = RawItemId::parse("ri_01234567-89AB-CDEF-fedc-ba9876543210").unwrap();
    assert_eq!(id.uuid, 0x0123_4567_89ab_cdef_fedc_ba98_7654_3210);
}

#[test]
fn id_parse_rejects_malformed_text() {
    for s in [
        "",
        "ri_",
        "01234567-89ab-cdef-fedc-ba9876543210",
        "rx_01234567-89ab-cdef-fedc-ba9876543210",
        "ri_01234567-89ab-cdef-fedc-ba987654321",
        "ri_01234567-89ab-cdef-fedc-ba98765432100",
        "ri_01234567_89ab-cdef-fedc-ba9876543210",
        "ri_0123456g-89ab-cdef-fedc-ba9876543210",
    ] {
        assert!(RawItemId::parse(s).is_none(), "{s}");
        assert!(s.parse::<RawItemId>().is_err(), "{s}");
    }
}

#[test]
fn fresh_ids_are_version_7() {
    let text = RawItemId::new().to_string();
    let chars: Vec<char> = text.chars().collect();
    assert_eq!(chars.len(), 39);
    assert_eq!(chars[3 + 14], '7');
    assert!(matches!(chars[3 + 19], '8' | '9' | 'a' | 'b'));
    assert_ne!(RawItemId::new(), RawItemId::new());
}

#[test]
fn default_id_is_fresh_version_7() {
    let id = RawItemId::default();
    assert_eq!((id.uuid >> 76) & 0xf, 7);
}

#[test]
fn id_parse_accepts_other_uuid_forms() {
    let v = 0x0123_4567_89ab_cdef_fedc_ba98_7654_3210u128;
    for s in [
        "ri_0123456789abcdeffedcba9876543210",
        "ri_{01234567-89ab-cdef-fedc-ba9876543210}",
        "ri_urn:uuid:01234567-89ab-cdef-fedc-ba9876543210",
    ] {
        assert_eq!(RawItemId::parse(s), Some(RawItemId { uuid: v }), "{s}");
    }
}

#[test]
fn id_for_a_time_carries_it() {
    let now = Timestamp { unix_millis: 0x0123_4567_89ab };
    let id = RawItemId::new_at(now);
    assert_eq!(id.uuid >> 80, 0x0123_4567_89ab);
    assert!(id.to_string().starts_with("ri_01234567-89ab-7"), "{}", id.to_string());
    let late = RawItemId::new_at(Timestamp { unix_millis: u64::MAX });
    assert_eq!(late.uuid >> 80, 0xffff_ffff_ffff);
}

#[test]
fn id_parse_urn_prefix_ignores_case_and_rejects_bad_shapes() {
    let v = 0x0123_4567_89ab_cdef_fedc_ba98_7654_3210u128;
    assert_eq!(
        RawItemId::parse("ri_URN:UUID:01234567-89AB-cdef-fedc-ba9876543210"),
        Some(RawItemId { uuid: v })
    );
    for s in [
        "ri_{01234567-89ab-cdef-fedc-ba9876543210",
        "ri_urn:uuix:01234567-89ab-cdef-fedc-ba9876543210",
        "ri_0123456789abcdeffedcba987654321g",
        "ri_é123456789abcdeffedcba9876543210",
    ] {
        assert!(RawItemId::parse(s).is_none(), "{s}");
    }
}

#[test]
fn default_id_has_rfc_variant() {
    let d = (RawItemId::default().uuid >> 60) & 0xf;
    assert!((8..=11).contains(&d));
}
