use torii::raw_item::{NewRawItem, RawItemId, RawItemKind, RawItemStatus};
use torii::{ItemLink, Timestamp};

#[test]
fn raw_item_status_as_str_roundtrip() {
    let pairs = [
        (RawItemStatus::Raw, "raw"),
        (RawItemStatus::NeedsReview, "needs_review"),
        (RawItemStatus::Linked, "linked"),
    ];
    for (status, expected) in pairs {
        assert_eq!(status.as_str(), expected);
    }
}

#[test]
fn raw_item_kind_maps_semantic_kinds_to_text() {
    for kind in ["idea", "security_plan", "implementation_plan"] {
        assert_eq!(RawItemKind::from_wire(kind), RawItemKind::Text);
    }
}

#[test]
fn raw_item_kind_preserves_media_kinds() {
    for (kind, expected) in [
        ("text", RawItemKind::Text),
        ("document", RawItemKind::Document),
        ("reference", RawItemKind::Reference),
        ("binary", RawItemKind::Binary),
        ("event", RawItemKind::Event),
    ] {
        assert_eq!(RawItemKind::from_wire(kind), expected);
    }
}

#[test]
fn raw_item_kind_roundtrips_all_variants() {
    for kind in [
        RawItemKind::Text,
        RawItemKind::Document,
        RawItemKind::Reference,
        RawItemKind::Binary,
        RawItemKind::Event,
    ] {
        assert_eq!(RawItemKind::from_wire(kind.as_str()), kind);
    }
}

#[test]
fn raw_item_status_defaults_to_raw() {
    assert_eq!(RawItemStatus::default(), RawItemStatus::Raw);
}

#[test]
fn new_raw_item_defaults_to_raw_status() {
    let item = NewRawItem::new("user://alice", RawItemKind::Text, "купить молоко").build();
    assert_eq!(item.status, RawItemStatus::Raw);
    assert_eq!(item.source, "user://alice");
    assert_eq!(item.body, "купить молоко");
    assert!(item.link.is_none());
    assert_eq!(item.created_at, item.updated_at);
}

#[test]
fn raw_item_id_display_has_prefix() {
    let id = RawItemId::new();
    assert!(id.to_string().starts_with("ri_"), "got: {}", id.to_string());
}

#[test]
fn raw_item_id_roundtrip() {
    let id = RawItemId::new();
    let parsed: RawItemId = id.to_string().parse().unwrap();
    assert_eq!(id, parsed);
}

#[test]
fn raw_item_with_link_builder() {
    let item = NewRawItem::new("user://carol", RawItemKind::Reference, "https://example.com")
        .with_link("goal://g_01")
        .build();
    assert_eq!(item.link.as_ref().unwrap().target, "goal://g_01");
    assert_eq!(item.status, RawItemStatus::Raw);
}

#[test]
fn build_keeps_a_given_id() {
    let id = RawItemId { uuid: 0x0123_4567_89ab_cdef_0011_2233_4455_6677 };
    let mut draft = NewRawItem::new("s", RawItemKind::Event, "b");
    draft.id = Some(id);
    let item = draft.build();
    assert_eq!(item.id, id);
    assert_eq!(item.kind, RawItemKind::Event);
}

#[test]
fn item_link_new_holds_target() {
    assert_eq!(ItemLink::new("context://project/x").target, "context://project/x");
}

#[test]
fn build_at_stamps_the_given_time() {
    let now = Timestamp { unix_millis: 1_725_029_869_000 };
    let item = NewRawItem::new("user://bob", RawItemKind::Document, "{}").build_at(now);
    assert_eq!(item.created_at, now);
    assert_eq!(item.updated_at, now);
    assert_eq!(item.id.uuid >> 80, 1_725_029_869_000);
    assert_eq!(item.status, RawItemStatus::Raw);
}

#[test]
fn fresh_build_id_carries_its_timestamp() {
    let item = NewRawItem::new("s", RawItemKind::Text, "b").build();
    assert_eq!((item.id.uuid >> 80) as u64, item.created_at.unix_millis & 0xffff_ffff_ffff);
}

#[test]
fn clock_readings_convert_to_timestamps() {
    assert_eq!(Timestamp::from_clock_millis(None).unix_millis, 0);
    assert_eq!(Timestamp::from_clock_millis(Some(5)).unix_millis, 5);
    assert_eq!(Timestamp::from_clock_millis(Some(u128::MAX)).unix_millis, u64::MAX);
    assert_eq!(Timestamp::from_clock_millis(Some(u64::MAX as u128)).unix_millis, u64::MAX);
}
