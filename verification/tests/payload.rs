use presence_rpc::payload::{build_descriptor, normalize_text, ActivityPayload};

fn empty_payload() -> ActivityPayload {
    ActivityPayload {
        details: None,
        state: None,
        start_timestamp: None,
        end_timestamp: None,
        large_image: None,
        large_text: None,
        small_image: None,
        small_text: None,
    }
}

#[test]
fn all_absent_payload_yields_empty_descriptor() {
    let d = build_descriptor(empty_payload());
    assert_eq!(d.details, None);
    assert_eq!(d.state, None);
    assert!(d.timestamps.is_none());
    assert!(d.assets.is_none());
}

#[test]
fn empty_details_are_omitted() {
    let mut p = empty_payload();
    p.details = Some(String::new());
    let d = build_descriptor(p);
    assert_eq!(d.details, None);
}

#[test]
fn present_details_and_state_are_kept_verbatim() {
    let mut p = empty_payload();
    p.details = Some("playing chess".to_string());
    p.state = Some("rank 3".to_string());
    let d = build_descriptor(p);
    assert_eq!(d.details, Some("playing chess".to_string()));
    assert_eq!(d.state, Some("rank 3".to_string()));
}

#[test]
fn empty_state_is_omitted_while_details_survive() {
    let mut p = empty_payload();
    p.details = Some("x".to_string());
    p.state = Some(String::new());
    let d = build_descriptor(p);
    assert_eq!(d.details, Some("x".to_string()));
    assert_eq!(d.state, None);
}

#[test]
fn single_large_image_populates_exactly_one_asset_field() {
    let mut p = empty_payload();
    p.large_image = Some("cover".to_string());
    let d = build_descriptor(p);
    let assets = d.assets.expect("an asset group must be built");
    assert_eq!(assets.large_image, Some("cover".to_string()));
    assert_eq!(assets.large_text, None);
    assert_eq!(assets.small_image, None);
    assert_eq!(assets.small_text, None);
}

#[test]
fn single_small_text_populates_exactly_one_asset_field() {
    let mut p = empty_payload();
    p.small_text = Some("hover".to_string());
    let d = build_descriptor(p);
    let assets = d.assets.expect("an asset group must be built");
    assert_eq!(assets.large_image, None);
    assert_eq!(assets.large_text, None);
    assert_eq!(assets.small_image, None);
    assert_eq!(assets.small_text, Some("hover".to_string()));
}

#[test]
fn empty_asset_field_still_creates_the_group() {
    let mut p = empty_payload();
    p.large_image = Some(String::new());
    let d = build_descriptor(p);
    let assets = d.assets.expect("a present field creates the group even when empty");
    assert_eq!(assets.large_image, None);
    assert_eq!(assets.large_text, None);
    assert_eq!(assets.small_image, None);
    assert_eq!(assets.small_text, None);
}

#[test]
fn start_only_builds_one_sided_range() {
    let mut p = empty_payload();
    p.start_timestamp = Some(1700000000);
    let d = build_descriptor(p);
    let t = d.timestamps.expect("a range must be built");
    assert_eq!(t.start, Some(1700000000));
    assert_eq!(t.end, None);
}

#[test]
fn end_only_builds_one_sided_range() {
    let mut p = empty_payload();
    p.end_timestamp = Some(-5);
    let d = build_descriptor(p);
    let t = d.timestamps.expect("a range must be built");
    assert_eq!(t.start, None);
    assert_eq!(t.end, Some(-5));
}

#[test]
fn both_timestamps_are_kept() {
    let mut p = empty_payload();
    p.start_timestamp = Some(1);
    p.end_timestamp = Some(2);
    let d = build_descriptor(p);
    let t = d.timestamps.expect("a range must be built");
    assert_eq!(t.start, Some(1));
    assert_eq!(t.end, Some(2));
}

#[test]
fn normalize_text_applies_the_absence_policy() {
    assert_eq!(normalize_text(None), None);
    assert_eq!(normalize_text(Some(String::new())), None);
    assert_eq!(normalize_text(Some("keep".to_string())), Some("keep".to_string()));
}
