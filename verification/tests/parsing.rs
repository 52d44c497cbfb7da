use patch_alerts::fresh::FreshnessState;
use patch_alerts::fresh::process_batch;
use patch_alerts::item::{ItemError, RawField, RawItem, RawTag, RawTags, parse_item};

fn tagged(tags: Vec<&str>) -> RawTags {
    RawTags::List(tags.iter().map(|t| RawTag::Text(t.to_string())).collect())
}

fn good_raw(gid: &str, date: i64) -> RawItem {
    RawItem {
        gid: RawField::Text(gid.to_string()),
        title: RawField::Text("Gameplay Update".to_string()),
        author: RawField::Text("Valve".to_string()),
        url: RawField::Text("http://example.com/update".to_string()),
        date: RawField::Num(date),
        tags: tagged(vec!["patchnotes"]),
    }
}

#[test]
fn well_formed_item_parses() {
    let item = parse_item(&good_raw("g1", 1700000000)).unwrap();
    assert_eq!(item.gid, "g1");
    assert_eq!(item.title, "Gameplay Update");
    assert_eq!(item.author, "Valve");
    assert_eq!(item.url, "http://example.com/update");
    assert_eq!(item.date, 1700000000);
}

#[test]
fn extra_tags_still_parse() {
    let mut raw = good_raw("g1", 5);
    raw.tags = tagged(vec!["event", "patchnotes", "sale"]);
    assert!(parse_item(&raw).is_ok());
}

#[test]
fn missing_tag_list_rejected() {
    let mut raw = good_raw("g1", 5);
    raw.tags = RawTags::Absent;
    assert_eq!(parse_item(&raw).unwrap_err(), ItemError::TagsMissing);
}

#[test]
fn non_list_tags_rejected() {
    let mut raw = good_raw("g1", 5);
    raw.tags = RawTags::WrongType;
    assert_eq!(parse_item(&raw).unwrap_err(), ItemError::TagsNotList);
}

#[test]
fn untagged_item_never_surfaced_despite_complete_fields() {
    let mut raw = good_raw("g1", 5);
    raw.tags = tagged(vec!["event", "sale"]);
    assert_eq!(parse_item(&raw).unwrap_err(), ItemError::NotPatchNotes);
}

#[test]
fn non_text_tag_entries_are_ignored_but_not_fatal() {
    let mut raw = good_raw("g1", 5);
    raw.tags = RawTags::List(vec![RawTag::NotText, RawTag::Text("patchnotes".to_string())]);
    assert!(parse_item(&raw).is_ok());
}

#[test]
fn missing_field_rejected() {
    let mut raw = good_raw("g1", 5);
    raw.title = RawField::Absent;
    assert_eq!(parse_item(&raw).unwrap_err(), ItemError::FieldMissing);
}

#[test]
fn wrong_typed_field_rejected() {
    let mut raw = good_raw("g1", 5);
    raw.url = RawField::Num(3);
    assert_eq!(parse_item(&raw).unwrap_err(), ItemError::FieldWrongType);
}

#[test]
fn wrong_typed_date_rejected() {
    let mut raw = good_raw("g1", 5);
    raw.date = RawField::WrongType;
    assert_eq!(parse_item(&raw).unwrap_err(), ItemError::FieldWrongType);
}

#[test]
fn missing_date_rejected() {
    let mut raw = good_raw("g1", 5);
    raw.date = RawField::Absent;
    assert_eq!(parse_item(&raw).unwrap_err(), ItemError::FieldMissing);
}

#[test]
fn one_malformed_item_does_not_block_the_other_nine() {
    let mut raws: Vec<RawItem> = Vec::new();
    for k in 0..10i64 {
        if k == 4 {
            let mut bad = good_raw("bad", 1000 + k);
            bad.gid = RawField::WrongType;
            raws.push(bad);
        } else {
            raws.push(good_raw(&format!("g{}", k), 1000 + k));
        }
    }
    let mut st = FreshnessState::new(1000);
    let surfaced = process_batch(&mut st, &raws).unwrap();
    // All nine well-formed items were evaluated and accepted in turn; the
    // batch surfaces the last accepted one.
    assert_eq!(surfaced.gid, "g9");
    assert_eq!(st.last_at, 1009);
    assert_eq!(st.last_id, "g9");
}

#[test]
fn batch_with_nothing_new_surfaces_nothing() {
    let raws = vec![good_raw("old", 10)];
    let mut st = FreshnessState::new(100);
    assert!(process_batch(&mut st, &raws).is_none());
    assert_eq!(st.last_at, 100);
    assert_eq!(st.last_id, "");
}
