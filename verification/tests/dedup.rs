use patch_alerts::cycle::startup_state;
use patch_alerts::fresh::FreshnessState;
use patch_alerts::item::NewsItem;

fn item(gid: &str, date: i64) -> NewsItem {
    NewsItem {
        gid: gid.to_string(),
        title: "Gameplay Update".to_string(),
        author: "Valve".to_string(),
        url: "http://example.com/update".to_string(),
        date,
    }
}

#[test]
fn increasing_stream_each_accepted_once() {
    let mut st = FreshnessState::new(100);
    let items = vec![item("a", 101), item("b", 102), item("c", 103)];
    for it in &items {
        assert!(st.consider_item(it));
        assert_eq!(st.last_at, it.date);
        assert_eq!(st.last_id, it.gid);
    }
    assert_eq!(st.last_at, 103);
    assert_eq!(st.last_id, "c");
    for it in &items {
        assert!(!st.consider_item(it));
    }
}

#[test]
fn redelivery_same_timestamp_rejected() {
    let mut st = FreshnessState::new(50);
    let it = item("x", 60);
    assert!(st.consider_item(&it));
    assert!(!st.consider_item(&it));
    assert_eq!(st.last_at, 60);
    assert_eq!(st.last_id, "x");
}

#[test]
fn redelivery_earlier_timestamp_rejected() {
    let mut st = FreshnessState::new(50);
    assert!(st.consider_item(&item("x", 60)));
    assert!(!st.consider_item(&item("x", 55)));
    assert_eq!(st.last_at, 60);
}

#[test]
fn timestamp_tie_with_different_id_accepted() {
    let mut st = FreshnessState::new(10);
    assert!(st.consider_item(&item("a", 20)));
    assert!(st.consider_item(&item("b", 20)));
    assert_eq!(st.last_at, 20);
    assert_eq!(st.last_id, "b");
}

#[test]
fn item_older_than_state_rejected() {
    let mut st = FreshnessState::new(100);
    assert!(!st.consider_item(&item("a", 99)));
    assert_eq!(st.last_at, 100);
    assert_eq!(st.last_id, "");
}

#[test]
fn startup_state_has_empty_identifier() {
    let st = startup_state();
    assert_eq!(st.last_id, "");
}
