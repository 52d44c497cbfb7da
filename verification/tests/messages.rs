use patch_alerts::item::NewsItem;
use patch_alerts::notify::{alert_message, build_announcement};
use patch_alerts::presence::InterestedUser;
use patch_alerts::text::u64_to_string;

fn users(ids: &[u64]) -> Vec<InterestedUser> {
    ids.iter()
        .map(|id| InterestedUser { user_id: *id, handle: format!("user{}", id) })
        .collect()
}

#[test]
fn no_interested_users_no_alert() {
    assert!(alert_message(&users(&[])).is_none());
}

#[test]
fn one_user_mentioned_alone() {
    let msg = alert_message(&users(&[11])).unwrap();
    assert_eq!(msg, "Attention <@11> : You need to restart dota. There is an update!");
}

#[test]
fn two_users_joined_by_and() {
    let msg = alert_message(&users(&[11, 22])).unwrap();
    assert_eq!(msg, "Attention <@11> and <@22> : You need to restart dota. There is an update!");
}

#[test]
fn five_users_comma_separated_with_final_and() {
    let msg = alert_message(&users(&[1, 2, 3, 4, 5])).unwrap();
    assert_eq!(
        msg,
        "Attention <@1> , <@2> , <@3> , <@4> and <@5> : You need to restart dota. There is an update!"
    );
}

#[test]
fn three_users_first_two_comma_joined() {
    let msg = alert_message(&users(&[1, 2, 3])).unwrap();
    assert_eq!(
        msg,
        "Attention <@1> , <@2> and <@3> : You need to restart dota. There is an update!"
    );
}

#[test]
fn decimal_rendering_is_exact() {
    assert_eq!(u64_to_string(0), "0");
    assert_eq!(u64_to_string(7), "7");
    assert_eq!(u64_to_string(10), "10");
    assert_eq!(u64_to_string(1234567890), "1234567890");
    assert_eq!(u64_to_string(u64::MAX), "18446744073709551615");
}

#[test]
fn announcement_carries_item_fields() {
    let item = NewsItem {
        gid: "g".to_string(),
        title: "Gameplay Update".to_string(),
        author: "Valve".to_string(),
        url: "http://example.com/update".to_string(),
        date: 0,
    };
    let a = build_announcement(&item);
    assert_eq!(a.title, "Gameplay Update");
    assert_eq!(a.author, "Valve");
    assert_eq!(
        a.description,
        "A new update is available! Please see [here](http://example.com/update) for more information."
    );
    // Epoch zero renders as the UTC RFC 3339 origin, so the publish time
    // really flows through the formatter.
    assert_eq!(a.timestamp.unwrap(), "1970-01-01T00:00:00+00:00");
    assert!(a.color <= 0xffffff);
}

#[test]
fn unrepresentable_publish_time_yields_no_timestamp() {
    let item = NewsItem {
        gid: "g".to_string(),
        title: "t".to_string(),
        author: "a".to_string(),
        url: "u".to_string(),
        date: i64::MAX,
    };
    let a = build_announcement(&item);
    assert!(a.timestamp.is_none());
}

#[test]
fn recent_publish_time_renders_exactly() {
    let item = NewsItem {
        gid: "g".to_string(),
        title: "t".to_string(),
        author: "a".to_string(),
        url: "u".to_string(),
        date: 1431648000,
    };
    let a = build_announcement(&item);
    assert_eq!(a.timestamp.unwrap(), "2015-05-15T00:00:00+00:00");
}
