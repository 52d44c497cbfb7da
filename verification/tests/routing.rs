use patch_alerts::item::NewsItem;
use patch_alerts::presence::MemberRecord;
use patch_alerts::route::{
    ChannelConfig, CommunityPlan, ConfigTable, GuildSnapshot, plan_notifications, route_community,
};

fn item() -> NewsItem {
    NewsItem {
        gid: "g1".to_string(),
        title: "Gameplay Update".to_string(),
        author: "Valve".to_string(),
        url: "http://example.com/update".to_string(),
        date: 1700000000,
    }
}

fn member(user_id: u64, is_bot: bool, activity: &str) -> MemberRecord {
    MemberRecord {
        user_id,
        handle: format!("user{}", user_id),
        is_bot,
        activities: vec![activity.to_string()],
    }
}

fn table() -> ConfigTable {
    let mut t = ConfigTable::new();
    assert!(t.add(ChannelConfig { guild_id: 1, alert_channel: 10, announce_channel: 11 }));
    assert!(t.add(ChannelConfig { guild_id: 2, alert_channel: 20, announce_channel: 21 }));
    t
}

#[test]
fn duplicate_community_refused() {
    let mut t = table();
    assert!(!t.add(ChannelConfig { guild_id: 1, alert_channel: 99, announce_channel: 98 }));
    let c = t.lookup(1).unwrap();
    assert_eq!(c.alert_channel, 10);
    assert_eq!(c.announce_channel, 11);
    assert!(t.lookup(3).is_none());
}

#[test]
fn unconfigured_community_skipped() {
    let snap = GuildSnapshot { guild_id: 7, channels: Some(vec![1, 2]), members: vec![] };
    let p = route_community(&table(), &snap, &item());
    assert!(matches!(p, CommunityPlan::SkipNoConfig));
}

#[test]
fn missing_channel_list_skipped() {
    let snap = GuildSnapshot { guild_id: 1, channels: None, members: vec![] };
    let p = route_community(&table(), &snap, &item());
    assert!(matches!(p, CommunityPlan::SkipNoChannelList));
}

#[test]
fn unresolvable_alert_channel_skipped() {
    let snap = GuildSnapshot { guild_id: 1, channels: Some(vec![11]), members: vec![] };
    let p = route_community(&table(), &snap, &item());
    assert!(matches!(p, CommunityPlan::SkipNoAlertChannel));
}

#[test]
fn unresolvable_announce_channel_skipped() {
    let snap = GuildSnapshot { guild_id: 1, channels: Some(vec![10]), members: vec![] };
    let p = route_community(&table(), &snap, &item());
    assert!(matches!(p, CommunityPlan::SkipNoAnnounceChannel));
}

#[test]
fn resolved_community_delivers() {
    let snap = GuildSnapshot {
        guild_id: 1,
        channels: Some(vec![9, 10, 11]),
        members: vec![member(5, false, "Dota 2")],
    };
    let p = route_community(&table(), &snap, &item());
    match p {
        CommunityPlan::Deliver(d) => {
            assert_eq!(d.guild_id, 1);
            assert_eq!(d.alert_channel, 10);
            assert_eq!(d.announce_channel, 11);
            assert_eq!(
                d.alert.unwrap(),
                "Attention <@5> : You need to restart dota. There is an update!"
            );
            assert_eq!(d.announcement.title, "Gameplay Update");
        },
        _ => panic!("expected a delivery"),
    }
}

#[test]
fn bots_and_other_activities_not_alerted() {
    let snap = GuildSnapshot {
        guild_id: 1,
        channels: Some(vec![10, 11]),
        members: vec![member(5, true, "Dota 2"), member(6, false, "chess"), member(7, false, "")],
    };
    let p = route_community(&table(), &snap, &item());
    match p {
        CommunityPlan::Deliver(d) => assert!(d.alert.is_none()),
        _ => panic!("expected a delivery"),
    }
}

#[test]
fn activity_match_is_case_insensitive_substring() {
    let snap = GuildSnapshot {
        guild_id: 1,
        channels: Some(vec![10, 11]),
        members: vec![member(5, false, "Playing DOTA 2 ranked"), member(6, false, "dotabuff")],
    };
    let p = route_community(&table(), &snap, &item());
    match p {
        CommunityPlan::Deliver(d) => {
            assert_eq!(
                d.alert.unwrap(),
                "Attention <@5> and <@6> : You need to restart dota. There is an update!"
            );
        },
        _ => panic!("expected a delivery"),
    }
}

#[test]
fn one_community_failure_does_not_block_the_next() {
    let snaps = vec![
        // valid config but unresolvable announcement channel
        GuildSnapshot {
            guild_id: 1,
            channels: Some(vec![10]),
            members: vec![member(5, false, "dota")],
        },
        // healthy community
        GuildSnapshot {
            guild_id: 2,
            channels: Some(vec![20, 21]),
            members: vec![member(6, false, "dota")],
        },
    ];
    let plans = plan_notifications(&table(), &snaps, &item());
    assert_eq!(plans.len(), 2);
    assert!(matches!(plans[0], CommunityPlan::SkipNoAnnounceChannel));
    match &plans[1] {
        CommunityPlan::Deliver(d) => {
            assert_eq!(d.guild_id, 2);
            assert_eq!(
                d.alert.as_ref().unwrap(),
                "Attention <@6> : You need to restart dota. There is an update!"
            );
        },
        _ => panic!("expected a delivery for the healthy community"),
    }
}
