use vstd::prelude::*;
use crate::item::{NewsItem, NewsItemView};
use crate::notify::{
    Announcement, alert_message, announcement_matches, build_announcement, ids_of_users,
    spec_alert_text,
};
use crate::presence::{
    InterestedUserView, MemberRecord, MemberRecordView, interested_users, member_views,
    spec_interested, user_views,
};

verus! {

/// One community's notification destinations: where mention pings go and
/// where the rich announcement goes. Loaded once, read-only afterwards.
#[derive(Clone, Copy, PartialEq, Eq, Structural, Debug)]
pub struct ChannelConfig {
    pub guild_id: u64,
    pub alert_channel: u64,
    pub announce_channel: u64,
}

/// The first configuration entry for a community, if any.
pub open spec fn spec_lookup(entries: Seq<ChannelConfig>, guild_id: u64) -> Option<ChannelConfig>
    decreases entries.len(),
{
    if entries.len() == 0 {
        None
    } else if entries[0].guild_id == guild_id {
        Some(entries[0])
    } else {
        spec_lookup(entries.drop_first(), guild_id)
    }
}

/// No entry matches exactly when the lookup finds nothing.
pub proof fn lemma_lookup_none(entries: Seq<ChannelConfig>, guild_id: u64)
    ensures
        (spec_lookup(entries, guild_id) is None) <==> (forall|i: int|
            0 <= i < entries.len() ==> (#[trigger] entries[i]).guild_id != guild_id),
    decreases entries.len(),
{
    if entries.len() > 0 {
        let rest = entries.drop_first();
        lemma_lookup_none(rest, guild_id);
        if spec_lookup(entries, guild_id) is None {
            assert forall|i: int|
                0 <= i < entries.len() implies (#[trigger] entries[i]).guild_id != guild_id by {
                if i > 0 {
                    assert(entries[i] == rest[i - 1]);
                }
            }
        } else {
            if entries[0].guild_id != guild_id {
                assert(exists|i: int|
                    0 <= i < rest.len() && (#[trigger] rest[i]).guild_id == guild_id);
                let k = choose|i: int|
                    0 <= i < rest.len() && (#[trigger] rest[i]).guild_id == guild_id;
                assert(entries[k + 1] == rest[k]);
            }
        }
    }
}

/// The per-process table mapping each community to its destinations.
/// Well-formed tables name each community at most once.
pub struct ConfigTable {
    pub entries: Vec<ChannelConfig>,
}

impl ConfigTable {
    pub open spec fn wf(self) -> bool {
        forall|i: int, j: int|
            0 <= i < j < self.entries@.len() ==> self.entries@[i].guild_id
                != self.entries@[j].guild_id
    }

    pub fn new() -> (t: ConfigTable)
        ensures
            t.wf(),
            t.entries@.len() == 0,
    {
        ConfigTable { entries: Vec::new() }
    }

    /// Adds one community's destinations; a community already present is
    /// left as it is and the addition is refused.
    pub fn add(&mut self, c: ChannelConfig) -> (added: bool)
        requires
            old(self).wf(),
        ensures
            final(self).wf(),
            added == (spec_lookup(old(self).entries@, c.guild_id) is None),
            added ==> final(self).entries@ == old(self).entries@.push(c),
            !added ==> *final(self) == *old(self),
    {
        if self.lookup(c.guild_id).is_some() {
            return false;
        }
        proof {
            lemma_lookup_none(self.entries@, c.guild_id);
        }
        self.entries.push(c);
        true
    }

    /// The destinations configured for a community, if any.
    pub fn lookup(&self, guild_id: u64) -> (r: Option<ChannelConfig>)
        ensures
            r == spec_lookup(self.entries@, guild_id),
    {
        let ghost all = self.entries@;
        proof {
            assert(all.skip(0) =~= all);
        }
        let mut i: usize = 0;
        while i < self.entries.len()
            invariant
                0 <= i <= self.entries@.len(),
                all == self.entries@,
                spec_lookup(all, guild_id) == spec_lookup(all.skip(i as int), guild_id),
            decreases self.entries@.len() - i,
        {
            if self.entries[i].guild_id == guild_id {
                proof {
                    assert(all.skip(i as int)[0] == all[i as int]);
                }
                return Some(self.entries[i]);
            }
            proof {
                assert(all.skip(i as int).drop_first() =~= all.skip(i as int + 1));
                assert(all.skip(i as int)[0] == all[i as int]);
            }
            i += 1;
        }
        proof {
            assert(all.skip(all.len() as int).len() == 0);
        }
        None
    }
}

/// What one poll cycle sees of a community: its identifier, its live
/// channel list where the cache could supply one, and its member presence
/// records.
pub struct GuildSnapshot {
    pub guild_id: u64,
    pub channels: Option<Vec<u64>>,
    pub members: Vec<MemberRecord>,
}

#[verifier::ext_equal]
pub struct GuildSnapshotView {
    pub guild_id: u64,
    pub channels: Option<Seq<u64>>,
    pub members: Seq<MemberRecordView>,
}

impl View for GuildSnapshot {
    type V = GuildSnapshotView;

    open spec fn view(&self) -> GuildSnapshotView {
        GuildSnapshotView {
            guild_id: self.guild_id,
            channels: match &self.channels {
                Some(chs) => Some(chs@),
                None => None,
            },
            members: member_views(self.members@),
        }
    }
}

/// How one community is handled for one item: a skip, with its reason, or
/// a delivery. A skipped or failing community never blocks the others.
pub enum RouteDecision {
    /// The community has no configured destinations.
    NoConfig,
    /// The live channel list could not be resolved at all.
    NoChannelList,
    /// The configured alert channel is not among the live channels.
    NoAlertChannel,
    /// The configured announcement channel is not among the live channels.
    NoAnnounceChannel,
    /// Both destinations resolved.
    Deliver { alert_channel: u64, announce_channel: u64 },
}

/// The routing rule for one community: find its configuration, then
/// resolve both destinations against the live channel list; the first
/// failure in that order skips the community.
pub open spec fn spec_route(cfg: Seq<ChannelConfig>, snap: GuildSnapshotView) -> RouteDecision {
    match spec_lookup(cfg, snap.guild_id) {
        None => RouteDecision::NoConfig,
        Some(c) => match snap.channels {
            None => RouteDecision::NoChannelList,
            Some(chs) => if !chs.contains(c.alert_channel) {
                RouteDecision::NoAlertChannel
            } else if !chs.contains(c.announce_channel) {
                RouteDecision::NoAnnounceChannel
            } else {
                RouteDecision::Deliver {
                    alert_channel: c.alert_channel,
                    announce_channel: c.announce_channel,
                }
            },
        },
    }
}

/// Everything a delivery to one community needs: resolved destinations,
/// the optional alert ping, and the announcement.
pub struct Delivery {
    pub guild_id: u64,
    pub alert_channel: u64,
    pub announce_channel: u64,
    pub alert: Option<String>,
    pub announcement: Announcement,
}

/// One community's outcome for one item.
pub enum CommunityPlan {
    SkipNoConfig,
    SkipNoChannelList,
    SkipNoAlertChannel,
    SkipNoAnnounceChannel,
    Deliver(Delivery),
}

/// The alert is absent exactly for an empty interested list, and carries
/// the exact joined-mention text otherwise.
pub open spec fn alert_matches(a: Option<String>, interested: Seq<InterestedUserView>) -> bool {
    match a {
        None => interested.len() == 0,
        Some(s) => interested.len() > 0 && s@ == spec_alert_text(ids_of_users(interested)),
    }
}

/// The plan a community must receive for one item, given its snapshot.
pub open spec fn plan_matches(
    p: CommunityPlan,
    cfg: Seq<ChannelConfig>,
    snap: GuildSnapshotView,
    item: NewsItemView,
) -> bool {
    match spec_route(cfg, snap) {
        RouteDecision::NoConfig => p is SkipNoConfig,
        RouteDecision::NoChannelList => p is SkipNoChannelList,
        RouteDecision::NoAlertChannel => p is SkipNoAlertChannel,
        RouteDecision::NoAnnounceChannel => p is SkipNoAnnounceChannel,
        RouteDecision::Deliver { alert_channel, announce_channel } => p matches
            CommunityPlan::Deliver(d) && {
            &&& d.guild_id == snap.guild_id
            &&& d.alert_channel == alert_channel
            &&& d.announce_channel == announce_channel
            &&& alert_matches(d.alert, spec_interested(snap.members))
            &&& announcement_matches(d.announcement, item)
        },
    }
}

fn contains_u64(v: &Vec<u64>, x: u64) -> (r: bool)
    ensures
        r == v@.contains(x),
{
    let mut i: usize = 0;
    while i < v.len()
        invariant
            0 <= i <= v@.len(),
            forall|k: int| 0 <= k < i ==> v@[k] != x,
        decreases v@.len() - i,
    {
        if v[i] == x {
            return true;
        }
        i += 1;
    }
    proof {
        assert(!v@.contains(x));
    }
    false
}

/// Routes one community for one item: looks up its destinations, resolves
/// them against the live channels, correlates presence, and assembles the
/// messages. Every skip reason is its own outcome; none is an error.
pub fn route_community(cfg: &ConfigTable, snap: &GuildSnapshot, item: &NewsItem) -> (p:
    CommunityPlan)
    ensures
        plan_matches(p, cfg.entries@, snap@, item@),
{
    let c = match cfg.lookup(snap.guild_id) {
        Some(c) => c,
        None => {
            return CommunityPlan::SkipNoConfig;
        },
    };
    let chs = match &snap.channels {
        Some(chs) => chs,
        None => {
            return CommunityPlan::SkipNoChannelList;
        },
    };
    if !contains_u64(chs, c.alert_channel) {
        return CommunityPlan::SkipNoAlertChannel;
    }
    if !contains_u64(chs, c.announce_channel) {
        return CommunityPlan::SkipNoAnnounceChannel;
    }
    let interested = interested_users(&snap.members);
    let alert = alert_message(&interested);
    let announcement = build_announcement(item);
    proof {
        assert(user_views(interested@) == spec_interested(snap@.members));
    }
    CommunityPlan::Deliver(
        Delivery {
            guild_id: snap.guild_id,
            alert_channel: c.alert_channel,
            announce_channel: c.announce_channel,
            alert,
            announcement,
        },
    )
}

/// Routes every community independently: the plan list parallels the
/// snapshot list entry by entry, and each entry depends only on its own
/// community's snapshot, so one community's failure cannot touch another's
/// outcome.
pub fn plan_notifications(cfg: &ConfigTable, snaps: &Vec<GuildSnapshot>, item: &NewsItem) -> (plans:
    Vec<CommunityPlan>)
    ensures
        plans@.len() == snaps@.len(),
        forall|i: int|
            0 <= i < snaps@.len() ==> plan_matches(
                #[trigger] plans@[i],
                cfg.entries@,
                snaps@[i]@,
                item@,
            ),
{
    let mut plans: Vec<CommunityPlan> = Vec::new();
    let mut i: usize = 0;
    while i < snaps.len()
        invariant
            0 <= i <= snaps@.len(),
            plans@.len() == i,
            forall|k: int|
                0 <= k < i ==> plan_matches(#[trigger] plans@[k], cfg.entries@, snaps@[k]@, item@),
        decreases snaps@.len() - i,
    {
        let p = route_community(cfg, &snaps[i], item);
        plans.push(p);
        i += 1;
    }
    plans
}

} // verus!
