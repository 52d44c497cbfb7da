use vstd::prelude::*;
use vstd::string::StringExecFns;
use crate::item::NewsItem;
use crate::presence::{InterestedUser, InterestedUserView, user_views};
use crate::text::{spec_dec, u64_to_string};

verus! {

/// The mention token for one user.
pub open spec fn mention(id: u64) -> Seq<char> {
    "<@"@ + spec_dec(id as nat) + ">"@
}

/// The fixed closing of every alert message.
pub open spec fn alert_tail() -> Seq<char> {
    " : You need to restart dota. There is an update!"@
}

/// The comma-separated mentions of a non-empty list of users.
pub open spec fn listed_mentions(ids: Seq<u64>) -> Seq<char>
    recommends
        ids.len() > 0,
    decreases ids.len(),
{
    if ids.len() <= 1 {
        mention(ids[0])
    } else {
        listed_mentions(ids.drop_last()) + " , "@ + mention(ids.last())
    }
}

/// The exact alert text for a non-empty list of users: one mention alone;
/// otherwise all earlier mentions comma-separated and the final one
/// joined by "and".
pub open spec fn spec_alert_text(ids: Seq<u64>) -> Seq<char>
    recommends
        ids.len() > 0,
{
    if ids.len() == 1 {
        "Attention "@ + mention(ids[0]) + alert_tail()
    } else {
        "Attention "@ + listed_mentions(ids.drop_last()) + " and "@ + mention(ids.last())
            + alert_tail()
    }
}

pub open spec fn ids_of_users(us: Seq<InterestedUserView>) -> Seq<u64> {
    us.map_values(|u: InterestedUserView| u.user_id)
}

fn mention_string(id: u64) -> (r: String)
    ensures
        r@ == mention(id),
{
    let mut s = String::from_str("<@");
    let digits = u64_to_string(id);
    s.append(digits.as_str());
    s.append(">");
    proof {
        assert(s@ =~= mention(id));
    }
    s
}

/// Builds the alert ping for a community: nothing for no interested
/// users, otherwise exactly the joined-mention text of the whole list in
/// one message.
pub fn alert_message(users: &Vec<InterestedUser>) -> (r: Option<String>)
    ensures
        (r is None) <==> users@.len() == 0,
        r matches Some(s) ==> s@ == spec_alert_text(ids_of_users(user_views(users@))),
{
    let ghost ids = ids_of_users(user_views(users@));
    proof {
        assert(ids.len() == users@.len());
    }
    let n = users.len();
    if n == 0 {
        return None;
    }
    let mut s = String::from_str("Attention ");
    let m0 = mention_string(users[0].user_id);
    s.append(m0.as_str());
    proof {
        assert(ids[0] == users@[0].user_id);
    }
    if n == 1 {
        s.append(" : You need to restart dota. There is an update!");
        proof {
            assert(s@ =~= spec_alert_text(ids));
        }
        return Some(s);
    }
    proof {
        assert(ids.take(1)[0] == ids[0]);
        assert(s@ =~= "Attention "@ + listed_mentions(ids.take(1)));
    }
    let mut i: usize = 1;
    while i < n - 1
        invariant
            1 <= i <= n - 1,
            2 <= n == users@.len(),
            ids == ids_of_users(user_views(users@)),
            ids.len() == users@.len(),
            s@ == "Attention "@ + listed_mentions(ids.take(i as int)),
        decreases n - 1 - i,
    {
        let ghost pre = ids.take(i as int);
        s.append(" , ");
        let m = mention_string(users[i].user_id);
        s.append(m.as_str());
        proof {
            assert(ids.take(i as int + 1).drop_last() =~= pre);
            assert(ids.take(i as int + 1).last() == ids[i as int]);
            assert(ids[i as int] == users@[i as int].user_id);
            assert(s@ =~= "Attention "@ + listed_mentions(ids.take(i as int + 1)));
        }
        i += 1;
    }
    let last = mention_string(users[n - 1].user_id);
    s.append(" and ");
    s.append(last.as_str());
    s.append(" : You need to restart dota. There is an update!");
    proof {
        assert(ids.take(n - 1 as int) =~= ids.drop_last());
        assert(ids.last() == users@[n - 1].user_id);
        assert(s@ =~= spec_alert_text(ids));
    }
    Some(s)
}

/// The rich announcement sent to a community's announcement channel:
/// the item's display fields, a link line, the publish time rendered as
/// RFC 3339 text where the epoch is representable, and a cosmetic color.
pub struct Announcement {
    pub title: String,
    pub author: String,
    pub description: String,
    pub timestamp: Option<String>,
    pub color: u32,
}

/// The announcement's link line for an item's URL.
pub open spec fn spec_description(url: Seq<char>) -> Seq<char> {
    "A new update is available! Please see [here]("@ + url + ") for more information."@
}

/// The RFC 3339 rendering of an epoch second in UTC, or nothing for the
/// epochs whose date is not representable; a function of the epoch alone.
pub uninterp spec fn rfc3339_of(epoch: int) -> Option<Seq<char>>;

/// Relies on chrono's Utc::timestamp_opt and DateTime::to_rfc3339: an
/// in-range epoch second has exactly one UTC date-time, whose RFC 3339
/// text depends on the epoch alone, and exactly the out-of-range epochs
/// yield nothing.
#[verifier::external_body]
fn format_rfc3339(epoch: i64) -> (r: Option<String>)
    ensures
        (match r {
            Some(s) => rfc3339_of(epoch as int) == Some(s@),
            None => rfc3339_of(epoch as int) is None,
        }),
{
    match chrono::TimeZone::timestamp_opt(&chrono::Utc, epoch, 0) {
        chrono::LocalResult::Single(dt) => Some(dt.to_rfc3339()),
        _ => None,
    }
}

/// Relies on rand's thread_rng and Rng::gen_range: a sample from an
/// inclusive range lies inside that range.
#[verifier::external_body]
fn random_color() -> (c: u32)
    ensures
        c <= 0xffffff,
{
    rand::Rng::gen_range(&mut rand::thread_rng(), 0u32..=0xffffff)
}

/// The announcement carries exactly the item's display fields, the link
/// line for its URL, its publish time whenever that is representable,
/// and a color inside the cosmetic range.
pub open spec fn announcement_matches(a: Announcement, item: crate::item::NewsItemView) -> bool {
    &&& a.title@ == item.title
    &&& a.author@ == item.author
    &&& a.description@ == spec_description(item.url)
    &&& (match a.timestamp {
        Some(t) => rfc3339_of(item.date) == Some(t@),
        None => rfc3339_of(item.date) is None,
    })
    &&& a.color <= 0xffffff
}

/// Builds the announcement for one item.
pub fn build_announcement(item: &NewsItem) -> (a: Announcement)
    ensures
        announcement_matches(a, item@),
{
    let mut description = String::from_str("A new update is available! Please see [here](");
    description.append(item.url.as_str());
    description.append(") for more information.");
    let a = Announcement {
        title: String::from_str(item.title.as_str()),
        author: String::from_str(item.author.as_str()),
        description,
        timestamp: format_rfc3339(item.date),
        color: random_color(),
    };
    proof {
        assert(a.description@ =~= spec_description(item@.url));
    }
    a
}

} // verus!
