use vstd::prelude::*;
use vstd::string::StringExecFns;
use crate::text::{contains_ci, lower_seq, seq_contains};

verus! {

/// What presence correlation reads of one community member: identity,
/// whether the account is automated, and the names of the activities the
/// member currently reports.
pub struct MemberRecord {
    pub user_id: u64,
    pub handle: String,
    pub is_bot: bool,
    pub activities: Vec<String>,
}

#[verifier::ext_equal]
pub struct MemberRecordView {
    pub user_id: u64,
    pub handle: Seq<char>,
    pub is_bot: bool,
    pub activities: Seq<Seq<char>>,
}

impl View for MemberRecord {
    type V = MemberRecordView;

    open spec fn view(&self) -> MemberRecordView {
        MemberRecordView {
            user_id: self.user_id,
            handle: self.handle@,
            is_bot: self.is_bot,
            activities: self.activities@.map_values(|a: String| a@),
        }
    }
}

/// A member worth alerting: recomputed every poll cycle, never persisted.
pub struct InterestedUser {
    pub user_id: u64,
    pub handle: String,
}

#[verifier::ext_equal]
pub struct InterestedUserView {
    pub user_id: u64,
    pub handle: Seq<char>,
}

impl View for InterestedUser {
    type V = InterestedUserView;

    open spec fn view(&self) -> InterestedUserView {
        InterestedUserView { user_id: self.user_id, handle: self.handle@ }
    }
}

/// The name of the tracked game, in lowercase, as it is looked for inside
/// activity names.
pub open spec fn tracked_game() -> Seq<char> {
    "dota"@
}

/// An activity name counts when it contains the tracked game's name as a
/// case-insensitive substring.
pub open spec fn activity_matches(name: Seq<char>) -> bool {
    seq_contains(lower_seq(name), tracked_game())
}

/// A member is interested when the account is not automated and some
/// currently reported activity matches.
pub open spec fn member_interested(m: MemberRecordView) -> bool {
    &&& !m.is_bot
    &&& exists|i: int| 0 <= i < m.activities.len() && #[trigger] activity_matches(m.activities[i])
}

pub open spec fn user_of(m: MemberRecordView) -> InterestedUserView {
    InterestedUserView { user_id: m.user_id, handle: m.handle }
}

/// The interested members of a community, in their given order.
pub open spec fn spec_interested(ms: Seq<MemberRecordView>) -> Seq<InterestedUserView>
    decreases ms.len(),
{
    if ms.len() == 0 {
        Seq::empty()
    } else if member_interested(ms.last()) {
        spec_interested(ms.drop_last()).push(user_of(ms.last()))
    } else {
        spec_interested(ms.drop_last())
    }
}

pub open spec fn member_views(ms: Seq<MemberRecord>) -> Seq<MemberRecordView> {
    ms.map_values(|m: MemberRecord| m@)
}

pub open spec fn user_views(us: Seq<InterestedUser>) -> Seq<InterestedUserView> {
    us.map_values(|u: InterestedUser| u@)
}

fn record_interested(m: &MemberRecord) -> (r: bool)
    ensures
        r == member_interested(m@),
{
    if m.is_bot {
        return false;
    }
    let mut i: usize = 0;
    while i < m.activities.len()
        invariant
            0 <= i <= m.activities.len(),
            !m.is_bot,
            m@.activities.len() == m.activities@.len(),
            forall|k: int| 0 <= k < i ==> !activity_matches(m@.activities[k]),
        decreases m.activities.len() - i,
    {
        if contains_ci(m.activities[i].as_str(), "dota") {
            proof {
                assert(m@.activities[i as int] == m.activities@[i as int]@);
                assert(activity_matches(m@.activities[i as int]));
                assert(member_interested(m@));
            }
            return true;
        }
        i += 1;
    }
    false
}

/// Filters a community's members to the interested, non-automated ones,
/// keeping their order. An empty result is an ordinary outcome, not an
/// error.
pub fn interested_users(members: &Vec<MemberRecord>) -> (r: Vec<InterestedUser>)
    ensures
        user_views(r@) == spec_interested(member_views(members@)),
{
    let ghost mv = member_views(members@);
    let mut r: Vec<InterestedUser> = Vec::new();
    let mut i: usize = 0;
    while i < members.len()
        invariant
            0 <= i <= members.len(),
            mv == member_views(members@),
            mv.len() == members@.len(),
            user_views(r@) == spec_interested(mv.take(i as int)),
        decreases members.len() - i,
    {
        let ghost pre = mv.take(i as int);
        if record_interested(&members[i]) {
            let m = &members[i];
            r.push(InterestedUser {
                user_id: m.user_id,
                handle: String::from_str(m.handle.as_str()),
            });
        }
        proof {
            assert(mv.take(i as int + 1).drop_last() =~= pre);
            assert(mv.take(i as int + 1).last() == members@[i as int]@);
            assert(user_views(r@) =~= spec_interested(mv.take(i as int + 1)));
        }
        i += 1;
    }
    proof {
        assert(mv.take(members@.len() as int) =~= mv);
    }
    r
}

} // verus!
