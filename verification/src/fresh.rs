use vstd::prelude::*;
use vstd::string::StringExecFns;
use crate::item::{NewsItem, NewsItemView, RawItem, RawItemView, spec_parse_item, parse_item};
use crate::text::str_eq;

verus! {

/// The process-wide freshness record: publish time and identifier of the
/// most recently accepted item. `last_at` never decreases across accepted
/// items.
pub struct FreshnessState {
    pub last_at: i64,
    pub last_id: String,
}

#[verifier::ext_equal]
pub struct FreshnessView {
    pub last_at: int,
    pub last_id: Seq<char>,
}

impl View for FreshnessState {
    type V = FreshnessView;

    open spec fn view(&self) -> FreshnessView {
        FreshnessView { last_at: self.last_at as int, last_id: self.last_id@ }
    }
}

/// An item is new against a state when it is no older than the last
/// accepted item and carries a different identifier. Recency alone would
/// re-announce the latest item every poll; identity is the tie-break.
pub open spec fn accepts(s: FreshnessView, it: NewsItemView) -> bool {
    it.date >= s.last_at && it.gid != s.last_id
}

/// The state after one acceptance decision: overwritten by an accepted
/// item, untouched otherwise.
pub open spec fn step_state(s: FreshnessView, it: NewsItemView) -> FreshnessView {
    if accepts(s, it) {
        FreshnessView { last_at: it.date, last_id: it.gid }
    } else {
        s
    }
}

/// The state after a whole sequence of acceptance decisions.
pub open spec fn run_items(s: FreshnessView, items: Seq<NewsItemView>) -> FreshnessView
    decreases items.len(),
{
    if items.len() == 0 {
        s
    } else {
        step_state(run_items(s, items.drop_last()), items.last())
    }
}

impl FreshnessState {
    /// The state at process start: the given moment, with an empty
    /// identifier.
    pub fn new(now: i64) -> (s: FreshnessState)
        ensures
            s@.last_at == now as int,
            s@.last_id == Seq::<char>::empty(),
    {
        proof {
            reveal_strlit("");
        }
        let s = FreshnessState { last_at: now, last_id: String::from_str("") };
        proof {
            assert(s@.last_id =~= Seq::<char>::empty());
        }
        s
    }

    /// One acceptance decision, returning whether the item is new and, if
    /// it is, recording it as the most recently accepted one.
    pub fn consider_item(&mut self, item: &NewsItem) -> (accepted: bool)
        ensures
            accepted == accepts(old(self)@, item@),
            final(self)@ == step_state(old(self)@, item@),
    {
        let is_new = item.date >= self.last_at && !str_eq(
            item.gid.as_str(),
            self.last_id.as_str(),
        );
        if is_new {
            self.last_at = item.date;
            self.last_id = String::from_str(item.gid.as_str());
            proof {
                assert(self@ =~= step_state(old(self)@, item@));
            }
        }
        is_new
    }
}

/// The views of a batch of raw entries.
pub open spec fn raw_views(rs: Seq<RawItem>) -> Seq<RawItemView> {
    rs.map_values(|r: RawItem| r@)
}

pub open spec fn opt_item_view(o: Option<NewsItem>) -> Option<NewsItemView> {
    match o {
        Some(it) => Some(it@),
        None => None,
    }
}

/// One poll cycle's pass over a raw batch: each entry is validated and,
/// if well formed, put to the acceptance decision in order. The result is
/// the final state together with the last accepted item, if any.
pub open spec fn spec_process(s: FreshnessView, raws: Seq<RawItemView>) -> (FreshnessView, Option<
    NewsItemView,
>)
    decreases raws.len(),
{
    if raws.len() == 0 {
        (s, None)
    } else {
        let prev = spec_process(s, raws.drop_last());
        match spec_parse_item(raws.last()) {
            Ok(it) => if accepts(prev.0, it) {
                (step_state(prev.0, it), Some(it))
            } else {
                prev
            },
            Err(_) => prev,
        }
    }
}

/// Validates and deduplicates one raw batch. A malformed entry is skipped
/// on its own; well-formed entries are accepted or rejected in order, and
/// the last accepted one — the highest-timestamped of the batch — is
/// returned for notification.
pub fn process_batch(state: &mut FreshnessState, raws: &Vec<RawItem>) -> (surfaced: Option<
    NewsItem,
>)
    ensures
        final(state)@ == spec_process(old(state)@, raw_views(raws@)).0,
        opt_item_view(surfaced) == spec_process(old(state)@, raw_views(raws@)).1,
{
    let ghost s0 = old(state)@;
    let ghost rv = raw_views(raws@);
    let mut surfaced: Option<NewsItem> = None;
    let mut i: usize = 0;
    while i < raws.len()
        invariant
            0 <= i <= raws.len(),
            rv == raw_views(raws@),
            rv.len() == raws@.len(),
            state@ == spec_process(s0, rv.take(i as int)).0,
            opt_item_view(surfaced) == spec_process(s0, rv.take(i as int)).1,
        decreases raws.len() - i,
    {
        let ghost pre = rv.take(i as int);
        match parse_item(&raws[i]) {
            Ok(item) => {
                let accepted = state.consider_item(&item);
                if accepted {
                    surfaced = Some(item);
                }
            },
            Err(_) => {},
        }
        proof {
            assert(rv.take(i as int + 1).drop_last() =~= pre);
            assert(rv.take(i as int + 1).last() == raws@[i as int]@);
        }
        i += 1;
    }
    proof {
        assert(rv.take(raws@.len() as int) =~= rv);
    }
    surfaced
}

/// Items arriving with strictly increasing timestamps and identifiers
/// distinct from each other and from the starting state are each accepted,
/// and the state always reflects the most recently accepted item.
pub proof fn lemma_fresh_stream_all_accepted(s0: FreshnessView, items: Seq<NewsItemView>)
    requires
        forall|i: int, j: int|
            0 <= i < j < items.len() ==> items[i].date < items[j].date,
        forall|i: int, j: int|
            0 <= i < j < items.len() ==> items[i].gid != items[j].gid,
        items.len() > 0 ==> items[0].date >= s0.last_at,
        items.len() > 0 ==> items[0].gid != s0.last_id,
    ensures
        forall|i: int|
            0 <= i < items.len() ==> accepts(run_items(s0, #[trigger] items.take(i)), items[i]),
        items.len() > 0 ==> run_items(s0, items) == (FreshnessView {
            last_at: items.last().date,
            last_id: items.last().gid,
        }),
    decreases items.len(),
{
    if items.len() > 0 {
        let pre = items.drop_last();
        if pre.len() > 0 {
            assert(pre[0] == items[0]);
        }
        lemma_fresh_stream_all_accepted(s0, pre);
        assert forall|i: int| 0 <= i < items.len() - 1 implies accepts(
            run_items(s0, #[trigger] items.take(i)),
            items[i],
        ) by {
            assert(items.take(i) =~= pre.take(i));
            assert(items[i] == pre[i]);
        }
        assert(items.take(items.len() - 1) =~= pre);
        let s_pre = run_items(s0, pre);
        if pre.len() == 0 {
            assert(s_pre == s0);
            assert(items.last() == items[0]);
            assert(accepts(s_pre, items.last()));
        } else {
            assert(s_pre == FreshnessView {
                last_at: pre.last().date,
                last_id: pre.last().gid,
            });
            assert(accepts(s_pre, items.last()));
        }
    }
}

/// After such a stream is consumed, re-submitting any of its items is
/// rejected: each was accepted exactly once.
pub proof fn lemma_fresh_stream_no_reacceptance(s0: FreshnessView, items: Seq<NewsItemView>)
    requires
        forall|i: int, j: int|
            0 <= i < j < items.len() ==> items[i].date < items[j].date,
        forall|i: int, j: int|
            0 <= i < j < items.len() ==> items[i].gid != items[j].gid,
        items.len() > 0 ==> items[0].date >= s0.last_at,
        items.len() > 0 ==> items[0].gid != s0.last_id,
    ensures
        forall|i: int| 0 <= i < items.len() ==> !accepts(run_items(s0, items), items[i]),
{
    if items.len() > 0 {
        lemma_fresh_stream_all_accepted(s0, items);
        assert forall|i: int| 0 <= i < items.len() implies !accepts(
            run_items(s0, items),
            items[i],
        ) by {
            if i < items.len() - 1 {
                assert(items[i].date < items.last().date);
            } else {
                assert(items[i].gid == items.last().gid);
            }
        }
    }
}

/// The validated items of a batch whose entries all validate.
pub open spec fn parsed_items(raws: Seq<RawItemView>) -> Seq<NewsItemView> {
    raws.map_values(|r: RawItemView| spec_parse_item(r).unwrap())
}

/// Over a batch whose entries all validate, the cycle's state fold is the
/// plain run of acceptance decisions on the validated items, so the laws
/// stated of that run hold of the pipeline itself.
pub proof fn lemma_process_runs_items(s: FreshnessView, raws: Seq<RawItemView>)
    requires
        forall|i: int| 0 <= i < raws.len() ==> (#[trigger] spec_parse_item(raws[i]) is Ok),
    ensures
        spec_process(s, raws).0 == run_items(s, parsed_items(raws)),
    decreases raws.len(),
{
    if raws.len() > 0 {
        let pre = raws.drop_last();
        assert(forall|i: int| 0 <= i < pre.len() ==> pre[i] == raws[i]);
        lemma_process_runs_items(s, pre);
        assert(parsed_items(raws).drop_last() =~= parsed_items(pre));
        assert(parsed_items(raws).last() == spec_parse_item(raws.last()).unwrap());
    }
}

/// Across any single acceptance decision the recorded timestamp never
/// decreases, so `last_at` is monotone over any run of decisions.
pub proof fn lemma_last_at_monotone(s: FreshnessView, it: NewsItemView)
    ensures
        step_state(s, it).last_at >= s.last_at,
{
}

/// Re-delivery of an already-accepted item — same identifier, same or
/// earlier timestamp — is never accepted again.
pub proof fn lemma_redelivery_rejected(s: FreshnessView, it: NewsItemView, again: NewsItemView)
    requires
        accepts(s, it),
        again.gid == it.gid,
        again.date <= it.date,
    ensures
        !accepts(step_state(s, it), again),
{
}

/// Two items sharing one timestamp but carrying different identifiers:
/// the second is accepted too; the identifier is the true dedup key.
pub proof fn lemma_shared_timestamp_accepted(s: FreshnessView, a: NewsItemView, b: NewsItemView)
    requires
        accepts(s, a),
        b.date == a.date,
        b.gid != a.gid,
    ensures
        accepts(step_state(s, a), b),
{
}

/// The item a batch surfaces is exactly the one the final state records.
pub proof fn lemma_surfaced_matches_state(s: FreshnessView, raws: Seq<RawItemView>)
    ensures
        spec_process(s, raws).1 matches Some(it) ==> spec_process(s, raws).0 == (FreshnessView {
            last_at: it.date,
            last_id: it.gid,
        }),
    decreases raws.len(),
{
    if raws.len() > 0 {
        lemma_surfaced_matches_state(s, raws.drop_last());
    }
}

/// A malformed entry anywhere in a batch changes nothing: processing the
/// batch equals processing the batch with that entry removed, so the other
/// entries are evaluated exactly as before.
pub proof fn lemma_malformed_entry_inert(s: FreshnessView, raws: Seq<RawItemView>, i: int)
    requires
        0 <= i < raws.len(),
        (spec_parse_item(raws[i]) is Err),
    ensures
        spec_process(s, raws) == spec_process(s, raws.remove(i)),
    decreases raws.len(),
{
    if i == raws.len() - 1 {
        assert(raws.remove(i) =~= raws.drop_last());
    } else {
        let pre = raws.drop_last();
        assert(pre[i] == raws[i]);
        lemma_malformed_entry_inert(s, pre, i);
        assert(raws.remove(i).drop_last() =~= pre.remove(i));
        assert(raws.remove(i).last() == raws.last());
        assert(raws.remove(i).len() > 0);
    }
}

} // verus!
