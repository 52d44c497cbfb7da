use vstd::prelude::*;
use vstd::string::StringExecFns;
use crate::feed::FetchError;
use crate::fresh::{FreshnessState, raw_views, spec_process};
use crate::item::{NewsItem, RawItem};

verus! {

/// Seconds the orchestrator sleeps after every cycle, whatever its
/// outcome.
pub const POLL_INTERVAL_SECS: u64 = 60;

/// The fixed feed endpoint: application identifier, item count cap,
/// excerpt length cap, and response format.
pub open spec fn spec_feed_url() -> Seq<char> {
    "http://api.steampowered.com/ISteamNews/GetNewsForApp/v0002/?appid=570&count=10&maxlength=300&format=json"@
}

pub fn feed_url() -> (u: String)
    ensures
        u@ == spec_feed_url(),
{
    String::from_str(
        "http://api.steampowered.com/ISteamNews/GetNewsForApp/v0002/?appid=570&count=10&maxlength=300&format=json",
    )
}

/// What one poll cycle produced; it drives only that cycle's branch and
/// is never persisted.
pub enum PollCycleResult {
    /// Nothing new; the loop only sleeps.
    NoNewItem,
    /// One new item to notify about.
    NewItem(NewsItem),
    /// The feed could not be fetched or understood this cycle; treated as
    /// no new item, never as a reason to stop.
    FetchError(FetchError),
}

/// Runs the decision part of one poll cycle on the decoded fetch outcome:
/// a failed fetch leaves the state untouched, a batch is validated and
/// deduplicated, and the surfaced item, if any, is the one to notify
/// about.
pub fn evaluate_cycle(state: &mut FreshnessState, fetched: Result<Vec<RawItem>, FetchError>) -> (r:
    PollCycleResult)
    ensures
        fetched matches Err(e) ==> final(state)@ == old(state)@ && r == PollCycleResult::FetchError(
            e,
        ),
        fetched matches Ok(raws) ==> {
            &&& final(state)@ == spec_process(old(state)@, raw_views(raws@)).0
            &&& (match r {
                PollCycleResult::NewItem(it) => spec_process(old(state)@, raw_views(raws@)).1
                    == Some(it@),
                PollCycleResult::NoNewItem => spec_process(old(state)@, raw_views(raws@)).1
                    is None,
                PollCycleResult::FetchError(_) => false,
            })
        },
{
    match fetched {
        Err(e) => PollCycleResult::FetchError(e),
        Ok(raws) => match crate::fresh::process_batch(state, &raws) {
            Some(item) => PollCycleResult::NewItem(item),
            None => PollCycleResult::NoNewItem,
        },
    }
}

/// The orchestrator's two phases: it waits for the readiness signal once,
/// then polls forever; neither phase is terminal under normal operation.
#[derive(Clone, Copy, PartialEq, Eq, Structural, Debug)]
pub enum LoopPhase {
    AwaitingReady,
    Polling,
}

/// Polling, once reached, is never left; readiness starts it.
pub open spec fn spec_advance_phase(phase: LoopPhase, ready: bool) -> LoopPhase {
    match phase {
        LoopPhase::Polling => LoopPhase::Polling,
        LoopPhase::AwaitingReady => if ready {
            LoopPhase::Polling
        } else {
            LoopPhase::AwaitingReady
        },
    }
}

/// One step of the readiness wait.
pub fn advance_phase(phase: LoopPhase, ready: bool) -> (p: LoopPhase)
    ensures
        p == spec_advance_phase(phase, ready),
{
    match phase {
        LoopPhase::Polling => LoopPhase::Polling,
        LoopPhase::AwaitingReady => if ready {
            LoopPhase::Polling
        } else {
            LoopPhase::AwaitingReady
        },
    }
}

/// Relies on chrono's Utc::now: the moment the call is made; nothing more
/// is promised of it.
#[verifier::external_body]
fn now_epoch() -> (t: i64) {
    chrono::Utc::now().timestamp()
}

/// The freshness state a process starts with: the moment of startup, with
/// an empty identifier. State is not persisted across restarts; the known
/// gap around items published in the restart window is deliberate.
pub fn startup_state() -> (s: FreshnessState)
    ensures
        s@.last_id == Seq::<char>::empty(),
{
    FreshnessState::new(now_epoch())
}

} // verus!
