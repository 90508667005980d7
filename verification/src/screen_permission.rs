//! Screen Recording permission for the screenshot context fallback.
//!
//! Two rules the rest of the application depends on:
//!
//! 1. **Never poll the permission.** The live preflight is a call into the
//!    window server, and the process sits in the delivery path of every key and
//!    mouse event in the session. Checks are therefore single-flight and
//!    rate-limited: a check holds the lock on the cache until its live call is
//!    answered, and within [`PREFLIGHT_MIN_INTERVAL`] of a live answer checks
//!    are served from the cache. [`crate::preflight_laws`] proves both.
//! 2. **Prompt with the event tap removed.** The prompt blocks until the user
//!    answers, so the keyboard hook is taken out of the event path before it is
//!    raised and put back afterwards, on every path.
use vstd::prelude::*;
use vstd::string::StringExecFns;

verus! {

/// Shortest gap between two live preflight calls, in nanoseconds. Repeats
/// inside the window are answered from the cache, so a chatty UI cannot turn
/// into a storm of calls.
pub const PREFLIGHT_MIN_INTERVAL: u64 = 750_000_000;

/// A live preflight result and when it was taken, in nanoseconds on a
/// monotonic clock.
#[derive(Debug, Clone, Copy)]
pub struct Preflight {
    pub taken_at: u64,
    pub granted: bool,
}

/// Last live preflight result. `poisoned` tells that a thread has panicked
/// while it held the lock that guards the cache.
#[derive(Debug, Clone, Copy)]
pub struct PreflightCache {
    pub last: Option<Preflight>,
    pub poisoned: bool,
}

/// How a permission check goes on.
#[derive(Debug, Clone, Copy, PartialEq, Eq, Structural)]
pub enum GrantCheck {
    /// The answer is known.
    Known(bool),
    /// The system has to be asked.
    AskSystem,
}

impl PreflightCache {
    /// The answer that the cache still vouches for at the time `now`.
    pub open spec fn fresh_answer(self, now: int) -> Option<bool> {
        match self.last {
            Some(p) => if now - p.taken_at < PREFLIGHT_MIN_INTERVAL {
                Some(p.granted)
            } else {
                None
            },
            None => None,
        }
    }

    /// How a check at the time `now` goes on.
    pub open spec fn verdict(self, now: int) -> GrantCheck {
        match self.fresh_answer(now) {
            Some(granted) => GrantCheck::Known(granted),
            None => GrantCheck::AskSystem,
        }
    }

    /// The cache without its answer.
    pub open spec fn invalidated(self) -> PreflightCache {
        PreflightCache { last: None, poisoned: self.poisoned }
    }

    /// The cache with the answer that the system gave at the time `at`.
    pub open spec fn recorded(self, at: u64, granted: bool) -> PreflightCache {
        PreflightCache { last: Some(Preflight { taken_at: at, granted }), poisoned: self.poisoned }
    }

    /// A cache that holds no answer yet.
    pub fn new() -> (cache: Self)
        ensures
            cache == (PreflightCache { last: None, poisoned: false }),
    {
        PreflightCache { last: None, poisoned: false }
    }

    /// Keep the live answer that the system gave at the time `at`, and hand it
    /// on. A poisoned cache is used like any other: a panic must not become a
    /// reason to ask the system again and again.
    pub fn record(&mut self, at: u64, granted: bool) -> (answer: bool)
        ensures
            answer == granted,
            *final(self) == old(self).recorded(at, granted),
    {
        self.last = Some(Preflight { taken_at: at, granted });
        granted
    }
}

/// Rate-limited permission check, at the time `now`: a recent answer stands,
/// otherwise the system is to be asked and [`PreflightCache::record`] completes
/// the check. The caller holds the lock on the cache throughout.
pub fn is_granted(cache: &PreflightCache, now: u64) -> (check: GrantCheck)
    ensures
        check == cache.verdict(now as int),
{
    if let Some(p) = cache.last {
        let elapsed: u64 = if now < p.taken_at {
            0
        } else {
            now - p.taken_at
        };
        if elapsed < PREFLIGHT_MIN_INTERVAL {
            return GrantCheck::Known(p.granted);
        }
    }
    GrantCheck::AskSystem
}

/// Drop the cached answer so the next check is live. Used right after the
/// prompt closes, where the stale value is guaranteed to be wrong; that holds of
/// a poisoned cache as well, whose answer would otherwise be served.
pub fn invalidate_cache(cache: &mut PreflightCache)
    ensures
        *final(cache) == old(cache).invalidated(),
{
    cache.last = None;
}

/// How the system answered the request to raise the prompt.
#[derive(Debug)]
pub enum PromptReply {
    /// The prompt call returned; the flag tells whether it raised the prompt.
    Returned(bool),
    /// The prompt call never reported back.
    Lost,
    /// The main thread could not be reached, for the reason given.
    Unreachable(String),
}

/// What a [`PromptReply`] holds.
#[verifier::ext_equal]
pub enum PromptReplyView {
    Returned(bool),
    Lost,
    Unreachable(Seq<char>),
}

/// The result of a request for the permission, with the text of its error.
pub open spec fn outcome_view(outcome: Result<bool, String>) -> Result<bool, Seq<char>> {
    match outcome {
        Ok(granted) => Ok(granted),
        Err(message) => Err(message@),
    }
}

/// A prompt in progress: each step names what is to be done next.
#[derive(Debug)]
pub enum Prompt {
    /// Take the keyboard hook out of the system event path.
    SuspendTap,
    /// Raise the prompt on the main thread and wait for it.
    Raise,
    /// Check the permission, live.
    Recheck,
    /// Put the keyboard hook back.
    ResumeTap(Result<bool, String>),
    /// Nothing more to do.
    Finished(Result<bool, String>),
}

/// What a [`Prompt`] holds.
#[verifier::ext_equal]
pub enum PromptView {
    SuspendTap,
    Raise,
    Recheck,
    ResumeTap(Result<bool, Seq<char>>),
    Finished(Result<bool, Seq<char>>),
}

/// What became of a step of a prompt.
#[derive(Debug)]
pub enum PromptEvent {
    TapSuspended,
    Replied(PromptReply),
    Checked(bool),
    TapResumed,
}

/// What a [`PromptEvent`] holds.
#[verifier::ext_equal]
pub enum PromptEventView {
    TapSuspended,
    Replied(PromptReplyView),
    Checked(bool),
    TapResumed,
}

impl View for PromptReply {
    type V = PromptReplyView;

    open spec fn view(&self) -> PromptReplyView {
        match self {
            PromptReply::Returned(raised) => PromptReplyView::Returned(*raised),
            PromptReply::Lost => PromptReplyView::Lost,
            PromptReply::Unreachable(reason) => PromptReplyView::Unreachable(reason@),
        }
    }
}

impl View for Prompt {
    type V = PromptView;

    open spec fn view(&self) -> PromptView {
        match self {
            Prompt::SuspendTap => PromptView::SuspendTap,
            Prompt::Raise => PromptView::Raise,
            Prompt::Recheck => PromptView::Recheck,
            Prompt::ResumeTap(outcome) => PromptView::ResumeTap(outcome_view(*outcome)),
            Prompt::Finished(outcome) => PromptView::Finished(outcome_view(*outcome)),
        }
    }
}

impl View for PromptEvent {
    type V = PromptEventView;

    open spec fn view(&self) -> PromptEventView {
        match self {
            PromptEvent::TapSuspended => PromptEventView::TapSuspended,
            PromptEvent::Replied(reply) => PromptEventView::Replied(reply@),
            PromptEvent::Checked(granted) => PromptEventView::Checked(*granted),
            PromptEvent::TapResumed => PromptEventView::TapResumed,
        }
    }
}

/// What the user is told of a prompt that never reported back.
pub open spec fn lost_message() -> Seq<char> {
    "The Screen Recording prompt did not complete"@
}

/// What the user is told when the main thread could not be reached.
pub open spec fn unreachable_message(reason: Seq<char>) -> Seq<char> {
    "Could not reach the main thread to prompt: "@ + reason
}

/// The outcome of a prompt: the permission as it stands after a prompt that
/// returned, whether or not it was raised; an error otherwise.
pub open spec fn prompt_outcome(reply: PromptReplyView, granted: bool) -> Result<bool, Seq<char>> {
    match reply {
        PromptReplyView::Returned(_) => Ok(granted),
        PromptReplyView::Lost => Err(lost_message()),
        PromptReplyView::Unreachable(reason) => Err(unreachable_message(reason)),
    }
}

impl PromptView {
    /// The step after `event`. An event that does not belong to the step is
    /// ignored.
    pub open spec fn next(self, event: PromptEventView) -> PromptView {
        match (self, event) {
            (PromptView::SuspendTap, PromptEventView::TapSuspended) => PromptView::Raise,
            (PromptView::Raise, PromptEventView::Replied(reply)) => match reply {
                PromptReplyView::Returned(_) => PromptView::Recheck,
                PromptReplyView::Lost => PromptView::ResumeTap(Err(lost_message())),
                PromptReplyView::Unreachable(reason) => PromptView::ResumeTap(
                    Err(unreachable_message(reason)),
                ),
            },
            (PromptView::Recheck, PromptEventView::Checked(granted)) => PromptView::ResumeTap(
                Ok(granted),
            ),
            (PromptView::ResumeTap(outcome), PromptEventView::TapResumed) => PromptView::Finished(
                outcome,
            ),
            (_, _) => self,
        }
    }

    /// The event after which the cached permission is dropped: the prompt has
    /// closed.
    pub open spec fn closes(self, event: PromptEventView) -> bool {
        self is Raise && event matches PromptEventView::Replied(PromptReplyView::Returned(_))
    }

    /// The step after a run of events.
    pub open spec fn after(self, events: Seq<PromptEventView>) -> PromptView
        decreases events.len(),
    {
        if events.len() == 0 {
            self
        } else {
            self.after(events.drop_last()).next(events.last())
        }
    }

    /// How often the tap was suspended in a run of events.
    pub open spec fn suspensions(self, events: Seq<PromptEventView>) -> nat
        decreases events.len(),
    {
        if events.len() == 0 {
            0
        } else {
            let done = self.after(events.drop_last()) is SuspendTap
                && events.last() is TapSuspended;
            self.suspensions(events.drop_last()) + if done {
                1nat
            } else {
                0nat
            }
        }
    }

    /// How often the tap was put back in a run of events.
    pub open spec fn resumptions(self, events: Seq<PromptEventView>) -> nat
        decreases events.len(),
    {
        if events.len() == 0 {
            0
        } else {
            let done = self.after(events.drop_last()) is ResumeTap && events.last() is TapResumed;
            self.resumptions(events.drop_last()) + if done {
                1nat
            } else {
                0nat
            }
        }
    }
}

fn lost() -> (message: String)
    ensures
        message@ == lost_message(),
{
    "The Screen Recording prompt did not complete".to_string()
}

fn unreachable_because(reason: &str) -> (message: String)
    ensures
        message@ == unreachable_message(reason@),
{
    let mut message = "Could not reach the main thread to prompt: ".to_string();
    message.append(reason);
    message
}

/// Begin to raise the system prompt.
pub fn prompt() -> (step: Prompt)
    ensures
        step@ == PromptView::SuspendTap,
{
    Prompt::SuspendTap
}

impl Prompt {
    /// Go on after `event`. Once the prompt has closed the cached permission is
    /// dropped, so that the recheck is live.
    pub fn resume(self, event: PromptEvent, cache: &mut PreflightCache) -> (next: Prompt)
        ensures
            next@ == self@.next(event@),
            *final(cache) == if self@.closes(event@) {
                old(cache).invalidated()
            } else {
                *old(cache)
            },
    {
        match (self, event) {
            (Prompt::SuspendTap, PromptEvent::TapSuspended) => Prompt::Raise,
            (Prompt::Raise, PromptEvent::Replied(reply)) => match reply {
                // The flag only reports whether the prompt could be raised, so
                // the real answer comes from the recheck.
                PromptReply::Returned(_) => {
                    invalidate_cache(cache);
                    Prompt::Recheck
                },
                PromptReply::Lost => Prompt::ResumeTap(Err(lost())),
                PromptReply::Unreachable(reason) => Prompt::ResumeTap(
                    Err(unreachable_because(reason.as_str())),
                ),
            },
            (Prompt::Recheck, PromptEvent::Checked(granted)) => Prompt::ResumeTap(Ok(granted)),
            (Prompt::ResumeTap(outcome), PromptEvent::TapResumed) => Prompt::Finished(outcome),
            (step, _) => step,
        }
    }
}

/// A request for the permission in progress: each step names what is to be
/// done next.
#[derive(Debug)]
pub enum Request {
    /// Check the permission.
    CheckPermission,
    /// Set the mark that a prompt is in flight, and tell whether it was set.
    Claim,
    /// Raise the prompt.
    Prompt,
    /// Remove the mark.
    Release(Result<bool, String>),
    /// Nothing more to do.
    Finished(Result<bool, String>),
}

/// What a [`Request`] holds.
#[verifier::ext_equal]
pub enum RequestView {
    CheckPermission,
    Claim,
    Prompt,
    Release(Result<bool, Seq<char>>),
    Finished(Result<bool, Seq<char>>),
}

/// What became of a step of a request.
#[derive(Debug)]
pub enum RequestEvent {
    Checked(bool),
    /// The mark is set; the flag tells whether it had been set before.
    Claimed(bool),
    Prompted(Result<bool, String>),
    Released,
}

/// What a [`RequestEvent`] holds.
#[verifier::ext_equal]
pub enum RequestEventView {
    Checked(bool),
    Claimed(bool),
    Prompted(Result<bool, Seq<char>>),
    Released,
}

impl View for Request {
    type V = RequestView;

    open spec fn view(&self) -> RequestView {
        match self {
            Request::CheckPermission => RequestView::CheckPermission,
            Request::Claim => RequestView::Claim,
            Request::Prompt => RequestView::Prompt,
            Request::Release(outcome) => RequestView::Release(outcome_view(*outcome)),
            Request::Finished(outcome) => RequestView::Finished(outcome_view(*outcome)),
        }
    }
}

impl View for RequestEvent {
    type V = RequestEventView;

    open spec fn view(&self) -> RequestEventView {
        match self {
            RequestEvent::Checked(granted) => RequestEventView::Checked(*granted),
            RequestEvent::Claimed(taken) => RequestEventView::Claimed(*taken),
            RequestEvent::Prompted(outcome) => RequestEventView::Prompted(outcome_view(*outcome)),
            RequestEvent::Released => RequestEventView::Released,
        }
    }
}

impl RequestView {
    /// The step after `event`. An event that does not belong to the step is
    /// ignored.
    pub open spec fn next(self, event: RequestEventView) -> RequestView {
        match (self, event) {
            (RequestView::CheckPermission, RequestEventView::Checked(granted)) => if granted {
                RequestView::Finished(Ok(true))
            } else {
                RequestView::Claim
            },
            (RequestView::Claim, RequestEventView::Claimed(taken)) => if taken {
                RequestView::Finished(Ok(false))
            } else {
                RequestView::Prompt
            },
            (RequestView::Prompt, RequestEventView::Prompted(outcome)) => RequestView::Release(
                outcome,
            ),
            (RequestView::Release(outcome), RequestEventView::Released) => RequestView::Finished(
                outcome,
            ),
            (_, _) => self,
        }
    }

    /// The request has set the mark that a prompt is in flight, and has not
    /// removed it yet.
    pub open spec fn holds_the_mark(self) -> bool {
        self is Prompt || self is Release
    }
}

/// Begin to request the permission.
///
/// The request ends at once with `true` when the permission is already held,
/// and with `false` when a prompt is already in flight.
pub fn request_screen_capture_permission() -> (step: Request)
    ensures
        step@ == RequestView::CheckPermission,
{
    Request::CheckPermission
}

impl Request {
    /// Go on after `event`.
    pub fn resume(self, event: RequestEvent) -> (next: Request)
        ensures
            next@ == self@.next(event@),
    {
        match (self, event) {
            (Request::CheckPermission, RequestEvent::Checked(granted)) => if granted {
                Request::Finished(Ok(true))
            } else {
                Request::Claim
            },
            (Request::Claim, RequestEvent::Claimed(taken)) => if taken {
                Request::Finished(Ok(false))
            } else {
                Request::Prompt
            },
            (Request::Prompt, RequestEvent::Prompted(outcome)) => Request::Release(outcome),
            (Request::Release(outcome), RequestEvent::Released) => Request::Finished(outcome),
            (step, _) => step,
        }
    }
}

/// Within the interval a check repeats the last live answer, and from its end
/// on it asks again.
pub proof fn law_live_answer_stands_for_the_interval(
    cache: PreflightCache,
    at: u64,
    granted: bool,
    now: u64,
)
    ensures
        now - at < PREFLIGHT_MIN_INTERVAL ==> cache.recorded(at, granted).fresh_answer(now as int)
            == Some(granted),
        now - at >= PREFLIGHT_MIN_INTERVAL ==> cache.recorded(at, granted).fresh_answer(now as int)
            is None,
{
}

/// After the cache has been invalidated the next check asks the system, at
/// whatever time it comes.
pub proof fn law_invalidated_cache_asks(cache: PreflightCache, now: u64)
    ensures
        cache.invalidated().verdict(now as int) == GrantCheck::AskSystem,
{
}

/// A prompt that goes its way ends with the outcome of its reply.
pub proof fn law_prompt_outcome(reply: PromptReplyView, granted: bool)
    ensures
        ({
            let replied = PromptView::SuspendTap.next(PromptEventView::TapSuspended).next(
                PromptEventView::Replied(reply),
            );
            let settled = replied.next(PromptEventView::Checked(granted));
            settled.next(PromptEventView::TapResumed) == PromptView::Finished(
                prompt_outcome(reply, granted),
            )
        }),
{
}

/// Whatever happens, the event tap is out exactly while the prompt may be up
/// and until it is put back: a finished prompt has suspended it once and put
/// it back once, and the prompt is raised and the permission rechecked only
/// between the two.
pub proof fn law_event_tap_is_put_back(events: Seq<PromptEventView>)
    ensures
        ({
            let start = PromptView::SuspendTap;
            match start.after(events) {
                PromptView::SuspendTap => {
                    &&& start.suspensions(events) == 0
                    &&& start.resumptions(events) == 0
                },
                PromptView::Raise | PromptView::Recheck | PromptView::ResumeTap(_) => {
                    &&& start.suspensions(events) == 1
                    &&& start.resumptions(events) == 0
                },
                PromptView::Finished(_) => {
                    &&& start.suspensions(events) == 1
                    &&& start.resumptions(events) == 1
                },
            }
        }),
    decreases events.len(),
{
    if events.len() > 0 {
        law_event_tap_is_put_back(events.drop_last());
    }
}

/// The recheck after a prompt is live: the event that leads to it drops the
/// cached answer, so that the next check asks the system, whenever it comes.
pub proof fn law_recheck_is_live(
    step: PromptView,
    event: PromptEventView,
    cache: PreflightCache,
    now: u64,
)
    requires
        !(step is Recheck),
        step.next(event) is Recheck,
    ensures
        step.closes(event),
        cache.invalidated().verdict(now as int) == GrantCheck::AskSystem,
{
}

/// A request that finds the permission granted ends with `true` and touches
/// nothing else; one that finds a prompt in flight ends with `false`; any other
/// ends as its prompt does, with the mark removed.
pub proof fn law_request_outcome(
    granted: bool,
    in_flight: bool,
    outcome: Result<bool, Seq<char>>,
)
    ensures
        ({
            let checked = RequestView::CheckPermission.next(RequestEventView::Checked(granted));
            if granted {
                checked == RequestView::Finished(Ok(true))
            } else {
                let claimed = checked.next(RequestEventView::Claimed(in_flight));
                if in_flight {
                    claimed == RequestView::Finished(Ok(false))
                } else {
                    claimed.next(RequestEventView::Prompted(outcome)).next(
                        RequestEventView::Released,
                    ) == RequestView::Finished(outcome)
                }
            }
        }),
{
}

/// Requests that share one mark.
#[verifier::ext_equal]
pub struct Requests {
    /// A prompt is in flight.
    pub in_flight: bool,
    pub requests: Seq<RequestView>,
}

/// One thing that happens to requests that share a mark.
pub enum Turn {
    /// A new request begins.
    Begin,
    /// Something became of the step that a request is at.
    Resume(int, RequestEventView),
}

impl Requests {
    /// No request yet, and no prompt in flight.
    pub open spec fn start() -> Requests {
        Requests { in_flight: false, requests: seq![] }
    }

    /// The turn can happen. Claiming sets the mark and reports what it was.
    pub open spec fn enables(self, turn: Turn) -> bool {
        match turn {
            Turn::Begin => true,
            Turn::Resume(i, event) => {
                &&& 0 <= i < self.requests.len()
                &&& (self.requests[i] is Claim ==> (event matches RequestEventView::Claimed(taken)
                    ==> taken == self.in_flight))
            },
        }
    }

    /// The requests and their mark after a turn.
    pub open spec fn next(self, turn: Turn) -> Requests {
        match turn {
            Turn::Begin => Requests {
                in_flight: self.in_flight,
                requests: self.requests.push(RequestView::CheckPermission),
            },
            Turn::Resume(i, event) => {
                let request = self.requests[i];
                Requests {
                    in_flight: if request is Claim && event is Claimed {
                        true
                    } else if request is Release && event is Released {
                        false
                    } else {
                        self.in_flight
                    },
                    requests: self.requests.update(i, request.next(event)),
                }
            },
        }
    }

    /// The requests and their mark after a run of turns.
    pub open spec fn after(self, turns: Seq<Turn>) -> Requests
        decreases turns.len(),
    {
        if turns.len() == 0 {
            self
        } else {
            self.after(turns.drop_last()).next(turns.last())
        }
    }

    /// The mark is set while a request holds it, and no two hold it.
    pub open spec fn at_most_one_prompt(self) -> bool {
        &&& forall|i: int, j: int|
            0 <= i < self.requests.len() && 0 <= j < self.requests.len() && (
            #[trigger] self.requests[i]).holds_the_mark() && (
            #[trigger] self.requests[j]).holds_the_mark() ==> i == j
        &&& self.in_flight <==> exists|i: int|
            0 <= i < self.requests.len() && (#[trigger] self.requests[i]).holds_the_mark()
    }
}

/// Every turn of the run can happen when it is reached.
pub open spec fn possible(turns: Seq<Turn>) -> bool {
    forall|k: int|
        0 <= k < turns.len() ==> Requests::start().after(#[trigger] turns.take(k)).enables(turns[k])
}

proof fn lemma_turn_keeps_one_prompt(state: Requests, turn: Turn)
    requires
        state.at_most_one_prompt(),
        state.enables(turn),
    ensures
        state.next(turn).at_most_one_prompt(),
{
    let after = state.next(turn);
    match turn {
        Turn::Begin => {
            if state.in_flight {
                let i = choose|i: int|
                    0 <= i < state.requests.len() && (
                    #[trigger] state.requests[i]).holds_the_mark();
                assert(after.requests[i].holds_the_mark());
            }
            assert forall|i: int|
                0 <= i < after.requests.len() && (
                #[trigger] after.requests[i]).holds_the_mark() implies i < state.requests.len()
                && state.requests[i].holds_the_mark() by {}
        },
        Turn::Resume(n, event) => {
            let old = state.requests[n];
            let new = after.requests[n];
            assert(forall|i: int|
                0 <= i < state.requests.len() && i != n ==> after.requests[i]
                    == state.requests[i]);
            if old.holds_the_mark() && !new.holds_the_mark() {
                assert(old is Release && event is Released);
                assert(!after.in_flight);
            } else if new.holds_the_mark() && !old.holds_the_mark() {
                assert(old is Claim && event is Claimed);
                assert(!state.in_flight);
            } else {
                assert(state.in_flight == after.in_flight || old is Claim);
                if old is Claim && event is Claimed {
                    assert(state.in_flight);
                }
                if state.in_flight {
                    let i = choose|i: int|
                        0 <= i < state.requests.len() && (
                        #[trigger] state.requests[i]).holds_the_mark();
                    assert(after.requests[i].holds_the_mark());
                }
            }
        },
    }
}

/// A second click cannot raise a second prompt: however requests interleave, no
/// two of them are at their prompt at once, and the mark is set exactly while
/// one of them holds it.
pub proof fn law_one_prompt_at_a_time(turns: Seq<Turn>)
    requires
        possible(turns),
    ensures
        Requests::start().after(turns).at_most_one_prompt(),
    decreases turns.len(),
{
    if turns.len() > 0 {
        let shorter = turns.drop_last();
        assert forall|k: int| 0 <= k < shorter.len() implies Requests::start().after(
            #[trigger] shorter.take(k),
        ).enables(shorter[k]) by {
            assert(shorter.take(k) == turns.take(k));
        }
        law_one_prompt_at_a_time(shorter);
        assert(turns.take(turns.len() - 1) == shorter);
        lemma_turn_keeps_one_prompt(Requests::start().after(shorter), turns.last());
    }
}

} // verus!
