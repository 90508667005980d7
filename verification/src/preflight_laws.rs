//! What holds of permission checks that any number of threads make at once.
//!
//! The threads share one cache behind one lock. A check waits for the lock,
//! looks at the cache, and is done at once where the cache knows the answer.
//! Otherwise it keeps the lock, asks the system, records the answer and only
//! then lets go. Invalidating the cache takes the lock, too.
use vstd::prelude::*;
use crate::screen_permission::{GrantCheck, PreflightCache, PREFLIGHT_MIN_INTERVAL};

verus! {

/// A live call that has been answered: no earlier than `began` it was made, and
/// by `answered` it was over.
pub struct LiveCall {
    pub began: u64,
    pub answered: u64,
    pub granted: bool,
}

/// How far a check has come.
pub enum CheckStage {
    /// It waits for the lock.
    Waiting,
    /// It holds the lock and is at its live call, having looked at the cache at
    /// the time given.
    Asking(u64),
    /// It is done, with the answer given; so many live calls had been answered
    /// by then, its own included.
    Done(bool, nat),
}

/// One thing that happens to checks that share a cache.
pub enum CheckTurn {
    /// A new check begins.
    Begin,
    /// A check gets the lock and looks at the cache, at the time given.
    Look(int, u64),
    /// The system answers a check, at the time given, and the check lets go of
    /// the lock.
    Reply(int, u64, bool),
    /// The cached answer is dropped.
    Invalidate,
}

/// Checks that share one cache.
#[verifier::ext_equal]
pub struct Checks {
    pub cache: PreflightCache,
    /// Some check holds the lock.
    pub locked: bool,
    /// When the last turn was.
    pub clock: u64,
    pub checks: Seq<CheckStage>,
    /// The live calls that have been answered, in that order.
    pub live: Seq<LiveCall>,
}

impl Checks {
    /// No check yet. The cache may hold any answer, and be poisoned or not.
    pub open spec fn start(cache: PreflightCache) -> Checks {
        Checks { cache, locked: false, clock: 0, checks: seq![], live: seq![] }
    }

    /// The turn can happen: whoever needs the lock finds it free, and time does
    /// not run backwards.
    pub open spec fn enables(self, turn: CheckTurn) -> bool {
        match turn {
            CheckTurn::Begin => true,
            CheckTurn::Look(i, now) => {
                &&& 0 <= i < self.checks.len()
                &&& self.checks[i] is Waiting
                &&& !self.locked
                &&& self.clock <= now
            },
            CheckTurn::Reply(i, at, _) => {
                &&& 0 <= i < self.checks.len()
                &&& self.checks[i] is Asking
                &&& self.clock <= at
            },
            CheckTurn::Invalidate => !self.locked,
        }
    }

    /// The checks and their cache after a turn.
    pub open spec fn next(self, turn: CheckTurn) -> Checks {
        match turn {
            CheckTurn::Begin => Checks { checks: self.checks.push(CheckStage::Waiting), ..self },
            CheckTurn::Look(i, now) => match self.cache.verdict(now as int) {
                GrantCheck::Known(granted) => Checks {
                    clock: now,
                    checks: self.checks.update(i, CheckStage::Done(granted, self.live.len())),
                    ..self
                },
                GrantCheck::AskSystem => Checks {
                    locked: true,
                    clock: now,
                    checks: self.checks.update(i, CheckStage::Asking(now)),
                    ..self
                },
            },
            CheckTurn::Reply(i, at, granted) => Checks {
                cache: self.cache.recorded(at, granted),
                locked: false,
                clock: at,
                checks: self.checks.update(i, CheckStage::Done(granted, self.live.len() + 1)),
                live: self.live.push(
                    LiveCall { began: self.checks[i]->Asking_0, answered: at, granted },
                ),
            },
            CheckTurn::Invalidate => Checks { cache: self.cache.invalidated(), ..self },
        }
    }

    /// The checks and their cache after a run of turns.
    pub open spec fn after(self, turns: Seq<CheckTurn>) -> Checks
        decreases turns.len(),
    {
        if turns.len() == 0 {
            self
        } else {
            self.after(turns.drop_last()).next(turns.last())
        }
    }

    /// No two checks are at their live call, and the lock is held exactly while
    /// one is.
    pub open spec fn at_most_one_live_call(self) -> bool {
        &&& forall|i: int, j: int|
            0 <= i < self.checks.len() && 0 <= j < self.checks.len() && (#[trigger] self.checks[i])
                is Asking && (#[trigger] self.checks[j]) is Asking ==> i == j
        &&& self.locked <==> exists|i: int|
            0 <= i < self.checks.len() && (#[trigger] self.checks[i]) is Asking
    }

    /// Live calls keep the distance `gap`, from the call `first` on: each begins
    /// that long after every earlier one was answered, the one that is under
    /// way included.
    pub open spec fn live_calls_are_apart(self, first: nat, gap: int) -> bool {
        &&& forall|i: int|
            first <= i < self.live.len() ==> (#[trigger] self.live[i]).began
                <= self.live[i].answered
        &&& forall|i: int, j: int|
            first <= i < j < self.live.len() ==> (#[trigger] self.live[j]).began - (
            #[trigger] self.live[i]).answered >= gap
        &&& forall|i: int, k: int|
            first <= i < self.live.len() && 0 <= k < self.checks.len() && (
            #[trigger] self.checks[k]) is Asking ==> self.checks[k]->Asking_0 - (
            #[trigger] self.live[i]).answered >= gap
    }

    /// Every check that is done has the answer of the latest live call by then,
    /// or, before any, the answer that `cache` started with.
    pub open spec fn answers_are_the_latest(self, cache: PreflightCache) -> bool {
        forall|k: int|
            #![trigger self.checks[k]]
            0 <= k < self.checks.len() ==> (self.checks[k] matches CheckStage::Done(granted, n) ==> {
                &&& n <= self.live.len()
                &&& n > 0 ==> granted == self.live[n - 1].granted
                &&& n == 0 ==> (cache.last matches Some(p) && granted == p.granted)
            })
    }

    /// Nothing that has happened lies in the future.
    spec fn timely(self) -> bool {
        &&& forall|i: int|
            0 <= i < self.live.len() ==> (#[trigger] self.live[i]).answered <= self.clock
        &&& forall|k: int|
            0 <= k < self.checks.len() && (#[trigger] self.checks[k]) is Asking
                ==> self.checks[k]->Asking_0 <= self.clock
    }

    /// Whatever answer the cache holds is that of the latest live call, or
    /// still the one that `cache` started with.
    spec fn cache_is_the_latest(self, cache: PreflightCache) -> bool {
        self.cache.last matches Some(p) ==> if self.live.len() == 0 {
            cache.last == Some(p)
        } else {
            p.taken_at == self.live.last().answered && p.granted == self.live.last().granted
        }
    }
}

/// Every turn of the run can happen when it is reached.
pub open spec fn possible(cache: PreflightCache, turns: Seq<CheckTurn>) -> bool {
    forall|k: int|
        0 <= k < turns.len() ==> Checks::start(cache).after(#[trigger] turns.take(k)).enables(
            turns[k],
        )
}

proof fn lemma_possible_prefix(cache: PreflightCache, turns: Seq<CheckTurn>)
    requires
        possible(cache, turns),
        turns.len() > 0,
    ensures
        possible(cache, turns.drop_last()),
        Checks::start(cache).after(turns.drop_last()).enables(turns.last()),
{
    let shorter = turns.drop_last();
    assert forall|k: int| 0 <= k < shorter.len() implies Checks::start(cache).after(
        #[trigger] shorter.take(k),
    ).enables(shorter[k]) by {
        assert(shorter.take(k) == turns.take(k));
    }
    assert(turns.take(turns.len() - 1) == shorter);
}

proof fn lemma_turn_keeps_one_live_call(state: Checks, turn: CheckTurn)
    requires
        state.at_most_one_live_call(),
        state.enables(turn),
    ensures
        state.next(turn).at_most_one_live_call(),
{
    let after = state.next(turn);
    match turn {
        CheckTurn::Begin => {
            if state.locked {
                let i = choose|i: int|
                    0 <= i < state.checks.len() && (#[trigger] state.checks[i]) is Asking;
                assert(after.checks[i] is Asking);
            }
        },
        CheckTurn::Look(n, now) => {
            if state.cache.verdict(now as int) == GrantCheck::AskSystem {
                assert(after.checks[n] is Asking);
            }
        },
        CheckTurn::Reply(n, _, _) => {
            assert(state.checks[n] is Asking);
        },
        CheckTurn::Invalidate => {},
    }
}

proof fn lemma_turn_keeps_time(state: Checks, turn: CheckTurn)
    requires
        state.at_most_one_live_call(),
        state.timely(),
        state.live_calls_are_apart(0, 0),
        state.enables(turn),
    ensures
        state.next(turn).timely(),
        state.next(turn).live_calls_are_apart(0, 0),
{
    if let CheckTurn::Reply(n, _, _) = turn {
        assert(state.checks[n] is Asking);
    }
}

/// Checks are single-flight: however checks and invalidations from any number
/// of threads interleave, no two checks are at their live call at once, and no
/// live call begins before every earlier one has been answered.
pub proof fn law_checks_are_single_flight(cache: PreflightCache, turns: Seq<CheckTurn>)
    requires
        possible(cache, turns),
    ensures
        Checks::start(cache).after(turns).at_most_one_live_call(),
        Checks::start(cache).after(turns).live_calls_are_apart(0, 0),
{
    lemma_single_flight(cache, turns);
}

proof fn lemma_single_flight(cache: PreflightCache, turns: Seq<CheckTurn>)
    requires
        possible(cache, turns),
    ensures
        Checks::start(cache).after(turns).at_most_one_live_call(),
        Checks::start(cache).after(turns).live_calls_are_apart(0, 0),
        Checks::start(cache).after(turns).timely(),
    decreases turns.len(),
{
    if turns.len() > 0 {
        lemma_possible_prefix(cache, turns);
        lemma_single_flight(cache, turns.drop_last());
        let state = Checks::start(cache).after(turns.drop_last());
        lemma_turn_keeps_one_live_call(state, turns.last());
        lemma_turn_keeps_time(state, turns.last());
    }
}

proof fn lemma_turn_keeps_the_answers(cache: PreflightCache, state: Checks, turn: CheckTurn)
    requires
        state.cache_is_the_latest(cache),
        state.answers_are_the_latest(cache),
        state.enables(turn),
    ensures
        state.next(turn).cache_is_the_latest(cache),
        state.next(turn).answers_are_the_latest(cache),
{
}

proof fn lemma_answers(cache: PreflightCache, turns: Seq<CheckTurn>)
    requires
        possible(cache, turns),
    ensures
        Checks::start(cache).after(turns).cache_is_the_latest(cache),
        Checks::start(cache).after(turns).answers_are_the_latest(cache),
    decreases turns.len(),
{
    if turns.len() > 0 {
        lemma_possible_prefix(cache, turns);
        lemma_answers(cache, turns.drop_last());
        lemma_turn_keeps_the_answers(
            cache,
            Checks::start(cache).after(turns.drop_last()),
            turns.last(),
        );
    }
}

/// Every check gets the answer of the latest live call: however checks and
/// invalidations from any number of threads interleave, a check that is done
/// has the answer of the last live call that was answered by then, or, before
/// any, the one that the cache held from the start.
pub proof fn law_answers_are_the_latest(cache: PreflightCache, turns: Seq<CheckTurn>)
    requires
        possible(cache, turns),
    ensures
        Checks::start(cache).after(turns).answers_are_the_latest(cache),
{
    lemma_answers(cache, turns);
}

proof fn lemma_turn_keeps_the_distance(first: nat, state: Checks, turn: CheckTurn)
    requires
        state.at_most_one_live_call(),
        state.timely(),
        state.live_calls_are_apart(first, PREFLIGHT_MIN_INTERVAL as int),
        first < state.live.len() ==> (state.cache.last matches Some(p) && p.taken_at
            == state.live.last().answered),
        first <= state.live.len(),
        state.enables(turn),
        !(turn is Invalidate),
    ensures
        ({
            let after = state.next(turn);
            &&& after.live_calls_are_apart(first, PREFLIGHT_MIN_INTERVAL as int)
            &&& first < after.live.len() ==> (after.cache.last matches Some(p) && p.taken_at
                == after.live.last().answered)
            &&& first <= after.live.len()
        }),
{
    match turn {
        CheckTurn::Look(_, now) => {
            if state.cache.verdict(now as int) == GrantCheck::AskSystem && first
                < state.live.len() {
                // The latest call is long enough ago, and the others are older.
                let last = state.live.len() - 1;
                assert(now - state.live[last].answered >= PREFLIGHT_MIN_INTERVAL);
                assert forall|i: int| first <= i < state.live.len() implies now - (
                #[trigger] state.live[i]).answered >= PREFLIGHT_MIN_INTERVAL by {
                    if i < last {
                        assert(state.live[last].began <= state.live[last].answered);
                        assert(state.live[last].began - state.live[i].answered >= 0);
                    }
                }
            }
        },
        CheckTurn::Reply(n, _, _) => {
            assert(state.checks[n] is Asking);
        },
        _ => {},
    }
}

/// Live calls are rate-limited: in any run, however checks from any number of
/// threads interleave, among the live calls answered behind the last
/// invalidation (from the turn `from` on) each begins at least
/// [`PREFLIGHT_MIN_INTERVAL`] after every earlier one was answered, the one
/// that is under way included. With `from` zero it is a run without
/// invalidation; of the beginning of a run that is invalidated later, it says
/// the same of every stretch between two invalidations. That the lock is
/// poisoned makes no difference.
pub proof fn law_live_calls_are_rate_limited(
    cache: PreflightCache,
    turns: Seq<CheckTurn>,
    from: int,
)
    requires
        possible(cache, turns),
        0 <= from <= turns.len(),
        !turns.skip(from).contains(CheckTurn::Invalidate),
    ensures
        Checks::start(cache).after(turns).live_calls_are_apart(
            Checks::start(cache).after(turns.take(from)).live.len(),
            PREFLIGHT_MIN_INTERVAL as int,
        ),
{
    lemma_rate_limit(cache, turns, from);
}

proof fn lemma_rate_limit(cache: PreflightCache, turns: Seq<CheckTurn>, from: int)
    requires
        possible(cache, turns),
        0 <= from <= turns.len(),
        !turns.skip(from).contains(CheckTurn::Invalidate),
    ensures
        ({
            let first = Checks::start(cache).after(turns.take(from)).live.len();
            let state = Checks::start(cache).after(turns);
            &&& state.live_calls_are_apart(first, PREFLIGHT_MIN_INTERVAL as int)
            &&& first < state.live.len() ==> (state.cache.last matches Some(p) && p.taken_at
                == state.live.last().answered)
            &&& first <= state.live.len()
        }),
    decreases turns.len(),
{
    if from == turns.len() {
        assert(turns.take(from) == turns);
    } else {
        let shorter = turns.drop_last();
        assert(shorter.take(from) == turns.take(from));
        assert forall|k: int| 0 <= k < shorter.skip(from).len() implies shorter.skip(from)[k]
            != CheckTurn::Invalidate by {
            assert(turns.skip(from)[k] == shorter.skip(from)[k]);
        }
        assert(turns.last() == turns.skip(from)[turns.len() - 1 - from]);
        lemma_possible_prefix(cache, turns);
        lemma_rate_limit(cache, shorter, from);
        lemma_single_flight(cache, shorter);
        lemma_turn_keeps_the_distance(
            Checks::start(cache).after(turns.take(from)).live.len(),
            Checks::start(cache).after(shorter),
            turns.last(),
        );
    }
}

/// An invalidated answer is never served again: a check that is not done when
/// the cache is invalidated, or begins later, ends with the answer of a live
/// call that was answered after the invalidation.
pub proof fn law_invalidated_answer_is_not_served(
    cache: PreflightCache,
    turns: Seq<CheckTurn>,
    at: int,
)
    requires
        possible(cache, turns),
        0 <= at < turns.len(),
        turns[at] is Invalidate,
    ensures
        ({
            let before = Checks::start(cache).after(turns.take(at));
            let after = Checks::start(cache).after(turns);
            &&& before.checks.len() <= after.checks.len()
            &&& forall|k: int|
                #![trigger after.checks[k]]
                0 <= k < after.checks.len() && !(k < before.checks.len() && before.checks[k]
                    is Done) ==> (after.checks[k] matches CheckStage::Done(granted, n) ==> {
                    &&& before.live.len() < n <= after.live.len()
                    &&& granted == after.live[n - 1].granted
                })
        }),
{
    lemma_served_after_invalidation(cache, turns, at);
    lemma_answers(cache, turns);
}

proof fn lemma_served_after_invalidation(cache: PreflightCache, turns: Seq<CheckTurn>, at: int)
    requires
        possible(cache, turns),
        0 <= at < turns.len(),
        turns[at] is Invalidate,
    ensures
        ({
            let before = Checks::start(cache).after(turns.take(at));
            let after = Checks::start(cache).after(turns);
            &&& before.checks.len() <= after.checks.len()
            &&& before.live.len() <= after.live.len()
            &&& after.cache.last is Some ==> before.live.len() < after.live.len()
            &&& forall|k: int|
                #![trigger after.checks[k]]
                0 <= k < after.checks.len() && !(k < before.checks.len() && before.checks[k]
                    is Done) ==> (after.checks[k] matches CheckStage::Done(_, n)
                    ==> before.live.len() < n)
        }),
    decreases turns.len(),
{
    let shorter = turns.drop_last();
    lemma_possible_prefix(cache, turns);
    assert(shorter.take(at) == turns.take(at));
    if at == turns.len() - 1 {
        assert(turns.take(at) == shorter);
    } else {
        assert(shorter[at] == turns[at]);
        lemma_served_after_invalidation(cache, shorter, at);
    }
}

} // verus!
