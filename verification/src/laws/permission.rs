//! The permission check, the prompt and the request.
use vstd::prelude::*;
use crate::screen_permission::{
    invalidate_cache,
    is_granted,
    prompt,
    request_screen_capture_permission,
    GrantCheck,
    PreflightCache,
    Prompt,
    PromptEvent,
    PromptReply,
    Request,
    RequestEvent,
};

verus! {

/// A check is answered from the cache exactly within three quarters of a second,
/// in nanoseconds, of the live answer in it, and with that answer. At any later
/// time, and without a live answer, the system is asked.
pub proof fn law_check_is_answered_within_the_interval(
    cache: PreflightCache,
    now: u64,
    check: GrantCheck,
)
    requires
        call_ensures(is_granted, (&cache, now), check),
    ensures
        cache.last is None ==> check == GrantCheck::AskSystem,
        cache.last matches Some(p) ==> {
            &&& now < p.taken_at + 750_000_000 ==> check == GrantCheck::Known(p.granted)
            &&& now >= p.taken_at + 750_000_000 ==> check == GrantCheck::AskSystem
        },
{
}

/// A live answer is handed on as it is and kept with its time, in place of the
/// one before. A cache starts without one, and an invalidated one is without.
pub proof fn law_cache_keeps_the_live_answer()
    ensures
        forall|cache: &mut PreflightCache, at: u64, granted: bool, answer: bool| #[trigger]
            call_ensures(PreflightCache::record, (cache, at, granted), answer) ==> {
                &&& answer == granted
                &&& final(cache).last is Some
                &&& final(cache).last->0.taken_at == at
                &&& final(cache).last->0.granted == granted
                &&& final(cache).poisoned == cache.poisoned
            },
        forall|cache: &mut PreflightCache, done: ()| #[trigger]
            call_ensures(invalidate_cache, (cache,), done) ==> final(cache).last is None
                && final(cache).poisoned == cache.poisoned,
        forall|cache: PreflightCache| #[trigger]
            call_ensures(PreflightCache::new, (), cache) ==> cache.last is None
                && !cache.poisoned,
{
}

/// Both outcomes are the same answer, or errors with the same text.
pub open spec fn same_outcome(a: Result<bool, String>, b: Result<bool, String>) -> bool {
    match (a, b) {
        (Ok(x), Ok(y)) => x == y,
        (Err(x), Err(y)) => x@ == y@,
        (_, _) => false,
    }
}

/// A prompt first takes the event tap out, then is raised. It begins with the
/// tap, and no other event leads on.
pub proof fn law_prompt_is_raised_without_the_tap(begun: Prompt)
    requires
        call_ensures(prompt, (), begun),
    ensures
        begun is SuspendTap,
        forall|event: PromptEvent, cache: &mut PreflightCache, next: Prompt| #[trigger]
            call_ensures(Prompt::resume, (begun, event, cache), next) ==> {
                &&& *final(cache) == *cache
                &&& event is TapSuspended ==> next is Raise
                &&& !(event is TapSuspended) ==> next is SuspendTap
            },
{
    assert(begun@ == crate::screen_permission::PromptView::SuspendTap);
}

/// A prompt that returned, whether or not it was raised, is followed by a check
/// of a cache without an answer. One that failed goes on to put the tap back,
/// with the reason, and leaves the cache alone.
pub proof fn law_prompt_reply_decides()
    ensures
        forall|event: PromptEvent, cache: &mut PreflightCache, next: Prompt| #[trigger]
            call_ensures(Prompt::resume, (Prompt::Raise, event, cache), next) ==> {
                &&& final(cache).poisoned == cache.poisoned
                &&& match event {
                    PromptEvent::Replied(PromptReply::Returned(_)) => {
                        &&& next is Recheck
                        &&& final(cache).last is None
                    },
                    PromptEvent::Replied(PromptReply::Lost) => {
                        &&& *final(cache) == *cache
                        &&& next is ResumeTap
                        &&& next->ResumeTap_0 is Err
                        &&& next->ResumeTap_0->Err_0@
                            == "The Screen Recording prompt did not complete"@
                    },
                    PromptEvent::Replied(PromptReply::Unreachable(reason)) => {
                        &&& *final(cache) == *cache
                        &&& next is ResumeTap
                        &&& next->ResumeTap_0 is Err
                        &&& next->ResumeTap_0->Err_0@
                            == "Could not reach the main thread to prompt: "@ + reason@
                    },
                    _ => *final(cache) == *cache && next is Raise,
                }
            },
{
}

/// The answer of the recheck is the prompt's outcome, and the tap is put back
/// before the prompt is over.
pub proof fn law_recheck_is_the_outcome()
    ensures
        forall|event: PromptEvent, cache: &mut PreflightCache, next: Prompt| #[trigger]
            call_ensures(Prompt::resume, (Prompt::Recheck, event, cache), next) ==> {
                &&& *final(cache) == *cache
                &&& match event {
                    PromptEvent::Checked(granted) => next is ResumeTap && next->ResumeTap_0
                        == Ok::<bool, String>(granted),
                    _ => next is Recheck,
                }
            },
        forall|
            outcome: Result<bool, String>,
            event: PromptEvent,
            cache: &mut PreflightCache,
            next: Prompt,
        | #[trigger]
            call_ensures(Prompt::resume, (Prompt::ResumeTap(outcome), event, cache), next) ==> {
                &&& *final(cache) == *cache
                &&& event is TapResumed ==> next is Finished && same_outcome(
                    next->Finished_0,
                    outcome,
                )
                &&& !(event is TapResumed) ==> next is ResumeTap && same_outcome(
                    next->ResumeTap_0,
                    outcome,
                )
            },
        forall|
            outcome: Result<bool, String>,
            event: PromptEvent,
            cache: &mut PreflightCache,
            next: Prompt,
        | #[trigger]
            call_ensures(Prompt::resume, (Prompt::Finished(outcome), event, cache), next) ==> {
                &&& *final(cache) == *cache
                &&& next is Finished
                &&& same_outcome(next->Finished_0, outcome)
            },
{
}

/// A request ends with `true` where the permission is held, and with `false`
/// where a prompt is in flight. Otherwise it prompts, and ends as the prompt
/// does once the mark is removed.
pub proof fn law_request_ends_as_it_should(
    begun: Request,
    held: Request,
    missing: Request,
    taken: Request,
    free: Request,
    outcome: Result<bool, String>,
    prompted: Request,
    released: Request,
)
    requires
        call_ensures(request_screen_capture_permission, (), begun),
        call_ensures(Request::resume, (begun, RequestEvent::Checked(true)), held),
        call_ensures(Request::resume, (begun, RequestEvent::Checked(false)), missing),
        call_ensures(Request::resume, (missing, RequestEvent::Claimed(true)), taken),
        call_ensures(Request::resume, (missing, RequestEvent::Claimed(false)), free),
        call_ensures(Request::resume, (free, RequestEvent::Prompted(outcome)), prompted),
        call_ensures(Request::resume, (prompted, RequestEvent::Released), released),
    ensures
        begun is CheckPermission,
        held is Finished && held->Finished_0 == Ok::<bool, String>(true),
        missing is Claim,
        taken is Finished && taken->Finished_0 == Ok::<bool, String>(false),
        free is Prompt,
        prompted is Release && same_outcome(prompted->Release_0, outcome),
        released is Finished && same_outcome(released->Finished_0, outcome),
{
    assert(begun@ == crate::screen_permission::RequestView::CheckPermission);
    assert(missing@ == crate::screen_permission::RequestView::Claim);
    assert(free@ == crate::screen_permission::RequestView::Prompt);
}

/// An event that is no answer to the step changes nothing, and nothing changes a
/// request that is over.
pub proof fn law_request_ignores_other_events(step: Request, event: RequestEvent, next: Request)
    requires
        call_ensures(Request::resume, (step, event), next),
        match step {
            Request::CheckPermission => !(event is Checked),
            Request::Claim => !(event is Claimed),
            Request::Prompt => !(event is Prompted),
            Request::Release(_) => !(event is Released),
            Request::Finished(_) => true,
        },
    ensures
        match step {
            Request::CheckPermission => next is CheckPermission,
            Request::Claim => next is Claim,
            Request::Prompt => next is Prompt,
            Request::Release(outcome) => next is Release && same_outcome(next->Release_0, outcome),
            Request::Finished(outcome) => next is Finished && same_outcome(
                next->Finished_0,
                outcome,
            ),
        },
{
    assert(next@ == step@);
}

} // verus!
