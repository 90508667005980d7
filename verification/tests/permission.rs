use caret_context::screen_permission::{
    invalidate_cache, is_granted, prompt, request_screen_capture_permission, GrantCheck,
    Preflight, PreflightCache, Prompt, PromptEvent, PromptReply, Request, RequestEvent,
    PREFLIGHT_MIN_INTERVAL,
};
use caret_context::unsupported;
use std::sync::Mutex;

#[test]
fn checks_within_the_interval_are_answered_from_the_cache() {
    let mut cache = PreflightCache::new();
    assert_eq!(is_granted(&cache, 0), GrantCheck::AskSystem);
    assert!(cache.record(1_000, true));
    assert_eq!(is_granted(&cache, 1_000), GrantCheck::Known(true));
    assert_eq!(is_granted(&cache, 750_000_999), GrantCheck::Known(true));
    assert_eq!(is_granted(&cache, 750_001_000), GrantCheck::AskSystem);
    // A clock that seems to run backwards counts as no time at all.
    assert_eq!(is_granted(&cache, 0), GrantCheck::Known(true));
    assert!(!cache.record(750_001_000, false));
    assert_eq!(is_granted(&cache, 750_001_001), GrantCheck::Known(false));
}

#[test]
fn live_calls_keep_their_distance() {
    let mut cache = PreflightCache::new();
    let mut live: Vec<u64> = Vec::new();
    let mut now = 0u64;
    for _ in 0..200 {
        if is_granted(&cache, now) == GrantCheck::AskSystem {
            live.push(now);
            cache.record(now, false);
        }
        now += 100_000_000;
    }
    assert!(live.windows(2).all(|w| w[1] - w[0] >= PREFLIGHT_MIN_INTERVAL));
    assert_eq!(live.len(), 25);
}

#[test]
fn a_check_that_waits_for_a_live_call_gets_its_answer() {
    let shared = Mutex::new(PreflightCache::new());
    {
        let mut first = shared.lock().unwrap();
        assert_eq!(is_granted(&first, 100), GrantCheck::AskSystem);
        // While the live call is under way nobody else gets at the cache.
        assert!(shared.try_lock().is_err());
        assert!(first.record(2_000, true));
    }
    let second = shared.lock().unwrap();
    assert_eq!(is_granted(&second, 2_001), GrantCheck::Known(true));
    assert_eq!(is_granted(&second, 750_001_999), GrantCheck::Known(true));
    assert_eq!(is_granted(&second, 750_002_000), GrantCheck::AskSystem);
}

#[test]
fn an_invalidated_cache_asks_again() {
    let mut cache = PreflightCache::new();
    cache.record(10, false);
    invalidate_cache(&mut cache);
    assert_eq!(is_granted(&cache, 11), GrantCheck::AskSystem);
}

#[test]
fn live_calls_keep_their_distance_after_an_invalidation() {
    let mut cache = PreflightCache::new();
    cache.record(0, false);
    invalidate_cache(&mut cache);
    // The stale answer is gone at once, and the interval starts anew.
    let mut live: Vec<u64> = Vec::new();
    let mut now = 100_000_000u64;
    for _ in 0..50 {
        match is_granted(&cache, now) {
            GrantCheck::AskSystem => {
                live.push(now);
                assert!(cache.record(now, true));
            }
            known => assert_eq!(known, GrantCheck::Known(true)),
        }
        now += 100_000_000;
    }
    assert_eq!(live[0], 100_000_000);
    assert!(live.windows(2).all(|w| w[1] - w[0] >= PREFLIGHT_MIN_INTERVAL));
}

#[test]
fn a_poisoned_cache_still_limits_the_rate() {
    let mut cache = PreflightCache {
        last: Some(Preflight {
            taken_at: 10,
            granted: true,
        }),
        poisoned: true,
    };
    assert_eq!(is_granted(&cache, 11), GrantCheck::Known(true));
    assert!(!cache.record(20, false));
    assert_eq!(is_granted(&cache, 21), GrantCheck::Known(false));
}

#[test]
fn a_poisoned_cache_drops_its_answer() {
    let mut cache = PreflightCache {
        last: Some(Preflight {
            taken_at: 10,
            granted: false,
        }),
        poisoned: true,
    };
    invalidate_cache(&mut cache);
    assert_eq!(is_granted(&cache, 11), GrantCheck::AskSystem);
    assert!(cache.poisoned);

    cache.record(10, false);
    let step = raised(PromptReply::Returned(true), &mut cache);
    assert!(matches!(step, Prompt::Recheck));
    assert_eq!(is_granted(&cache, 11), GrantCheck::AskSystem);
}

fn raised(reply: PromptReply, cache: &mut PreflightCache) -> Prompt {
    let step = prompt();
    assert!(matches!(step, Prompt::SuspendTap));
    let step = step.resume(PromptEvent::TapSuspended, cache);
    assert!(matches!(step, Prompt::Raise));
    step.resume(PromptEvent::Replied(reply), cache)
}

#[test]
fn a_prompt_that_returns_is_followed_by_a_live_check() {
    for flag in [false, true] {
        for granted in [false, true] {
            let mut cache = PreflightCache::new();
            cache.record(5, !granted);
            let step = raised(PromptReply::Returned(flag), &mut cache);
            assert!(matches!(step, Prompt::Recheck));
            assert_eq!(is_granted(&cache, 6), GrantCheck::AskSystem);
            let step = step.resume(PromptEvent::Checked(granted), &mut cache);
            assert!(matches!(step, Prompt::ResumeTap(Ok(g)) if g == granted));
            let step = step.resume(PromptEvent::TapResumed, &mut cache);
            assert!(matches!(step, Prompt::Finished(Ok(g)) if g == granted));
        }
    }
}

#[test]
fn a_failed_prompt_says_why_and_puts_the_tap_back() {
    let mut cache = PreflightCache::new();
    cache.record(5, false);
    let step = raised(PromptReply::Lost, &mut cache);
    assert_eq!(is_granted(&cache, 6), GrantCheck::Known(false));
    assert!(matches!(step, Prompt::ResumeTap(_)));
    match step.resume(PromptEvent::TapResumed, &mut cache) {
        Prompt::Finished(outcome) => assert_eq!(
            outcome,
            Err("The Screen Recording prompt did not complete".to_string())
        ),
        _ => panic!("not finished"),
    }
    let step = raised(PromptReply::Unreachable("loop is gone".to_string()), &mut cache);
    match step.resume(PromptEvent::TapResumed, &mut cache) {
        Prompt::Finished(outcome) => assert_eq!(
            outcome,
            Err("Could not reach the main thread to prompt: loop is gone".to_string())
        ),
        _ => panic!("not finished"),
    }
}

#[test]
fn events_out_of_turn_are_ignored() {
    let mut cache = PreflightCache::new();
    cache.record(5, true);
    let step = prompt().resume(PromptEvent::TapResumed, &mut cache);
    assert!(matches!(step, Prompt::SuspendTap));
    let step = step.resume(PromptEvent::Replied(PromptReply::Returned(true)), &mut cache);
    assert!(matches!(step, Prompt::SuspendTap));
    assert_eq!(is_granted(&cache, 6), GrantCheck::Known(true));
    let request = request_screen_capture_permission().resume(RequestEvent::Released);
    assert!(matches!(request, Request::CheckPermission));
}

#[test]
fn a_granted_permission_needs_no_prompt() {
    let step = request_screen_capture_permission().resume(RequestEvent::Checked(true));
    assert!(matches!(step, Request::Finished(Ok(true))));
}

#[test]
fn a_second_request_does_not_prompt() {
    let mut in_flight = false;
    let first = request_screen_capture_permission().resume(RequestEvent::Checked(false));
    assert!(matches!(first, Request::Claim));
    let first = first.resume(RequestEvent::Claimed(in_flight));
    in_flight = true;
    assert!(matches!(first, Request::Prompt));
    let second = request_screen_capture_permission().resume(RequestEvent::Checked(false));
    let second = second.resume(RequestEvent::Claimed(in_flight));
    assert!(matches!(second, Request::Finished(Ok(false))));
    let first = first.resume(RequestEvent::Prompted(Ok(true)));
    assert!(matches!(first, Request::Release(Ok(true))));
    assert!(matches!(
        first.resume(RequestEvent::Released),
        Request::Finished(Ok(true))
    ));
}

#[test]
fn the_mark_is_removed_after_a_failed_prompt() {
    let step = request_screen_capture_permission()
        .resume(RequestEvent::Checked(false))
        .resume(RequestEvent::Claimed(false))
        .resume(RequestEvent::Prompted(Err("no".to_string())));
    match step {
        Request::Release(outcome) => assert_eq!(outcome, Err("no".to_string())),
        _ => panic!("the mark stays"),
    }
}

#[test]
fn other_platforms_have_nothing_to_offer() {
    assert!(unsupported::capture(true, true).is_none());
    assert!(!unsupported::preflight());
    assert_eq!(unsupported::prompt(), Ok(false));
}
