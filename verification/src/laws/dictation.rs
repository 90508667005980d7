//! The slot that holds the captured context.
use vstd::prelude::*;
use crate::context_capture::{
    capture_for_dictation,
    clear,
    take,
    CaretContext,
    Pending,
    PlatformCapture,
    SecureInputCheck,
};
use crate::laws::same_optional_context;

verus! {

/// What is taken out of the slot is what was in it, whatever that is, and the
/// slot is empty afterwards. Nothing comes out of a poisoned slot.
pub proof fn law_take_hands_out_what_is_there()
    ensures
        forall|pending: &mut Pending, context: Option<CaretContext>| #[trigger]
            call_ensures(take, (pending,), context) ==> {
                &&& final(pending).poisoned == pending.poisoned
                &&& !pending.poisoned ==> same_optional_context(context, pending.context)
                    && final(pending).context is None
                &&& pending.poisoned ==> context is None && same_optional_context(
                    final(pending).context,
                    pending.context,
                )
            },
{
    assert forall|pending: &mut Pending, context: Option<CaretContext>| #[trigger]
        call_ensures(take, (pending,), context) implies {
        &&& final(pending).poisoned == pending.poisoned
        &&& !pending.poisoned ==> same_optional_context(context, pending.context)
            && final(pending).context is None
        &&& pending.poisoned ==> context is None && same_optional_context(
            final(pending).context,
            pending.context,
        )
    } by {
        lemma_views(context, pending.context);
        lemma_views(final(pending).context, pending.context);
        lemma_views(final(pending).context, None);
        assert(final(pending)@ == pending@.replaced(None));
    }
}

/// Dropping the pending context empties the slot, unless it is poisoned.
pub proof fn law_clear_empties_the_slot()
    ensures
        forall|pending: &mut Pending, done: ()| #[trigger]
            call_ensures(clear, (pending,), done) ==> {
                &&& final(pending).poisoned == pending.poisoned
                &&& !pending.poisoned ==> final(pending).context is None
                &&& pending.poisoned ==> same_optional_context(
                    final(pending).context,
                    pending.context,
                )
            },
{
    assert forall|pending: &mut Pending, done: ()| #[trigger]
        call_ensures(clear, (pending,), done) implies {
        &&& final(pending).poisoned == pending.poisoned
        &&& !pending.poisoned ==> final(pending).context is None
        &&& pending.poisoned ==> same_optional_context(final(pending).context, pending.context)
    } by {
        lemma_views(final(pending).context, pending.context);
        lemma_views(final(pending).context, None);
        assert(final(pending)@ == pending@.replaced(None));
    }
}

/// A dictation that wants nothing captured empties the slot and is done. One that
/// wants anything leaves the slot alone for now, and goes on with exactly what it
/// wants.
pub proof fn law_dictation_goes_on_with_what_it_wants()
    ensures
        forall|
            pending: &mut Pending,
            want_text: bool,
            want_screenshot: bool,
            next: Option<SecureInputCheck>,
        | #[trigger]
            call_ensures(capture_for_dictation, (pending, want_text, want_screenshot), next) ==> {
                &&& final(pending).poisoned == pending.poisoned
                &&& want_text || want_screenshot ==> {
                    &&& next is Some
                    &&& next->0.want_text == want_text
                    &&& next->0.want_screenshot == want_screenshot
                    &&& same_optional_context(final(pending).context, pending.context)
                }
                &&& !want_text && !want_screenshot ==> {
                    &&& next is None
                    &&& !pending.poisoned ==> final(pending).context is None
                }
            },
{
    assert forall|
        pending: &mut Pending,
        want_text: bool,
        want_screenshot: bool,
        next: Option<SecureInputCheck>,
    | #[trigger]
        call_ensures(capture_for_dictation, (pending, want_text, want_screenshot), next) implies {
        &&& final(pending).poisoned == pending.poisoned
        &&& want_text || want_screenshot ==> {
            &&& next is Some
            &&& next->0.want_text == want_text
            &&& next->0.want_screenshot == want_screenshot
            &&& same_optional_context(final(pending).context, pending.context)
        }
        &&& !want_text && !want_screenshot ==> {
            &&& next is None
            &&& !pending.poisoned ==> final(pending).context is None
        }
    } by {
        lemma_views(final(pending).context, pending.context);
        lemma_views(final(pending).context, None);
        assert(final(pending)@ == pending@.requested(want_text, want_screenshot));
    }
}

/// While secure input is active nothing is captured and the slot is emptied.
/// Otherwise the capture goes on with what was wanted.
pub proof fn law_secure_input_stops_the_capture()
    ensures
        forall|
            check: SecureInputCheck,
            pending: &mut Pending,
            active: bool,
            next: Option<PlatformCapture>,
        | #[trigger]
            call_ensures(SecureInputCheck::resume, (check, pending, active), next) ==> {
                &&& final(pending).poisoned == pending.poisoned
                &&& active ==> {
                    &&& next is None
                    &&& !pending.poisoned ==> final(pending).context is None
                }
                &&& !active ==> {
                    &&& next is Some
                    &&& next->0.want_text == check.want_text
                    &&& next->0.want_screenshot == check.want_screenshot
                    &&& same_optional_context(final(pending).context, pending.context)
                }
            },
{
    assert forall|
        check: SecureInputCheck,
        pending: &mut Pending,
        active: bool,
        next: Option<PlatformCapture>,
    | #[trigger]
        call_ensures(SecureInputCheck::resume, (check, pending, active), next) implies {
        &&& final(pending).poisoned == pending.poisoned
        &&& active ==> {
            &&& next is None
            &&& !pending.poisoned ==> final(pending).context is None
        }
        &&& !active ==> {
            &&& next is Some
            &&& next->0.want_text == check.want_text
            &&& next->0.want_screenshot == check.want_screenshot
            &&& same_optional_context(final(pending).context, pending.context)
        }
    } by {
        lemma_views(final(pending).context, pending.context);
        lemma_views(final(pending).context, None);
        assert(final(pending)@ == pending@.secured(active));
    }
}

/// What the platform captured, be it a context or nothing, takes the place of
/// what was in the slot, unless the slot is poisoned.
pub proof fn law_captured_context_is_stored()
    ensures
        forall|
            capture: PlatformCapture,
            pending: &mut Pending,
            captured: Option<CaretContext>,
            done: (),
        | #[trigger]
            call_ensures(PlatformCapture::resume, (capture, pending, captured), done) ==> {
                &&& final(pending).poisoned == pending.poisoned
                &&& !pending.poisoned ==> same_optional_context(final(pending).context, captured)
                &&& pending.poisoned ==> same_optional_context(
                    final(pending).context,
                    pending.context,
                )
            },
{
    assert forall|
        capture: PlatformCapture,
        pending: &mut Pending,
        captured: Option<CaretContext>,
        done: (),
    | #[trigger]
        call_ensures(PlatformCapture::resume, (capture, pending, captured), done) implies {
        &&& final(pending).poisoned == pending.poisoned
        &&& !pending.poisoned ==> same_optional_context(final(pending).context, captured)
        &&& pending.poisoned ==> same_optional_context(final(pending).context, pending.context)
    } by {
        lemma_views(final(pending).context, captured);
        lemma_views(final(pending).context, pending.context);
        assert(final(pending)@ == pending@.replaced(
            crate::context_capture::context_view(captured),
        ));
    }
}

/// The slot starts out empty and sound.
pub proof fn law_new_slot_is_empty(pending: Pending)
    requires
        call_ensures(Pending::new, (), pending),
    ensures
        pending.context is None,
        !pending.poisoned,
{
    assert(pending@ == (crate::context_capture::PendingView { context: None, poisoned: false }));
}

proof fn lemma_views(a: Option<CaretContext>, b: Option<CaretContext>)
    ensures
        crate::context_capture::context_view(a) == crate::context_capture::context_view(b)
            ==> same_optional_context(a, b),
{
    if crate::context_capture::context_view(a) == crate::context_capture::context_view(b) {
        if let (Some(x), Some(y)) = (a, b) {
            assert(x@ == y@);
        }
    }
}

} // verus!
