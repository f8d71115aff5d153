//! Which DOM element owns focus, and why it is not the editable one by default.
//!
//! A touch platform presents its software keyboard when an editable element
//! holds focus. Focus therefore follows the text/IME lifecycle: the hidden
//! editable input may hold focus only while a text input handler is active;
//! otherwise the non-editable canvas holds it.

use vstd::prelude::*;

verus! {

/// The element that must own DOM focus.
#[derive(Debug, Clone, Copy, PartialEq, Eq, Structural)]
pub enum FocusHost {
    /// The canvas, focusable but not editable: it delivers hardware keys
    /// without summoning a software keyboard.
    Canvas,
    /// The hidden editable input, required for text and IME composition.
    TextInput,
}

/// Which of this window's elements currently owns DOM focus.
#[derive(Debug, Clone, Copy, PartialEq, Eq, Structural)]
pub enum FocusOwner {
    TextInput,
    Canvas,
    /// Neither: the document body at startup, or an element outside this window.
    Neither,
}

/// The host the policy nominates: the editable input exactly when a text
/// input handler is active.
pub open spec fn nominated_host(text_input_active: bool) -> FocusHost {
    if text_input_active {
        FocusHost::TextInput
    } else {
        FocusHost::Canvas
    }
}

/// Whether `owner` is the element `host` names.
pub open spec fn owner_holds(owner: FocusOwner, host: FocusHost) -> bool {
    match host {
        FocusHost::Canvas => owner == FocusOwner::Canvas,
        FocusHost::TextInput => owner == FocusOwner::TextInput,
    }
}

/// The owner of focus once `host` has been focused.
pub open spec fn owner_after_focusing(host: FocusHost) -> FocusOwner {
    match host {
        FocusHost::Canvas => FocusOwner::Canvas,
        FocusHost::TextInput => FocusOwner::TextInput,
    }
}

/// The focus move the policy requires: none when the nominated host already
/// owns focus, otherwise a move to the nominated host.
pub open spec fn required_move(text_input_active: bool, owner: FocusOwner) -> Option<FocusHost> {
    if owner_holds(owner, nominated_host(text_input_active)) {
        None
    } else {
        Some(nominated_host(text_input_active))
    }
}

/// The owner of focus after a move (or no move) has been carried out.
pub open spec fn owner_after_move(owner: FocusOwner, mv: Option<FocusHost>) -> FocusOwner {
    match mv {
        None => owner,
        Some(host) => owner_after_focusing(host),
    }
}

/// Maps "does the application currently have an active text/IME input
/// handler?" onto the element that must own DOM focus.
///
/// The editable element is reachable only through a genuine text-entry
/// request, never through pointer interaction or window startup.
pub fn focus_host(text_input_active: bool) -> (host: FocusHost)
    ensures
        host == nominated_host(text_input_active),
        (host == FocusHost::TextInput) <==> text_input_active,
        !text_input_active ==> host == FocusHost::Canvas,
{
    if text_input_active {
        FocusHost::TextInput
    } else {
        FocusHost::Canvas
    }
}

/// Returns the focus move required to satisfy the policy, or `None` when the
/// DOM already satisfies it.
///
/// Idempotence matters: applying focus unconditionally would fire focus events
/// every frame and re-enter the renderer without bound.
pub fn focus_transition(text_input_active: bool, owner: FocusOwner) -> (mv: Option<FocusHost>)
    ensures
        mv == required_move(text_input_active, owner),
        mv is None <==> owner_holds(owner, nominated_host(text_input_active)),
        mv matches Some(host) ==> host == nominated_host(text_input_active),
        mv == Some(FocusHost::TextInput) ==> text_input_active,
{
    let nominated = focus_host(text_input_active);
    let satisfied = match (nominated, owner) {
        (FocusHost::TextInput, FocusOwner::TextInput) => true,
        (FocusHost::Canvas, FocusOwner::Canvas) => true,
        _ => false,
    };
    if satisfied {
        None
    } else {
        Some(nominated)
    }
}

/// Applying the required move satisfies the policy: asked again, it requires
/// no further move, and the nominated host then owns focus.
pub proof fn lemma_transition_is_idempotent(text_input_active: bool, owner: FocusOwner)
    ensures
        required_move(
            text_input_active,
            owner_after_move(owner, required_move(text_input_active, owner)),
        ) is None,
        owner_holds(
            owner_after_move(owner, required_move(text_input_active, owner)),
            nominated_host(text_input_active),
        ),
{
}

/// The policy is satisfied exactly when the owner of focus is the nominated
/// host, and a satisfied policy is left alone.
pub proof fn lemma_satisfied_policy_is_left_alone(text_input_active: bool, host: FocusHost)
    requires
        host == nominated_host(text_input_active),
    ensures
        required_move(text_input_active, owner_after_focusing(host)) is None,
{
}

} // verus!
