//! State identifiers and sentinel resolution.
//!
//! A transition target is either a real context id or one of three reserved
//! sentinels: exit the session, stay on the current context, or go back to
//! the previous context.  Every requested transition is first rewritten by
//! [`resolve`] before it is compared against or stored into the engine's
//! current/previous state fields.

use vstd::prelude::*;

verus! {

/// Wire code for the exit sentinel in a fetched action's target field.
pub const STATE_EXIT: u8 = 255;
/// Wire code for the "current context" sentinel.
pub const STATE_CURRENT: u8 = 253;
/// Wire code for the "previous context" sentinel.
pub const STATE_PREV: u8 = 254;
/// Wire code of the initial context: the session starts by entering it.
pub const STATE_ZERO: u8 = 0;

/// A state identifier: a real context id, or a reserved sentinel.
#[derive(Clone, Copy, PartialEq, Eq, Structural, Debug)]
pub enum StateId {
    /// Terminate the session.
    Exit,
    /// Resolve to whatever context is current at transition time.
    Current,
    /// Resolve to whatever context was previous at transition time.
    Prev,
    /// A real context id.
    Id(u8),
}

impl StateId {
    /// True of identifiers that may be stored as the engine's current or
    /// previous state: sentinels that still await resolution may not.
    pub open spec fn is_settled(self) -> bool {
        match self {
            StateId::Current => false,
            StateId::Prev => false,
            _ => true,
        }
    }
}

/// Decode a numeric target field into a state identifier.
pub open spec fn spec_state_from_code(code: u8) -> StateId {
    if code == STATE_EXIT {
        StateId::Exit
    } else if code == STATE_CURRENT {
        StateId::Current
    } else if code == STATE_PREV {
        StateId::Prev
    } else {
        StateId::Id(code)
    }
}

/// Decode a numeric target field into a state identifier.
pub fn state_from_code(code: u8) -> (r: StateId)
    ensures
        r == spec_state_from_code(code),
{
    if code == STATE_EXIT {
        StateId::Exit
    } else if code == STATE_CURRENT {
        StateId::Current
    } else if code == STATE_PREV {
        StateId::Prev
    } else {
        StateId::Id(code)
    }
}

/// Rewrite a transition target through the sentinel rules: the current and
/// previous sentinels resolve to the given current/previous identifiers,
/// everything else stands.
pub open spec fn spec_resolve(to: StateId, curr: StateId, prev: StateId) -> StateId {
    match to {
        StateId::Current => curr,
        StateId::Prev => prev,
        _ => to,
    }
}

/// Rewrite a transition target through the sentinel rules.
pub fn resolve(to: StateId, curr: StateId, prev: StateId) -> (r: StateId)
    ensures
        r == spec_resolve(to, curr, prev),
{
    match to {
        StateId::Current => curr,
        StateId::Prev => prev,
        _ => to,
    }
}

/// Law: resolving the "current" sentinel always lands on whatever was current
/// immediately before the call, and resolving the "previous" sentinel always
/// lands on whatever was previous immediately before the call; a settled
/// target resolves to itself.
pub proof fn lemma_sentinel_resolution(curr: StateId, prev: StateId, to: StateId)
    ensures
        spec_resolve(StateId::Current, curr, prev) == curr,
        spec_resolve(StateId::Prev, curr, prev) == prev,
        to.is_settled() ==> spec_resolve(to, curr, prev) == to,
        curr.is_settled() && prev.is_settled() ==> spec_resolve(to, curr, prev).is_settled(),
{
}

} // verus!
