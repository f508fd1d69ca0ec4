//! The decisions of the polling loop. The loop itself, which reads, publishes
//! and sleeps, is run by the caller: it hands each outcome here and does what
//! comes back.

use vstd::prelude::*;

use crate::introspect::IntrospectError;

verus! {

/// Seconds to wait after a status line was published.
pub const PUBLISHED_WAIT_SECS: u64 = 60;

/// Seconds to wait after a pass failed, before the next one.
pub const BACKOFF_SECS: u64 = 5;

/// What the loop does after one pass over the game's memory.
#[derive(Debug, Clone)]
pub enum CycleAction {
    /// Hand this status line to the presence service.
    Publish(String),
    /// The pass failed: wait this many seconds and start the next one.
    Backoff(u64),
}

/// The text that an action hands to the presence service, if any.
pub open spec fn published_text(a: CycleAction) -> Option<Seq<char>> {
    match a {
        CycleAction::Publish(s) => Some(s@),
        CycleAction::Backoff(_) => None,
    }
}

/// The text that a pass plans to publish, given what it found.
pub open spec fn planned_text(outcome: Result<Seq<char>, IntrospectError>) -> Option<Seq<char>> {
    match outcome {
        Ok(s) => Some(s),
        Err(_) => None,
    }
}

/// After a pass: publish its status line, or back off when it failed. The action
/// depends on this pass's outcome alone, so a line refused in an earlier pass is
/// neither handed on again nor lost from the line of this one.
pub fn after_introspection(outcome: Result<String, IntrospectError>) -> (a: CycleAction)
    ensures
        published_text(a) == planned_text(
            match outcome {
                Ok(s) => Ok::<Seq<char>, IntrospectError>(s@),
                Err(e) => Err(e),
            },
        ),
        outcome is Err ==> a == CycleAction::Backoff(BACKOFF_SECS),
{
    match outcome {
        Ok(s) => CycleAction::Publish(s),
        Err(_) => CycleAction::Backoff(BACKOFF_SECS),
    }
}

/// Seconds to wait after handing a status line to the presence service: the long
/// interval when it was accepted, the short one when it was not.
pub fn after_publish(published: bool) -> (secs: u64)
    ensures
        secs == if published {
            PUBLISHED_WAIT_SECS
        } else {
            BACKOFF_SECS
        },
{
    if published {
        PUBLISHED_WAIT_SECS
    } else {
        BACKOFF_SECS
    }
}

} // verus!
