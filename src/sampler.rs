use vstd::prelude::*;

use crate::counter::{updated, CounterModel, StepCounter};

verus! {

/// Milliseconds between two readings of the cursor.
pub const SAMPLE_INTERVAL_MS: u64 = 50;

/// Milliseconds to wait after the cursor could not be read.
pub const BACKOFF_MS: u64 = 5000;

/// The two states of the cursor sampler.
#[derive(Clone, Copy, Debug, PartialEq, Eq, Structural)]
pub enum SamplerState {
    /// The next thing to do is read the cursor.
    Sampling,
    /// The sampler waits out a refusal before it reads the cursor again.
    Backoff,
}

/// What the caller of the sampler observed.
#[derive(Clone, Copy, Debug, PartialEq, Eq, Structural)]
pub enum SamplerEvent {
    /// The cursor was read at `(x, y)`.
    Located { x: i32, y: i32 },
    /// The cursor could not be read, most often for want of permission.
    Unavailable,
    /// The backoff interval has passed.
    BackoffElapsed,
}

/// What the caller of the sampler does next.
#[derive(Clone, Copy, Debug, PartialEq, Eq, Structural)]
pub enum SamplerAction {
    /// Wait `millis` milliseconds, then read the cursor.
    ReadAfter { millis: u64 },
    /// Wait `millis` milliseconds, then report `BackoffElapsed`.
    BackOff { millis: u64 },
}

/// A message for the user that a transition produces.
#[derive(Clone, Copy, Debug, PartialEq, Eq, Structural)]
pub enum Diagnostic {
    /// Nothing to tell.
    Quiet,
    /// Reading the cursor was refused: the user should grant the permission.
    PermissionNeeded,
    /// Reading the cursor works again after a refusal.
    PermissionRestored,
}

/// The result of one transition of the sampler.
#[derive(Clone, Copy, Debug, PartialEq, Eq, Structural)]
pub struct Transition {
    pub state: SamplerState,
    pub action: SamplerAction,
    pub diagnostic: Diagnostic,
}

/// The sampler's transition on `event` from `state`, with the counter's state `m`
/// before it: the transition and the counter's state after it.
pub open spec fn sampler_next(state: SamplerState, m: CounterModel, event: SamplerEvent) -> (
    Transition,
    CounterModel,
) {
    match event {
        SamplerEvent::Located { x, y } => (
            Transition {
                state: SamplerState::Sampling,
                action: SamplerAction::ReadAfter { millis: SAMPLE_INTERVAL_MS },
                diagnostic: if m.permission_error {
                    Diagnostic::PermissionRestored
                } else {
                    Diagnostic::Quiet
                },
            },
            updated(CounterModel { permission_error: false, ..m }, x as int, y as int),
        ),
        SamplerEvent::Unavailable => if m.permission_error {
            (
                Transition {
                    state: SamplerState::Sampling,
                    action: SamplerAction::ReadAfter { millis: SAMPLE_INTERVAL_MS },
                    diagnostic: Diagnostic::Quiet,
                },
                m,
            )
        } else {
            (
                Transition {
                    state: SamplerState::Backoff,
                    action: SamplerAction::BackOff { millis: BACKOFF_MS },
                    diagnostic: Diagnostic::PermissionNeeded,
                },
                CounterModel { permission_error: true, ..m },
            )
        },
        SamplerEvent::BackoffElapsed => (
            Transition {
                state: SamplerState::Sampling,
                action: SamplerAction::ReadAfter {
                    millis: if state == SamplerState::Backoff {
                        0
                    } else {
                        SAMPLE_INTERVAL_MS
                    },
                },
                diagnostic: Diagnostic::Quiet,
            },
            m,
        ),
    }
}

/// Decides what the cursor sampler does after `event`, and records a reading in
/// `counter`.
///
/// A reading clears a refusal and updates the counter; the first refusal in a row
/// sets the counter's permission flag and enters the backoff; a later one in the
/// same row waits one sampling interval; the end of the backoff reads again at once
/// (an elapsed backoff reported while sampling keeps the usual interval).
pub fn sampler_step(state: SamplerState, counter: &mut StepCounter, event: SamplerEvent) -> (r:
    Transition)
    ensures
        (r, final(counter)@) == sampler_next(state, old(counter)@, event),
{
    match event {
        SamplerEvent::Located { x, y } => {
            let diagnostic = if counter.permission_error() {
                Diagnostic::PermissionRestored
            } else {
                Diagnostic::Quiet
            };
            counter.set_permission_error(false);
            counter.update(x, y);
            Transition {
                state: SamplerState::Sampling,
                action: SamplerAction::ReadAfter { millis: SAMPLE_INTERVAL_MS },
                diagnostic,
            }
        },
        SamplerEvent::Unavailable => {
            if counter.permission_error() {
                Transition {
                    state: SamplerState::Sampling,
                    action: SamplerAction::ReadAfter { millis: SAMPLE_INTERVAL_MS },
                    diagnostic: Diagnostic::Quiet,
                }
            } else {
                counter.set_permission_error(true);
                Transition {
                    state: SamplerState::Backoff,
                    action: SamplerAction::BackOff { millis: BACKOFF_MS },
                    diagnostic: Diagnostic::PermissionNeeded,
                }
            }
        },
        SamplerEvent::BackoffElapsed => {
            let millis: u64 = match state {
                SamplerState::Backoff => 0,
                SamplerState::Sampling => SAMPLE_INTERVAL_MS,
            };
            Transition {
                state: SamplerState::Sampling,
                action: SamplerAction::ReadAfter { millis },
                diagnostic: Diagnostic::Quiet,
            }
        },
    }
}

/// A refused read from a counter without a standing refusal raises the flag and
/// enters the backoff; when the backoff ends the cursor is read again at once.
pub proof fn lemma_refusal_is_retried(m: CounterModel)
    requires
        !m.permission_error,
    ensures
        ({
            let (t, m1) = sampler_next(SamplerState::Sampling, m, SamplerEvent::Unavailable);
            let (t2, m2) = sampler_next(t.state, m1, SamplerEvent::BackoffElapsed);
            &&& m1.permission_error
            &&& t.diagnostic == Diagnostic::PermissionNeeded
            &&& t.state == SamplerState::Backoff
            &&& t.action == (SamplerAction::BackOff { millis: BACKOFF_MS })
            &&& t2.state == SamplerState::Sampling
            &&& t2.action == (SamplerAction::ReadAfter { millis: 0 })
            &&& m2 == m1
        }),
{
}

} // verus!
