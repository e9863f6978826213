//! Decoder lifecycle controller.
//!
//! One hardware decoder goes through `Uninitialized`, `Configured` and
//! `Running`, and from there to `Error` or `Stopped`. The controller decides,
//! for each event, the next state and what has to be done about the decoder
//! handle and the upstream source.
use vstd::prelude::*;

verus! {

/// The states of the decoder lifecycle.
#[derive(Clone, Copy, Debug, PartialEq, Eq)]
pub enum DecoderState {
    /// No configuration is known.
    Uninitialized,
    /// A configuration is known; no decoder exists.
    Configured,
    /// A decoder exists.
    Running,
    /// The decoder failed and was freed; the configuration is kept.
    Error,
    /// The stream was torn down.
    Stopped,
}

/// What can happen to the lifecycle.
#[derive(Clone, Copy, Debug, PartialEq, Eq)]
pub enum LifecycleEvent {
    /// A decoder configuration became available.
    ConfigAvailable,
    /// An access unit arrived that asks for a decoder to be created.
    AccessUnit,
    /// The hardware decoder reported an error or stalled for good.
    HardwareError,
    /// The stream ended.
    Teardown,
}

/// What the caller has to do after an event.
#[derive(Clone, Copy, Debug, PartialEq, Eq)]
pub enum LifecycleAction {
    /// Nothing.
    Nothing,
    /// Allocate the decoder handle and request a full resync upstream.
    StartDecoder,
    /// Free the decoder handle and request a full resync upstream.
    AbandonDecoder,
    /// Free the decoder handle and the context of its surface.
    ReleaseDecoder,
}

/// The state after an event.
pub open spec fn next_state(state: DecoderState, event: LifecycleEvent) -> DecoderState {
    match event {
        LifecycleEvent::ConfigAvailable => match state {
            DecoderState::Running => DecoderState::Running,
            _ => DecoderState::Configured,
        },
        LifecycleEvent::AccessUnit => match state {
            DecoderState::Configured | DecoderState::Error => DecoderState::Running,
            other => other,
        },
        LifecycleEvent::HardwareError => match state {
            DecoderState::Running => DecoderState::Error,
            other => other,
        },
        LifecycleEvent::Teardown => DecoderState::Stopped,
    }
}

/// What an event asks of the caller.
pub open spec fn action_on(state: DecoderState, event: LifecycleEvent) -> LifecycleAction {
    match (state, event) {
        (DecoderState::Configured, LifecycleEvent::AccessUnit) => LifecycleAction::StartDecoder,
        (DecoderState::Error, LifecycleEvent::AccessUnit) => LifecycleAction::StartDecoder,
        (DecoderState::Running, LifecycleEvent::HardwareError) => LifecycleAction::AbandonDecoder,
        (DecoderState::Running, LifecycleEvent::Teardown) => LifecycleAction::ReleaseDecoder,
        _ => LifecycleAction::Nothing,
    }
}

impl DecoderState {
    /// A decoder handle exists in this state.
    pub open spec fn spec_has_decoder(self) -> bool {
        self is Running
    }

    /// A configuration is known in this state.
    pub open spec fn spec_is_configured(self) -> bool {
        !(self is Uninitialized)
    }

    pub fn has_decoder(&self) -> (b: bool)
        ensures
            b == self.spec_has_decoder(),
    {
        match self {
            DecoderState::Running => true,
            _ => false,
        }
    }

    /// Takes an event: returns the next state and what the caller has to do.
    pub fn step(self, event: LifecycleEvent) -> (next: (DecoderState, LifecycleAction))
        ensures
            next.0 == next_state(self, event),
            next.1 == action_on(self, event),
    {
        match event {
            LifecycleEvent::ConfigAvailable => match self {
                DecoderState::Running => (DecoderState::Running, LifecycleAction::Nothing),
                _ => (DecoderState::Configured, LifecycleAction::Nothing),
            },
            LifecycleEvent::AccessUnit => match self {
                DecoderState::Configured | DecoderState::Error => (
                    DecoderState::Running,
                    LifecycleAction::StartDecoder,
                ),
                other => (other, LifecycleAction::Nothing),
            },
            LifecycleEvent::HardwareError => match self {
                DecoderState::Running => (DecoderState::Error, LifecycleAction::AbandonDecoder),
                other => (other, LifecycleAction::Nothing),
            },
            LifecycleEvent::Teardown => match self {
                DecoderState::Running => (DecoderState::Stopped, LifecycleAction::ReleaseDecoder),
                _ => (DecoderState::Stopped, LifecycleAction::Nothing),
            },
        }
    }
}

impl LifecycleAction {
    /// The action asks upstream for a full resync.
    pub open spec fn spec_requests_resync(self) -> bool {
        self is StartDecoder || self is AbandonDecoder
    }

    /// The action frees the decoder handle.
    pub open spec fn spec_frees_decoder(self) -> bool {
        self is AbandonDecoder || self is ReleaseDecoder
    }

    pub fn requests_resync(&self) -> (b: bool)
        ensures
            b == self.spec_requests_resync(),
    {
        match self {
            LifecycleAction::StartDecoder | LifecycleAction::AbandonDecoder => true,
            _ => false,
        }
    }

    pub fn frees_decoder(&self) -> (b: bool)
        ensures
            b == self.spec_frees_decoder(),
    {
        match self {
            LifecycleAction::AbandonDecoder | LifecycleAction::ReleaseDecoder => true,
            _ => false,
        }
    }
}

/// The state after a sequence of events.
pub open spec fn state_after(state: DecoderState, events: Seq<LifecycleEvent>) -> DecoderState
    decreases events.len(),
{
    if events.len() == 0 {
        state
    } else {
        next_state(state_after(state, events.drop_last()), events.last())
    }
}

/// How often the state changed to `target` from another state.
pub open spec fn entries_into(
    state: DecoderState,
    events: Seq<LifecycleEvent>,
    target: DecoderState,
) -> nat
    decreases events.len(),
{
    if events.len() == 0 {
        0
    } else {
        let before = state_after(state, events.drop_last());
        let entered: nat = if before != target && next_state(before, events.last()) == target {
            1
        } else {
            0
        };
        entries_into(state, events.drop_last(), target) + entered
    }
}

/// How many resyncs were requested upstream.
pub open spec fn resync_requests(state: DecoderState, events: Seq<LifecycleEvent>) -> nat
    decreases events.len(),
{
    if events.len() == 0 {
        0
    } else {
        let before = state_after(state, events.drop_last());
        let requested: nat = if action_on(before, events.last()).spec_requests_resync() {
            1
        } else {
            0
        };
        resync_requests(state, events.drop_last()) + requested
    }
}

/// What each single step does: a decoder is started exactly on entering
/// `Running`, abandoned exactly on entering `Error`, released exactly when a
/// running decoder is torn down; a second request to create it while it runs
/// changes nothing; a decoder exists afterwards exactly in `Running`.
pub proof fn lemma_step(state: DecoderState, event: LifecycleEvent)
    ensures
        action_on(state, event) is StartDecoder <==> (state != DecoderState::Running && next_state(
            state,
            event,
        ) == DecoderState::Running),
        action_on(state, event) is AbandonDecoder <==> (state != DecoderState::Error && next_state(
            state,
            event,
        ) == DecoderState::Error),
        action_on(state, event).spec_frees_decoder() <==> (state.spec_has_decoder() && !next_state(
            state,
            event,
        ).spec_has_decoder()),
        state == DecoderState::Running && event == LifecycleEvent::AccessUnit ==> next_state(
            state,
            event,
        ) == state && action_on(state, event) is Nothing,
        state.spec_is_configured() ==> next_state(state, event).spec_is_configured(),
        next_state(state, event).spec_has_decoder() ==> next_state(
            state,
            event,
        ).spec_is_configured() && (state.spec_is_configured()),
{
}

/// Over any sequence of events exactly one resync is requested for each
/// entry into `Running` and one for each entry into `Error`, and none
/// otherwise.
pub proof fn lemma_one_resync_per_entry(state: DecoderState, events: Seq<LifecycleEvent>)
    ensures
        resync_requests(state, events) == entries_into(state, events, DecoderState::Running)
            + entries_into(state, events, DecoderState::Error),
    decreases events.len(),
{
    if events.len() > 0 {
        lemma_one_resync_per_entry(state, events.drop_last());
        lemma_step(state_after(state, events.drop_last()), events.last());
    }
}

} // verus!
