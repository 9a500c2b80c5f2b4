//! Bringing up the GPU: an adapter first, then a device from it.
//!
//! Both requests are answered from outside, so initialization is a small
//! machine: it says what to ask for and takes each answer as an event. A
//! failure is final; nothing is asked twice.

use crate::config::{
    adapter_options, device_options, spec_adapter_options, spec_device_options, AdapterOptions,
    DeviceOptions,
};
use crate::error::InitializeError;
use vstd::prelude::*;

verus! {

/// How far initialization has come.
#[derive(Clone, Copy, Debug, PartialEq, Eq, Structural)]
pub enum InitState {
    /// The adapter request is out.
    AwaitingAdapter,
    /// The adapter is there and the device request is out.
    AwaitingDevice,
    /// The device and its queue are there.
    Ready,
    /// Initialization failed, for the reason given.
    Failed(InitializeError),
}

/// An answer to a request of the initializer.
#[derive(Clone, Copy, Debug, PartialEq, Eq, Structural)]
pub enum InitEvent {
    /// The adapter request returned an adapter.
    AdapterAcquired,
    /// The adapter request returned nothing.
    AdapterUnavailable,
    /// The device request returned a device and its queue.
    DeviceAcquired,
    /// The device request failed.
    DeviceRefused,
}

/// What the initializer asks for.
#[derive(Clone, Copy, Debug, PartialEq, Eq)]
pub enum InitAction {
    /// Create the GPU instance, with defaults that the process environment
    /// may adjust.
    CreateInstance,
    /// Request an adapter from the instance.
    RequestAdapter(AdapterOptions),
    /// Request a device and its queue from the adapter.
    RequestDevice(DeviceOptions),
}

/// What initialization begins with: the instance, then the adapter request.
pub open spec fn first_requests() -> Seq<InitAction> {
    seq![InitAction::CreateInstance, InitAction::RequestAdapter(spec_adapter_options())]
}

/// The state after `event`, and the request that follows it, if any. An
/// event that does not answer the request that is out changes nothing.
pub open spec fn init_step(state: InitState, event: InitEvent) -> (InitState, Option<InitAction>) {
    match (state, event) {
        (InitState::AwaitingAdapter, InitEvent::AdapterAcquired) => (
            InitState::AwaitingDevice,
            Some(InitAction::RequestDevice(spec_device_options())),
        ),
        (InitState::AwaitingAdapter, InitEvent::AdapterUnavailable) => (
            InitState::Failed(InitializeError::NoAdapter),
            None,
        ),
        (InitState::AwaitingDevice, InitEvent::DeviceAcquired) => (InitState::Ready, None),
        (InitState::AwaitingDevice, InitEvent::DeviceRefused) => (
            InitState::Failed(InitializeError::NoDevice),
            None,
        ),
        _ => (state, None),
    }
}

/// The state after all of `events`, taken in order.
pub open spec fn init_run(state: InitState, events: Seq<InitEvent>) -> InitState
    decreases events.len(),
{
    if events.len() == 0 {
        state
    } else {
        init_run(init_step(state, events[0]).0, events.drop_first())
    }
}

/// How initialization ended, once it has.
pub open spec fn init_outcome(state: InitState) -> Option<Result<(), InitializeError>> {
    match state {
        InitState::AwaitingAdapter => None,
        InitState::AwaitingDevice => None,
        InitState::Ready => Some(Ok(())),
        InitState::Failed(error) => Some(Err(error)),
    }
}

/// Begins initialization: the state to start from and the first requests.
pub fn initialize_gpu() -> (begin: (InitState, Vec<InitAction>))
    ensures
        begin.0 == InitState::AwaitingAdapter,
        begin.1@ == first_requests(),
{
    (
        InitState::AwaitingAdapter,
        vec![InitAction::CreateInstance, InitAction::RequestAdapter(adapter_options())],
    )
}

impl InitState {
    /// Takes the answer `event`: the state it leads to, and the request to
    /// make next, if there is one.
    pub fn step(self, event: InitEvent) -> (next: (InitState, Option<InitAction>))
        ensures
            next == init_step(self, event),
    {
        match self {
            InitState::AwaitingAdapter => match event {
                InitEvent::AdapterAcquired => (
                    InitState::AwaitingDevice,
                    Some(InitAction::RequestDevice(device_options())),
                ),
                InitEvent::AdapterUnavailable => (
                    InitState::Failed(InitializeError::NoAdapter),
                    None,
                ),
                _ => (self, None),
            },
            InitState::AwaitingDevice => match event {
                InitEvent::DeviceAcquired => (InitState::Ready, None),
                InitEvent::DeviceRefused => (InitState::Failed(InitializeError::NoDevice), None),
                _ => (self, None),
            },
            _ => (self, None),
        }
    }

    /// How initialization ended: `None` while a request is still out.
    pub fn outcome(&self) -> (outcome: Option<Result<(), InitializeError>>)
        ensures
            outcome == init_outcome(*self),
    {
        match self {
            InitState::AwaitingAdapter => None,
            InitState::AwaitingDevice => None,
            InitState::Ready => Some(Ok(())),
            InitState::Failed(error) => Some(Err(*error)),
        }
    }
}

/// The event that tells whether the adapter request found an adapter.
pub open spec fn adapter_event(found: bool) -> InitEvent {
    if found {
        InitEvent::AdapterAcquired
    } else {
        InitEvent::AdapterUnavailable
    }
}

/// The event that tells whether the device request was granted.
pub open spec fn device_event(granted: bool) -> InitEvent {
    if granted {
        InitEvent::DeviceAcquired
    } else {
        InitEvent::DeviceRefused
    }
}

/// Once initialization has ended, no event changes how it ended.
pub proof fn lemma_outcome_is_final(state: InitState, events: Seq<InitEvent>)
    requires
        init_outcome(state) is Some,
    ensures
        init_run(state, events) == state,
    decreases events.len(),
{
    if events.len() > 0 {
        lemma_outcome_is_final(state, events.drop_first());
    }
}

/// Initialization succeeds exactly when an adapter is found and grants a
/// device. Without an adapter it fails with `NoAdapter`, whatever follows;
/// with an adapter that refuses the device it fails with `NoDevice`.
pub proof fn lemma_initialization_outcome(found: bool, granted: bool, later: Seq<InitEvent>)
    ensures
        init_outcome(
            init_run(
                InitState::AwaitingAdapter,
                seq![adapter_event(found), device_event(granted)] + later,
            ),
        ) == Some(
            if !found {
                Err::<(), InitializeError>(InitializeError::NoAdapter)
            } else if !granted {
                Err(InitializeError::NoDevice)
            } else {
                Ok(())
            },
        ),
{
    let events = seq![adapter_event(found), device_event(granted)] + later;
    let after_adapter = init_step(InitState::AwaitingAdapter, adapter_event(found)).0;
    let after_device = init_step(after_adapter, device_event(granted)).0;
    assert(events.drop_first().drop_first() =~= later);
    assert(init_run(InitState::AwaitingAdapter, events) == init_run(after_device, later)) by {
        reveal_with_fuel(init_run, 3);
    }
    lemma_outcome_is_final(after_device, later);
}

} // verus!
