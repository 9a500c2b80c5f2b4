//! The run, from the first request to the exit.
//!
//! The driver never waits and never touches the GPU. It hands out what is
//! to be done next and takes what came of it as an event:
//!
//! 1. bring up the GPU;
//! 2. create the output buffer and everything the dispatch takes, and
//!    submit the one command buffer;
//! 3. wait for that submission;
//! 4. write the marker, ask for the output buffer to be mapped, and wait
//!    until the device has nothing left to do;
//! 5. write what the mapping brought, a dump of the bytes or the failure;
//! 6. exit.

use crate::command::{CommandBuffer, CommandEncoderDescriptor, CommandView};
use crate::device::Device;
use crate::error::{initialize_error_text, InitializeError};
use crate::init::{
    first_requests, init_outcome, init_step, initialize_gpu, InitAction, InitEvent, InitState,
};
use crate::recorder::{assembled, construct_compute_shader, encoder_descriptor, recorded};
use crate::report::{completion_marker, dump, dump_bytes, marker_line, Stream};
use crate::resource::{
    resource_views, Buffer, BufferDescriptor, BufferUsages, Resource, ResourceView,
};
use vstd::prelude::*;

verus! {

broadcast use vstd::layout::layout_of_primitives;

/// How many 32-bit words the output buffer holds.
pub const OUTPUT_WORDS: usize = 12;

/// The size of the output buffer in bytes.
pub open spec fn output_size() -> u64 {
    48
}

/// The usage of the output buffer: the host maps it to read, the copy
/// writes into it.
pub open spec fn output_usage() -> BufferUsages {
    BufferUsages::spec_map_read().spec_union(BufferUsages::spec_copy_dst())
}

/// The descriptor of the output buffer.
pub open spec fn output_descriptor() -> BufferDescriptor {
    BufferDescriptor {
        label: Some("output-buffer"),
        size: output_size(),
        usage: output_usage(),
        mapped_at_creation: false,
    }
}

/// The output buffer: the first object created on the device.
pub open spec fn output_buffer() -> Buffer {
    Buffer { index: 0, size: output_size(), usage: output_usage() }
}

/// The descriptor of the output buffer: room for twelve 32-bit words, to be
/// mapped for reading and copied into, not mapped at creation.
pub fn output_buffer_descriptor() -> (desc: BufferDescriptor)
    ensures
        desc == output_descriptor(),
{
    BufferDescriptor {
        label: Some("output-buffer"),
        size: (OUTPUT_WORDS * core::mem::size_of::<u32>()) as u64,
        usage: BufferUsages::map_read().union(BufferUsages::copy_dst()),
        mapped_at_creation: false,
    }
}

/// The output buffer holds twelve 32-bit words. The host can map it to read
/// and the copy can write into it; the shader cannot be bound to it.
pub proof fn lemma_output_buffer()
    ensures
        output_size() == OUTPUT_WORDS * 4,
        output_descriptor().size == output_buffer().size,
        output_usage().map_read,
        output_usage().copy_dst,
        output_usage().allowed(),
        !output_usage().storage,
{
}

/// How the device is polled.
#[derive(Clone, Copy, Debug, PartialEq, Eq, Structural)]
pub enum PollType {
    /// Block until the submission with this index has completed.
    WaitForSubmissionIndex(u64),
    /// Block until the device has nothing left to do. Mapping callbacks
    /// that are due fire before the poll returns.
    Wait,
    /// Look for finished work without blocking.
    Poll,
}

/// What a mapped buffer is mapped for.
#[derive(Clone, Copy, Debug, PartialEq, Eq, Structural)]
pub enum MapMode {
    Read,
    Write,
}

/// Why a run ended in failure.
#[derive(Clone, Debug, PartialEq, Eq)]
pub enum Failure {
    /// The GPU could not be brought up.
    Initialize(InitializeError),
    /// A poll of the device failed, with the runtime's message.
    Poll { message: String },
}

/// A failure as a mathematical value.
pub enum FailureView {
    Initialize(InitializeError),
    Poll { message: Seq<char> },
}

impl View for Failure {
    type V = FailureView;

    open spec fn view(&self) -> FailureView {
        match self {
            Failure::Initialize(error) => FailureView::Initialize(*error),
            Failure::Poll { message } => FailureView::Poll { message: message@ },
        }
    }
}

/// The text with which a failure is reported.
pub open spec fn failure_text(failure: FailureView) -> Seq<char> {
    match failure {
        FailureView::Initialize(error) => initialize_error_text(error),
        FailureView::Poll { message } => message,
    }
}

/// The exit code of a run that ended with `outcome`.
pub open spec fn exit_code_of(outcome: Result<(), FailureView>) -> int {
    match outcome {
        Ok(_) => 0,
        Err(_) => 1,
    }
}

impl Failure {
    /// The text with which this failure is reported.
    pub fn message(&self) -> (text: String)
        ensures
            text@ == failure_text(self@),
    {
        match self {
            Failure::Initialize(error) => error.message(),
            Failure::Poll { message } => message.clone(),
        }
    }
}

/// The view of how a run ended.
pub open spec fn outcome_view(outcome: Result<(), Failure>) -> Result<(), FailureView> {
    match outcome {
        Ok(_) => Ok(()),
        Err(failure) => Err(failure@),
    }
}

/// The exit code of a run that ended with `outcome`: zero on success, one
/// on failure.
pub fn exit_code(outcome: &Result<(), Failure>) -> (code: i32)
    ensures
        code == exit_code_of(outcome_view(*outcome)),
{
    match outcome {
        Ok(_) => 0,
        Err(_) => 1,
    }
}

/// What came of something the driver asked for.
#[derive(Clone, Debug, PartialEq, Eq)]
pub enum Event {
    /// An answer to a request of the initializer.
    Init(InitEvent),
    /// The command buffer was submitted, under this submission index.
    Submitted { index: u64 },
    /// A poll returned without error.
    PollSucceeded,
    /// A poll failed, with the runtime's message.
    PollFailed { message: String },
    /// The mapping callback ran with the mapped bytes.
    MapSucceeded { bytes: Vec<u8> },
    /// The mapping callback ran with an error, of which this is the text.
    MapFailed { message: String },
}

/// An event as a mathematical value.
pub enum EventView {
    Init(InitEvent),
    Submitted { index: u64 },
    PollSucceeded,
    PollFailed { message: Seq<char> },
    MapSucceeded { bytes: Seq<u8> },
    MapFailed { message: Seq<char> },
}

impl View for Event {
    type V = EventView;

    open spec fn view(&self) -> EventView {
        match self {
            Event::Init(event) => EventView::Init(*event),
            Event::Submitted { index } => EventView::Submitted { index: *index },
            Event::PollSucceeded => EventView::PollSucceeded,
            Event::PollFailed { message } => EventView::PollFailed { message: message@ },
            Event::MapSucceeded { bytes } => EventView::MapSucceeded { bytes: bytes@ },
            Event::MapFailed { message } => EventView::MapFailed { message: message@ },
        }
    }
}

/// Something for the embedding program to do.
#[derive(Debug, PartialEq, Eq)]
pub enum Action {
    /// Make a request of the initializer.
    Init(InitAction),
    /// Create these objects on the device, in this order. A handle with
    /// index `i` names the `i`-th object ever created.
    Create(Vec<Resource>),
    /// Encode these commands and submit them to the queue as one command
    /// buffer.
    Submit(CommandBuffer),
    /// Poll the device.
    Poll(PollType),
    /// Write a line to a stream.
    Write { stream: Stream, line: String },
    /// Ask for `size` bytes of `buffer` from `offset` on to be mapped;
    /// without a size, for all that follow `offset`.
    MapAsync { buffer: Buffer, mode: MapMode, offset: u64, size: Option<u64> },
    /// End the run.
    Exit(Result<(), Failure>),
}

/// An action as a mathematical value.
pub enum ActionView {
    Init(InitAction),
    Create(Seq<ResourceView>),
    Submit { descriptor: CommandEncoderDescriptor, commands: Seq<CommandView> },
    Poll(PollType),
    Write { stream: Stream, line: Seq<char> },
    MapAsync { buffer: Buffer, mode: MapMode, offset: u64, size: Option<u64> },
    Exit(Result<(), FailureView>),
}

impl View for Action {
    type V = ActionView;

    open spec fn view(&self) -> ActionView {
        match self {
            Action::Init(action) => ActionView::Init(*action),
            Action::Create(resources) => ActionView::Create(resource_views(resources@)),
            Action::Submit(buffer) => ActionView::Submit {
                descriptor: buffer.descriptor,
                commands: buffer@,
            },
            Action::Poll(poll) => ActionView::Poll(*poll),
            Action::Write { stream, line } => ActionView::Write { stream: *stream, line: line@ },
            Action::MapAsync { buffer, mode, offset, size } => ActionView::MapAsync {
                buffer: *buffer,
                mode: *mode,
                offset: *offset,
                size: *size,
            },
            Action::Exit(outcome) => ActionView::Exit(outcome_view(*outcome)),
        }
    }
}

/// The actions of `actions` as mathematical values, in the same order.
pub open spec fn action_views(actions: Seq<Action>) -> Seq<ActionView> {
    actions.map_values(|action: Action| action@)
}

/// Where a run stands.
#[derive(Clone, Copy, Debug, PartialEq, Eq, Structural)]
pub enum Phase {
    /// The GPU is being brought up.
    Initializing(InitState),
    /// The command buffer is with the queue; its submission index is due.
    AwaitingSubmission { output: Buffer },
    /// The poll for the submission is out.
    AwaitingCompletion { output: Buffer, index: u64 },
    /// The mapping is asked for and the last poll is out. `reported` tells
    /// whether the mapping callback has run.
    Draining { reported: bool },
    /// The run is over.
    Finished,
}

/// A run: where it stands, and the shader it runs.
#[derive(Clone, Copy, Debug, PartialEq, Eq)]
pub struct Driver {
    pub phase: Phase,
    /// The source of the compute shader, in WGSL.
    pub shader: &'static str,
}

/// What a run begins with: the first requests of the initializer.
pub open spec fn first_actions() -> Seq<ActionView> {
    first_requests().map_values(|action: InitAction| ActionView::Init(action))
}

/// What is to be done once the device is there: create the output buffer
/// and all that the dispatch takes, then submit the one command buffer.
pub open spec fn dispatch_actions(shader: &'static str) -> Seq<ActionView> {
    seq![
        ActionView::Create(
            seq![ResourceView::Buffer(output_descriptor())] + assembled(1, output_buffer(), shader),
        ),
        ActionView::Submit {
            descriptor: encoder_descriptor(),
            commands: recorded(1, output_buffer()),
        },
    ]
}

/// What is to be done once the submission has completed: write the marker,
/// ask for the whole output buffer to be mapped for reading, and poll until
/// the device has nothing left to do.
pub open spec fn readback_actions(output: Buffer) -> Seq<ActionView> {
    seq![
        ActionView::Write { stream: Stream::Stdout, line: completion_marker() },
        ActionView::MapAsync { buffer: output, mode: MapMode::Read, offset: 0, size: None },
        ActionView::Poll(PollType::Wait),
    ]
}

/// The state after `event` and what is to be done next, in order. An event
/// that the run does not wait for changes nothing and asks for nothing.
pub open spec fn driver_step(driver: Driver, event: EventView) -> (Driver, Seq<ActionView>) {
    match (driver.phase, event) {
        (Phase::Initializing(state), EventView::Init(answer)) => {
            let (next, request) = init_step(state, answer);
            if init_outcome(state) is Some {
                (driver, Seq::<ActionView>::empty())
            } else {
                match next {
                    InitState::Ready => (
                        Driver {
                            phase: Phase::AwaitingSubmission { output: output_buffer() },
                            shader: driver.shader,
                        },
                        dispatch_actions(driver.shader),
                    ),
                    InitState::Failed(error) => (
                        Driver { phase: Phase::Finished, shader: driver.shader },
                        seq![ActionView::Exit(Err(FailureView::Initialize(error)))],
                    ),
                    _ => (
                        Driver { phase: Phase::Initializing(next), shader: driver.shader },
                        match request {
                            Some(action) => seq![ActionView::Init(action)],
                            None => Seq::<ActionView>::empty(),
                        },
                    ),
                }
            }
        },
        (Phase::AwaitingSubmission { output }, EventView::Submitted { index }) => (
            Driver { phase: Phase::AwaitingCompletion { output, index }, shader: driver.shader },
            seq![ActionView::Poll(PollType::WaitForSubmissionIndex(index))],
        ),
        (Phase::AwaitingCompletion { output, index }, EventView::PollSucceeded) => (
            Driver { phase: Phase::Draining { reported: false }, shader: driver.shader },
            readback_actions(output),
        ),
        (Phase::AwaitingCompletion { output, index }, EventView::PollFailed { message }) => (
            Driver { phase: Phase::Finished, shader: driver.shader },
            seq![ActionView::Exit(Err(FailureView::Poll { message }))],
        ),
        (Phase::Draining { reported: false }, EventView::MapSucceeded { bytes }) => (
            Driver { phase: Phase::Draining { reported: true }, shader: driver.shader },
            seq![ActionView::Write { stream: Stream::Stdout, line: dump(bytes) }],
        ),
        (Phase::Draining { reported: false }, EventView::MapFailed { message }) => (
            Driver { phase: Phase::Draining { reported: true }, shader: driver.shader },
            seq![ActionView::Write { stream: Stream::Stderr, line: message }],
        ),
        (Phase::Draining { reported }, EventView::PollSucceeded) => (
            Driver { phase: Phase::Finished, shader: driver.shader },
            seq![ActionView::Exit(Ok(()))],
        ),
        (Phase::Draining { reported }, EventView::PollFailed { message }) => (
            Driver { phase: Phase::Finished, shader: driver.shader },
            seq![ActionView::Exit(Err(FailureView::Poll { message }))],
        ),
        _ => (driver, Seq::<ActionView>::empty()),
    }
}

/// The state after all of `events`, taken in order, and all that was to be
/// done on the way.
pub open spec fn driver_run(driver: Driver, events: Seq<EventView>) -> (Driver, Seq<ActionView>)
    decreases events.len(),
{
    if events.len() == 0 {
        (driver, Seq::<ActionView>::empty())
    } else {
        let (next, actions) = driver_step(driver, events[0]);
        let (last, rest) = driver_run(next, events.drop_first());
        (last, actions + rest)
    }
}

/// Everything a run over `events` asks for, from the first request on.
pub open spec fn trace(shader: &'static str, events: Seq<EventView>) -> Seq<ActionView> {
    first_actions() + driver_run(
        Driver { phase: Phase::Initializing(InitState::AwaitingAdapter), shader },
        events,
    ).1
}

fn dispatch(shader: &'static str) -> (begin: (Buffer, Vec<Action>))
    ensures
        begin.0 == output_buffer(),
        action_views(begin.1@) == dispatch_actions(shader),
{
    let mut device = Device::new();
    let output = device.create_buffer(&output_buffer_descriptor());
    let commands = construct_compute_shader(&mut device, &output, shader);
    assert(device@ =~= seq![ResourceView::Buffer(output_descriptor())] + assembled(
        1,
        output_buffer(),
        shader,
    ));
    (output, vec![Action::Create(device.into_resources()), Action::Submit(commands)])
}

fn readback(output: Buffer) -> (actions: Vec<Action>)
    ensures
        action_views(actions@) == readback_actions(output),
{
    vec![
        Action::Write { stream: Stream::Stdout, line: marker_line() },
        Action::MapAsync { buffer: output, mode: MapMode::Read, offset: 0, size: None },
        Action::Poll(PollType::Wait),
    ]
}

fn only(action: Action) -> (actions: Vec<Action>)
    ensures
        action_views(actions@) == seq![action@],
{
    vec![action]
}

fn nothing() -> (actions: Vec<Action>)
    ensures
        action_views(actions@) == Seq::<ActionView>::empty(),
{
    Vec::new()
}

impl Driver {
    /// Begins a run of `shader`: the state to start from and the first
    /// things to do.
    pub fn start(shader: &'static str) -> (begin: (Driver, Vec<Action>))
        ensures
            begin.0 == (Driver { phase: Phase::Initializing(InitState::AwaitingAdapter), shader }),
            action_views(begin.1@) == first_actions(),
    {
        let (state, requests) = initialize_gpu();
        let mut actions: Vec<Action> = Vec::new();
        let mut i: usize = 0;
        while i < requests.len()
            invariant
                i <= requests.len(),
                requests@ == first_requests(),
                action_views(actions@) == first_actions().take(i as int),
            decreases requests.len() - i,
        {
            actions.push(Action::Init(requests[i]));
            assert(first_actions().take(i + 1) =~= first_actions().take(i as int).push(
                first_actions()[i as int],
            ));
            i += 1;
        }
        (Driver { phase: Phase::Initializing(state), shader }, actions)
    }

    /// Whether the run is over.
    pub fn is_finished(&self) -> (finished: bool)
        ensures
            finished == (self.phase == Phase::Finished),
    {
        match self.phase {
            Phase::Finished => true,
            _ => false,
        }
    }

    /// Takes `event`: the state it leads to and what is to be done next, in
    /// order.
    pub fn step(self, event: Event) -> (next: (Driver, Vec<Action>))
        ensures
            (next.0, action_views(next.1@)) == driver_step(self, event@),
    {
        let shader = self.shader;
        match self.phase {
            Phase::Initializing(state) => match event {
                Event::Init(answer) => if state.outcome().is_some() {
                    (self, nothing())
                } else {
                    let (next, request) = state.step(answer);
                    match next {
                        InitState::Ready => {
                            let (output, actions) = dispatch(shader);
                            (Driver { phase: Phase::AwaitingSubmission { output }, shader }, actions)
                        },
                        InitState::Failed(error) => (
                            Driver { phase: Phase::Finished, shader },
                            only(Action::Exit(Err(Failure::Initialize(error)))),
                        ),
                        _ => {
                            let actions = match request {
                                Some(action) => only(Action::Init(action)),
                                None => nothing(),
                            };
                            (Driver { phase: Phase::Initializing(next), shader }, actions)
                        },
                    }
                },
                _ => (self, nothing()),
            },
            Phase::AwaitingSubmission { output } => match event {
                Event::Submitted { index } => (
                    Driver { phase: Phase::AwaitingCompletion { output, index }, shader },
                    only(Action::Poll(PollType::WaitForSubmissionIndex(index))),
                ),
                _ => (self, nothing()),
            },
            Phase::AwaitingCompletion { output, index } => match event {
                Event::PollSucceeded => (
                    Driver { phase: Phase::Draining { reported: false }, shader },
                    readback(output),
                ),
                Event::PollFailed { message } => (
                    Driver { phase: Phase::Finished, shader },
                    only(Action::Exit(Err(Failure::Poll { message }))),
                ),
                _ => (self, nothing()),
            },
            Phase::Draining { reported } => match event {
                Event::MapSucceeded { bytes } => {
                    if reported {
                        (self, nothing())
                    } else {
                        let line = dump_bytes(bytes.as_slice());
                        (
                            Driver { phase: Phase::Draining { reported: true }, shader },
                            only(Action::Write { stream: Stream::Stdout, line }),
                        )
                    }
                },
                Event::MapFailed { message } => {
                    if reported {
                        (self, nothing())
                    } else {
                        (
                            Driver { phase: Phase::Draining { reported: true }, shader },
                            only(Action::Write { stream: Stream::Stderr, line: message }),
                        )
                    }
                },
                Event::PollSucceeded => (
                    Driver { phase: Phase::Finished, shader },
                    only(Action::Exit(Ok(()))),
                ),
                Event::PollFailed { message } => (
                    Driver { phase: Phase::Finished, shader },
                    only(Action::Exit(Err(Failure::Poll { message }))),
                ),
                _ => (self, nothing()),
            },
            Phase::Finished => (self, nothing()),
        }
    }
}

} // verus!
