use gpu_dispatch::command::Command;
use gpu_dispatch::config::{
    AdapterOptions, DeviceOptions, Features, Limits, MemoryHints, PowerPreference, Trace,
};
use gpu_dispatch::driver::{
    exit_code, output_buffer_descriptor, Action, Driver, Event, Failure, MapMode, Phase, PollType,
    OUTPUT_WORDS,
};
use gpu_dispatch::error::InitializeError;
use gpu_dispatch::init::{InitAction, InitEvent, InitState};
use gpu_dispatch::report::Stream;
use gpu_dispatch::resource::{Buffer, BufferUsages, Resource};
use gpu_dispatch::run::real_main;

const SHADER: &str = "@compute @workgroup_size(1) fn main() {}";

/// Runs the driver over `events` and returns all that it asked for.
fn run(events: Vec<Event>) -> (Driver, Vec<Action>) {
    let (mut driver, mut trace) = Driver::start(SHADER);
    for event in events {
        let (next, actions) = driver.step(event);
        driver = next;
        trace.extend(actions);
    }
    (driver, trace)
}

fn lines(trace: &[Action], wanted: Stream) -> Vec<String> {
    let mut found = Vec::new();
    for action in trace {
        if let Action::Write { stream, line } = action {
            if *stream == wanted {
                found.push(line.clone());
            }
        }
    }
    found
}

fn count(trace: &[Action], wanted: fn(&Action) -> bool) -> usize {
    trace.iter().filter(|action| wanted(action)).count()
}

fn is_submit(action: &Action) -> bool {
    matches!(action, Action::Submit(_))
}

fn is_create(action: &Action) -> bool {
    matches!(action, Action::Create(_))
}

fn readback_events(index: u64, mapped: Event) -> Vec<Event> {
    vec![
        Event::Init(InitEvent::AdapterAcquired),
        Event::Init(InitEvent::DeviceAcquired),
        Event::Submitted { index },
        Event::PollSucceeded,
        mapped,
        Event::PollSucceeded,
    ]
}

fn output_buffer() -> Buffer {
    Buffer {
        index: 0,
        size: 48,
        usage: BufferUsages::map_read().union(BufferUsages::copy_dst()),
    }
}

#[test]
fn a_run_begins_with_the_instance_and_the_adapter_request() {
    let (driver, actions) = Driver::start(SHADER);
    assert_eq!(driver.phase, Phase::Initializing(InitState::AwaitingAdapter));
    assert_eq!(driver.shader, SHADER);
    assert!(!driver.is_finished());
    assert_eq!(
        actions,
        vec![
            Action::Init(InitAction::CreateInstance),
            Action::Init(InitAction::RequestAdapter(AdapterOptions {
                power_preference: PowerPreference::HighPerformance,
                force_fallback_adapter: false,
                compatible_surface: None,
            })),
        ]
    );
}

#[test]
fn adapter_found_asks_for_the_device() {
    let (driver, _) = Driver::start(SHADER);
    let (driver, actions) = driver.step(Event::Init(InitEvent::AdapterAcquired));
    assert_eq!(driver.phase, Phase::Initializing(InitState::AwaitingDevice));
    assert_eq!(
        actions,
        vec![Action::Init(InitAction::RequestDevice(DeviceOptions {
            label: "device",
            required_features: Features { webgpu: 0, native: 0 },
            required_limits: Limits::DownlevelDefaults,
            memory_hints: MemoryHints::Performance,
            trace: Trace::Off,
        }))]
    );
}

#[test]
fn happy_path_prints_marker_then_dump_and_exits_with_zero() {
    let bytes: Vec<u8> = (0u8..48).collect();
    let (driver, trace) = run(readback_events(7, Event::MapSucceeded { bytes: bytes.clone() }));
    assert!(driver.is_finished());
    assert_eq!(
        lines(&trace, Stream::Stdout),
        vec!["GPU Completed".to_string(), format!("{:?}", bytes)]
    );
    assert!(lines(&trace, Stream::Stderr).is_empty());
    let Some(Action::Exit(outcome)) = trace.last() else { panic!("expected an exit") };
    assert_eq!(*outcome, Ok(()));
    assert_eq!(exit_code(outcome), 0);
}

#[test]
fn happy_path_asks_for_everything_in_order() {
    let (_, trace) = run(readback_events(3, Event::MapSucceeded { bytes: vec![0; 48] }));
    assert_eq!(trace.len(), 11);
    assert!(matches!(trace[0], Action::Init(InitAction::CreateInstance)));
    assert!(matches!(trace[1], Action::Init(InitAction::RequestAdapter(_))));
    assert!(matches!(trace[2], Action::Init(InitAction::RequestDevice(_))));
    assert!(matches!(trace[3], Action::Create(_)));
    assert!(matches!(trace[4], Action::Submit(_)));
    assert_eq!(trace[5], Action::Poll(PollType::WaitForSubmissionIndex(3)));
    assert_eq!(
        trace[6],
        Action::Write { stream: Stream::Stdout, line: "GPU Completed".to_string() }
    );
    assert_eq!(
        trace[7],
        Action::MapAsync { buffer: output_buffer(), mode: MapMode::Read, offset: 0, size: None }
    );
    assert_eq!(trace[8], Action::Poll(PollType::Wait));
    assert!(matches!(trace[9], Action::Write { stream: Stream::Stdout, .. }));
    assert_eq!(trace[10], Action::Exit(Ok(())));
}

#[test]
fn output_buffer_holds_twelve_words_and_is_created_first() {
    let desc = output_buffer_descriptor();
    assert_eq!(OUTPUT_WORDS, 12);
    assert_eq!(desc.size, 48);
    assert_eq!(desc.label, Some("output-buffer"));
    assert!(desc.usage.map_read && desc.usage.copy_dst);
    assert!(!desc.usage.storage && !desc.usage.copy_src && !desc.usage.map_write);
    assert!(!desc.mapped_at_creation);

    let (_, trace) = run(vec![
        Event::Init(InitEvent::AdapterAcquired),
        Event::Init(InitEvent::DeviceAcquired),
    ]);
    let Action::Create(resources) = &trace[3] else { panic!("expected the creations") };
    assert_eq!(resources.len(), 7);
    assert_eq!(resources[0], Resource::Buffer(desc));
    let Resource::Buffer(intermediate) = &resources[1] else { panic!("expected a buffer") };
    assert_eq!(intermediate.size, 48);
    let Action::Submit(commands) = &trace[4] else { panic!("expected the submission") };
    let Command::CopyBufferToBuffer { destination, size, .. } = &commands.commands[1] else {
        panic!("expected the copy")
    };
    assert_eq!((*destination, *size), (output_buffer(), 48));
}

#[test]
fn the_poll_waits_for_the_index_that_the_submission_got() {
    for index in [0u64, 1, 41, u64::MAX] {
        let (driver, trace) = run(vec![
            Event::Init(InitEvent::AdapterAcquired),
            Event::Init(InitEvent::DeviceAcquired),
            Event::Submitted { index },
        ]);
        assert_eq!(driver.phase, Phase::AwaitingCompletion { output: output_buffer(), index });
        assert_eq!(trace.last(), Some(&Action::Poll(PollType::WaitForSubmissionIndex(index))));
    }
}

#[test]
fn no_adapter_fails_without_touching_the_gpu() {
    let (driver, trace) = run(vec![Event::Init(InitEvent::AdapterUnavailable)]);
    assert!(driver.is_finished());
    assert_eq!(trace.len(), 3);
    let Action::Exit(outcome) = &trace[2] else { panic!("expected an exit") };
    assert_eq!(*outcome, Err(Failure::Initialize(InitializeError::NoAdapter)));
    assert_ne!(exit_code(outcome), 0);
    assert_eq!(outcome.as_ref().unwrap_err().message(), "Unable to find GPU adapter!");
    assert_eq!(count(&trace, is_create), 0);
    assert_eq!(count(&trace, is_submit), 0);
    assert!(!trace.iter().any(|action| matches!(action, Action::Init(InitAction::RequestDevice(_)))));
}

#[test]
fn device_denied_fails_without_touching_the_gpu() {
    let (driver, trace) = run(vec![
        Event::Init(InitEvent::AdapterAcquired),
        Event::Init(InitEvent::DeviceRefused),
    ]);
    assert!(driver.is_finished());
    assert_eq!(trace.len(), 4);
    let Action::Exit(outcome) = &trace[3] else { panic!("expected an exit") };
    assert_eq!(*outcome, Err(Failure::Initialize(InitializeError::NoDevice)));
    assert_eq!(exit_code(outcome), 1);
    assert_eq!(outcome.as_ref().unwrap_err().message(), "Unable to find GPU device!");
    assert_eq!(count(&trace, is_create), 0);
    assert_eq!(count(&trace, is_submit), 0);
}

#[test]
fn mapping_failure_writes_one_line_to_stderr_and_exits_with_zero() {
    let (driver, trace) = run(readback_events(
        0,
        Event::MapFailed { message: "Buffer map failed".to_string() },
    ));
    assert!(driver.is_finished());
    assert_eq!(lines(&trace, Stream::Stderr), vec!["Buffer map failed".to_string()]);
    assert_eq!(lines(&trace, Stream::Stdout), vec!["GPU Completed".to_string()]);
    let Some(Action::Exit(outcome)) = trace.last() else { panic!("expected an exit") };
    assert_eq!(*outcome, Ok(()));
    assert_eq!(exit_code(outcome), 0);
}

#[test]
fn a_run_submits_once() {
    let (_, trace) = run(readback_events(5, Event::MapSucceeded { bytes: vec![1; 48] }));
    assert_eq!(count(&trace, is_submit), 1);
    assert_eq!(count(&trace, is_create), 1);
}

#[test]
fn repeated_and_stray_events_never_cause_a_second_submission() {
    let mut events = Vec::new();
    for _ in 0..3 {
        events.push(Event::Init(InitEvent::AdapterAcquired));
        events.push(Event::Init(InitEvent::DeviceAcquired));
        events.push(Event::Submitted { index: 1 });
        events.push(Event::Init(InitEvent::DeviceAcquired));
        events.push(Event::PollSucceeded);
        events.push(Event::Submitted { index: 2 });
    }
    let (_, trace) = run(events);
    assert_eq!(count(&trace, is_submit), 1);
    assert_eq!(count(&trace, is_create), 1);
}

#[test]
fn failed_poll_for_the_submission_ends_the_run_in_failure() {
    let (driver, trace) = run(vec![
        Event::Init(InitEvent::AdapterAcquired),
        Event::Init(InitEvent::DeviceAcquired),
        Event::Submitted { index: 0 },
        Event::PollFailed { message: "device lost".to_string() },
    ]);
    assert!(driver.is_finished());
    let Some(Action::Exit(outcome)) = trace.last() else { panic!("expected an exit") };
    assert_eq!(*outcome, Err(Failure::Poll { message: "device lost".to_string() }));
    assert_eq!(exit_code(outcome), 1);
    assert_eq!(outcome.as_ref().unwrap_err().message(), "device lost");
    assert!(lines(&trace, Stream::Stdout).is_empty());
}

#[test]
fn failed_last_poll_ends_the_run_in_failure_after_the_marker() {
    let (driver, trace) = run(vec![
        Event::Init(InitEvent::AdapterAcquired),
        Event::Init(InitEvent::DeviceAcquired),
        Event::Submitted { index: 0 },
        Event::PollSucceeded,
        Event::PollFailed { message: "timed out".to_string() },
    ]);
    assert!(driver.is_finished());
    assert_eq!(lines(&trace, Stream::Stdout), vec!["GPU Completed".to_string()]);
    assert_eq!(
        trace.last(),
        Some(&Action::Exit(Err(Failure::Poll { message: "timed out".to_string() })))
    );
}

#[test]
fn the_mapping_callback_is_reported_once() {
    let (driver, trace) = run(vec![
        Event::Init(InitEvent::AdapterAcquired),
        Event::Init(InitEvent::DeviceAcquired),
        Event::Submitted { index: 0 },
        Event::PollSucceeded,
        Event::MapFailed { message: "first".to_string() },
        Event::MapSucceeded { bytes: vec![9; 48] },
        Event::MapFailed { message: "second".to_string() },
    ]);
    assert_eq!(driver.phase, Phase::Draining { reported: true });
    assert_eq!(lines(&trace, Stream::Stderr), vec!["first".to_string()]);
    assert_eq!(lines(&trace, Stream::Stdout), vec!["GPU Completed".to_string()]);
}

#[test]
fn events_that_nothing_waits_for_change_nothing() {
    let (driver, _) = Driver::start(SHADER);
    for event in [
        Event::Submitted { index: 0 },
        Event::PollSucceeded,
        Event::PollFailed { message: "x".to_string() },
        Event::MapSucceeded { bytes: vec![] },
        Event::MapFailed { message: "y".to_string() },
        Event::Init(InitEvent::DeviceAcquired),
        Event::Init(InitEvent::DeviceRefused),
    ] {
        let (next, actions) = driver.step(event);
        assert_eq!(next, driver);
        assert!(actions.is_empty());
    }
}

#[test]
fn initialization_that_has_ended_takes_no_further_answer() {
    for state in [InitState::Ready, InitState::Failed(InitializeError::NoDevice)] {
        let driver = Driver { phase: Phase::Initializing(state), shader: SHADER };
        for answer in [
            InitEvent::AdapterAcquired,
            InitEvent::AdapterUnavailable,
            InitEvent::DeviceAcquired,
            InitEvent::DeviceRefused,
        ] {
            let (next, actions) = driver.step(Event::Init(answer));
            assert_eq!(next, driver);
            assert!(actions.is_empty());
        }
    }
}

#[test]
fn real_main_asks_for_what_stepping_asks_for() {
    let runs = vec![
        vec![],
        vec![Event::Init(InitEvent::AdapterUnavailable)],
        vec![Event::Init(InitEvent::AdapterAcquired), Event::Init(InitEvent::DeviceRefused)],
        readback_events(2, Event::MapSucceeded { bytes: vec![3; 48] }),
        readback_events(0, Event::MapFailed { message: "lost".to_string() }),
        vec![
            Event::PollSucceeded,
            Event::Init(InitEvent::AdapterAcquired),
            Event::Submitted { index: 4 },
            Event::Init(InitEvent::DeviceAcquired),
            Event::MapSucceeded { bytes: vec![] },
            Event::Submitted { index: 5 },
            Event::PollFailed { message: "gone".to_string() },
            Event::PollSucceeded,
        ],
    ];
    for events in runs {
        let (_, stepped) = run(events.clone());
        assert_eq!(real_main(SHADER, events), stepped);
    }
}

#[test]
fn real_main_of_the_happy_path() {
    let trace = real_main(SHADER, readback_events(9, Event::MapSucceeded { bytes: vec![255; 48] }));
    assert_eq!(trace.len(), 11);
    assert_eq!(count(&trace, is_submit), 1);
    assert_eq!(
        lines(&trace, Stream::Stdout),
        vec!["GPU Completed".to_string(), format!("{:?}", [255u8; 48])]
    );
    assert_eq!(trace.last(), Some(&Action::Exit(Ok(()))));
}

#[test]
fn real_main_without_events_only_begins() {
    let trace = real_main(SHADER, vec![]);
    assert_eq!(trace.len(), 2);
    assert_eq!(trace[0], Action::Init(InitAction::CreateInstance));
    assert!(matches!(trace[1], Action::Init(InitAction::RequestAdapter(_))));
}

#[test]
fn a_finished_run_stays_finished() {
    let (driver, _) = run(vec![Event::Init(InitEvent::AdapterUnavailable)]);
    for event in [
        Event::Init(InitEvent::AdapterAcquired),
        Event::Init(InitEvent::DeviceAcquired),
        Event::Submitted { index: 0 },
        Event::PollSucceeded,
        Event::MapSucceeded { bytes: vec![0; 48] },
    ] {
        let (next, actions) = driver.step(event);
        assert_eq!(next.phase, Phase::Finished);
        assert!(actions.is_empty());
    }
}
