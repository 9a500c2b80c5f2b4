//! What holds of whole runs, whatever the outside answers.

use crate::config::spec_device_options;
use crate::driver::{
    action_views, dispatch_actions, driver_run, driver_step, exit_code_of, failure_text,
    first_actions, output_buffer, readback_actions, trace, Action, ActionView, Driver, Event,
    EventView, FailureView, Phase, PollType,
};
use crate::error::InitializeError;
use crate::init::{InitAction, InitEvent, InitState};
use crate::report::{commas, completion_marker, dump, lemma_dump_shape, Stream};
use vstd::prelude::*;

verus! {

/// Picks the submissions among actions.
pub open spec fn is_submission() -> spec_fn(ActionView) -> bool {
    |action: ActionView| action is Submit
}

/// Picks the creations of GPU objects among actions.
pub open spec fn is_creation() -> spec_fn(ActionView) -> bool {
    |action: ActionView| action is Create
}

/// Picks the lines written to `stream` among actions.
pub open spec fn writes_to(stream: Stream) -> spec_fn(ActionView) -> bool {
    |action: ActionView| action matches ActionView::Write { stream: to, .. } && to == stream
}

/// How many command buffers `actions` submit.
pub open spec fn submissions(actions: Seq<ActionView>) -> nat {
    actions.filter(is_submission()).len()
}

/// How many times `actions` create GPU objects.
pub open spec fn creations(actions: Seq<ActionView>) -> nat {
    actions.filter(is_creation()).len()
}

/// The lines that `actions` write to `stream`, in order.
pub open spec fn written(actions: Seq<ActionView>, stream: Stream) -> Seq<Seq<char>> {
    actions.filter(writes_to(stream)).map_values(|action: ActionView| action->Write_line)
}

/// The state in which every run begins.
pub open spec fn initial(shader: &'static str) -> Driver {
    Driver { phase: Phase::Initializing(InitState::AwaitingAdapter), shader }
}

proof fn lemma_filter_push(
    actions: Seq<ActionView>,
    action: ActionView,
    wanted: spec_fn(ActionView) -> bool,
)
    ensures
        actions.push(action).filter(wanted) == if wanted(action) {
            actions.filter(wanted).push(action)
        } else {
            actions.filter(wanted)
        },
{
    reveal(Seq::filter);
    assert(actions.push(action).drop_last() =~= actions);
}

proof fn lemma_filter_empty(wanted: spec_fn(ActionView) -> bool)
    ensures
        Seq::<ActionView>::empty().filter(wanted) == Seq::<ActionView>::empty(),
{
    reveal(Seq::filter);
}

proof fn lemma_written_concat(first: Seq<ActionView>, second: Seq<ActionView>, stream: Stream)
    ensures
        written(first + second, stream) == written(first, stream) + written(second, stream),
{
    Seq::filter_distributes_over_add(first, second, writes_to(stream));
    assert(written(first + second, stream) =~= written(first, stream) + written(
        second,
        stream,
    ));
}

proof fn lemma_count_concat(
    first: Seq<ActionView>,
    second: Seq<ActionView>,
    wanted: spec_fn(ActionView) -> bool,
)
    ensures
        (first + second).filter(wanted).len() == first.filter(wanted).len() + second.filter(
            wanted,
        ).len(),
{
    Seq::filter_distributes_over_add(first, second, wanted);
}

proof fn lemma_filter_one(action: ActionView, wanted: spec_fn(ActionView) -> bool)
    ensures
        seq![action].filter(wanted) == if wanted(action) {
            seq![action]
        } else {
            Seq::<ActionView>::empty()
        },
{
    lemma_filter_empty(wanted);
    lemma_filter_push(Seq::<ActionView>::empty(), action, wanted);
}

proof fn lemma_first_actions()
    ensures
        first_actions() == seq![
            ActionView::Init(InitAction::CreateInstance),
            ActionView::Init(InitAction::RequestAdapter(crate::config::spec_adapter_options())),
        ],
        submissions(first_actions()) == 0,
        creations(first_actions()) == 0,
        forall|stream: Stream| written(first_actions(), stream) == Seq::<Seq<char>>::empty(),
{
    let create = ActionView::Init(InitAction::CreateInstance);
    let request = ActionView::Init(
        InitAction::RequestAdapter(crate::config::spec_adapter_options()),
    );
    assert(first_actions() =~= seq![create].push(request));
    lemma_filter_one(create, is_submission());
    lemma_filter_push(seq![create], request, is_submission());
    lemma_filter_one(create, is_creation());
    lemma_filter_push(seq![create], request, is_creation());
    assert forall|stream: Stream| written(first_actions(), stream) == Seq::<
        Seq<char>,
    >::empty() by {
        lemma_filter_one(create, writes_to(stream));
        lemma_filter_push(seq![create], request, writes_to(stream));
    }
}

proof fn lemma_dispatch_actions(shader: &'static str)
    ensures
        submissions(dispatch_actions(shader)) == 1,
        creations(dispatch_actions(shader)) == 1,
        forall|stream: Stream| written(dispatch_actions(shader), stream) == Seq::<Seq<char>>::empty(),
{
    let actions = dispatch_actions(shader);
    let create = actions[0];
    let submit = actions[1];
    assert(actions =~= seq![create].push(submit));
    lemma_filter_one(create, is_submission());
    lemma_filter_push(seq![create], submit, is_submission());
    lemma_filter_one(create, is_creation());
    lemma_filter_push(seq![create], submit, is_creation());
    assert forall|stream: Stream| written(dispatch_actions(shader), stream) == Seq::<
        Seq<char>,
    >::empty() by {
        lemma_filter_one(create, writes_to(stream));
        lemma_filter_push(seq![create], submit, writes_to(stream));
    }
}

proof fn lemma_readback_actions(output: crate::resource::Buffer)
    ensures
        submissions(readback_actions(output)) == 0,
        creations(readback_actions(output)) == 0,
        written(readback_actions(output), Stream::Stdout) == seq![completion_marker()],
        written(readback_actions(output), Stream::Stderr) == Seq::<Seq<char>>::empty(),
{
    let actions = readback_actions(output);
    let write = actions[0];
    let map = actions[1];
    let poll = actions[2];
    assert(actions =~= seq![write].push(map).push(poll));
    lemma_filter_one(write, is_submission());
    lemma_filter_push(seq![write], map, is_submission());
    lemma_filter_push(seq![write].push(map), poll, is_submission());
    lemma_filter_one(write, is_creation());
    lemma_filter_push(seq![write], map, is_creation());
    lemma_filter_push(seq![write].push(map), poll, is_creation());
    lemma_filter_one(write, writes_to(Stream::Stdout));
    lemma_filter_push(seq![write], map, writes_to(Stream::Stdout));
    lemma_filter_push(seq![write].push(map), poll, writes_to(Stream::Stdout));
    lemma_filter_one(write, writes_to(Stream::Stderr));
    lemma_filter_push(seq![write], map, writes_to(Stream::Stderr));
    lemma_filter_push(seq![write].push(map), poll, writes_to(Stream::Stderr));
}

proof fn lemma_single_action(action: ActionView)
    ensures
        submissions(seq![action]) == if action is Submit {
            1nat
        } else {
            0nat
        },
        creations(seq![action]) == if action is Create {
            1nat
        } else {
            0nat
        },
        forall|stream: Stream|
            #[trigger] written(seq![action], stream) == if (writes_to(stream))(action) {
                seq![action->Write_line]
            } else {
                Seq::<Seq<char>>::empty()
            },
{
    lemma_filter_one(action, is_submission());
    lemma_filter_one(action, is_creation());
    assert forall|stream: Stream|
        #[trigger] written(seq![action], stream) == if (writes_to(stream))(action) {
            seq![action->Write_line]
        } else {
            Seq::<Seq<char>>::empty()
        } by {
        lemma_filter_one(action, writes_to(stream));
    }
}

proof fn lemma_no_action()
    ensures
        submissions(Seq::<ActionView>::empty()) == 0,
        creations(Seq::<ActionView>::empty()) == 0,
        forall|stream: Stream|
            #[trigger] written(Seq::<ActionView>::empty(), stream) == Seq::<Seq<char>>::empty(),
{
    lemma_filter_empty(is_submission());
    lemma_filter_empty(is_creation());
    assert forall|stream: Stream|
        #[trigger] written(Seq::<ActionView>::empty(), stream) == Seq::<Seq<char>>::empty() by {
        lemma_filter_empty(writes_to(stream));
    }
}

/// How many submissions a run in `phase` may still make.
pub open spec fn submissions_due(phase: Phase) -> nat {
    if phase is Initializing {
        1
    } else {
        0
    }
}

proof fn lemma_step_submissions(driver: Driver, event: EventView)
    ensures
        submissions(driver_step(driver, event).1) + submissions_due(
            driver_step(driver, event).0.phase,
        ) <= submissions_due(driver.phase),
{
    let (next, actions) = driver_step(driver, event);
    lemma_no_action();
    if actions.len() == 1 {
        lemma_single_action(actions[0]);
    } else if actions.len() == 2 {
        lemma_dispatch_actions(driver.shader);
    } else if actions.len() == 3 {
        match driver.phase {
            Phase::AwaitingCompletion { output, index } => {
                lemma_readback_actions(output);
            },
            _ => {},
        }
    }
}

proof fn lemma_run_submissions(driver: Driver, events: Seq<EventView>)
    ensures
        submissions(driver_run(driver, events).1) <= submissions_due(driver.phase),
    decreases events.len(),
{
    if events.len() == 0 {
        lemma_no_action();
    } else {
        let (next, actions) = driver_step(driver, events[0]);
        lemma_step_submissions(driver, events[0]);
        lemma_run_submissions(next, events.drop_first());
        lemma_count_concat(actions, driver_run(next, events.drop_first()).1, is_submission());
    }
}

/// Whatever the outside answers, a run submits at most one command buffer.
pub proof fn lemma_at_most_one_submission(shader: &'static str, events: Seq<EventView>)
    ensures
        submissions(trace(shader, events)) <= 1,
{
    lemma_first_actions();
    lemma_run_submissions(initial(shader), events);
    lemma_count_concat(first_actions(), driver_run(initial(shader), events).1, is_submission());
}

/// A run over a first event and more is the step for the first event,
/// followed by the run over the rest.
pub proof fn lemma_run_unfolds(driver: Driver, event: EventView, rest: Seq<EventView>)
    ensures
        driver_run(driver, seq![event] + rest) == (
            driver_run(driver_step(driver, event).0, rest).0,
            driver_step(driver, event).1 + driver_run(driver_step(driver, event).0, rest).1,
        ),
{
    assert((seq![event] + rest).drop_first() =~= rest);
}

/// A run that is over stays over: no event moves it, and it asks for
/// nothing more.
pub proof fn lemma_finished_is_final(driver: Driver, events: Seq<EventView>)
    requires
        driver.phase == Phase::Finished,
    ensures
        driver_run(driver, events) == (driver, Seq::<ActionView>::empty()),
    decreases events.len(),
{
    if events.len() > 0 {
        lemma_finished_is_final(driver, events.drop_first());
    }
}

/// What a run asks for when the adapter grants the device, the submission
/// completes and the mapping callback runs before the last poll returns
/// without error: all the way from the first request to a successful exit,
/// with `report` as the one line that the callback causes.
pub open spec fn completed_trace(shader: &'static str, index: u64, report: ActionView) -> Seq<
    ActionView,
> {
    first_actions() + seq![ActionView::Init(InitAction::RequestDevice(spec_device_options()))]
        + dispatch_actions(shader) + seq![
        ActionView::Poll(PollType::WaitForSubmissionIndex(index)),
    ] + readback_actions(output_buffer()) + seq![report, ActionView::Exit(Ok(()))]
}

/// The events of a run in which the adapter grants the device, the
/// submission gets `index` and completes, the mapping callback brings
/// `mapped`, and the last poll returns without error.
pub open spec fn completed_events(index: u64, mapped: EventView) -> Seq<EventView> {
    seq![
        EventView::Init(InitEvent::AdapterAcquired),
        EventView::Init(InitEvent::DeviceAcquired),
        EventView::Submitted { index },
        EventView::PollSucceeded,
        mapped,
        EventView::PollSucceeded,
    ]
}

spec fn mapping_report(mapped: EventView) -> ActionView {
    match mapped {
        EventView::MapSucceeded { bytes } => ActionView::Write {
            stream: Stream::Stdout,
            line: dump(bytes),
        },
        EventView::MapFailed { message } => ActionView::Write {
            stream: Stream::Stderr,
            line: message,
        },
        _ => ActionView::Write { stream: Stream::Stderr, line: Seq::<char>::empty() },
    }
}

proof fn lemma_completed_run(
    shader: &'static str,
    index: u64,
    mapped: EventView,
    later: Seq<EventView>,
)
    requires
        mapped is MapFailed || mapped is MapSucceeded,
    ensures
        trace(shader, completed_events(index, mapped) + later) == completed_trace(
            shader,
            index,
            mapping_report(mapped),
        ),
{
    let events = completed_events(index, mapped) + later;
    let e0 = events[0];
    let e1 = events[1];
    let e2 = events[2];
    let e3 = events[3];
    let e4 = events[4];
    let e5 = events[5];
    let r5 = later;
    let r4 = seq![e5] + r5;
    let r3 = seq![e4] + r4;
    let r2 = seq![e3] + r3;
    let r1 = seq![e2] + r2;
    let r0 = seq![e1] + r1;
    assert(events =~= seq![e0] + r0);
    let d0 = initial(shader);
    let d1 = driver_step(d0, e0).0;
    let d2 = driver_step(d1, e1).0;
    let d3 = driver_step(d2, e2).0;
    let d4 = driver_step(d3, e3).0;
    let d5 = driver_step(d4, e4).0;
    let d6 = driver_step(d5, e5).0;
    lemma_run_unfolds(d0, e0, r0);
    lemma_run_unfolds(d1, e1, r1);
    lemma_run_unfolds(d2, e2, r2);
    lemma_run_unfolds(d3, e3, r3);
    lemma_run_unfolds(d4, e4, r4);
    lemma_run_unfolds(d5, e5, r5);
    lemma_finished_is_final(d6, later);
}

proof fn lemma_completed_trace(shader: &'static str, index: u64, report: ActionView)
    requires
        report is Write,
    ensures
        submissions(completed_trace(shader, index, report)) == 1,
        creations(completed_trace(shader, index, report)) == 1,
        forall|stream: Stream|
            #[trigger] written(completed_trace(shader, index, report), stream) == written(
                readback_actions(output_buffer()),
                stream,
            ) + written(seq![report], stream),
        completed_trace(shader, index, report).last() == ActionView::Exit(Ok(())),
{
    let a = first_actions();
    let b = seq![ActionView::Init(InitAction::RequestDevice(spec_device_options()))];
    let c = dispatch_actions(shader);
    let d = seq![ActionView::Poll(PollType::WaitForSubmissionIndex(index))];
    let e = readback_actions(output_buffer());
    let f = seq![report];
    let g = seq![ActionView::Exit(Ok(()))];
    let whole = completed_trace(shader, index, report);
    assert(whole =~= a + b + c + d + e + f + g);
    lemma_first_actions();
    lemma_single_action(b[0]);
    lemma_dispatch_actions(shader);
    lemma_single_action(d[0]);
    lemma_readback_actions(output_buffer());
    lemma_single_action(report);
    lemma_single_action(g[0]);
    lemma_count_concat(a, b, is_submission());
    lemma_count_concat(a + b, c, is_submission());
    lemma_count_concat(a + b + c, d, is_submission());
    lemma_count_concat(a + b + c + d, e, is_submission());
    lemma_count_concat(a + b + c + d + e, f, is_submission());
    lemma_count_concat(a + b + c + d + e + f, g, is_submission());
    lemma_count_concat(a, b, is_creation());
    lemma_count_concat(a + b, c, is_creation());
    lemma_count_concat(a + b + c, d, is_creation());
    lemma_count_concat(a + b + c + d, e, is_creation());
    lemma_count_concat(a + b + c + d + e, f, is_creation());
    lemma_count_concat(a + b + c + d + e + f, g, is_creation());
    assert forall|stream: Stream|
        #[trigger] written(whole, stream) == written(e, stream) + written(f, stream) by {
        lemma_written_concat(a, b, stream);
        lemma_written_concat(a + b, c, stream);
        lemma_written_concat(a + b + c, d, stream);
        lemma_written_concat(a + b + c + d, e, stream);
        lemma_written_concat(a + b + c + d + e, f, stream);
        lemma_written_concat(a + b + c + d + e + f, g, stream);
    }
}

/// Without an adapter the run ends at once: it reports that no adapter was
/// found and exits with a code other than zero. Nothing is created on a
/// GPU and nothing is submitted, whatever else happens.
pub proof fn lemma_no_adapter(shader: &'static str, later: Seq<EventView>)
    ensures
        trace(shader, seq![EventView::Init(InitEvent::AdapterUnavailable)] + later)
            == first_actions() + seq![
            ActionView::Exit(Err(FailureView::Initialize(InitializeError::NoAdapter))),
        ],
        creations(trace(shader, seq![EventView::Init(InitEvent::AdapterUnavailable)] + later))
            == 0,
        submissions(trace(shader, seq![EventView::Init(InitEvent::AdapterUnavailable)] + later))
            == 0,
        failure_text(FailureView::Initialize(InitializeError::NoAdapter))
            == "Unable to find GPU adapter!"@,
        exit_code_of(Err(FailureView::Initialize(InitializeError::NoAdapter))) != 0,
{
    let event = EventView::Init(InitEvent::AdapterUnavailable);
    let exit = ActionView::Exit(Err(FailureView::Initialize(InitializeError::NoAdapter)));
    let d0 = initial(shader);
    let d1 = driver_step(d0, event).0;
    lemma_run_unfolds(d0, event, later);
    lemma_finished_is_final(d1, later);
    lemma_first_actions();
    lemma_single_action(exit);
    lemma_count_concat(first_actions(), seq![exit], is_creation());
    lemma_count_concat(first_actions(), seq![exit], is_submission());
}

/// With an adapter that refuses the device the run ends there: it reports
/// that no device was found and exits with a code other than zero. Nothing
/// is created on a GPU and nothing is submitted, whatever else happens.
pub proof fn lemma_no_device(shader: &'static str, later: Seq<EventView>)
    ensures
        trace(
            shader,
            seq![
                EventView::Init(InitEvent::AdapterAcquired),
                EventView::Init(InitEvent::DeviceRefused),
            ] + later,
        ) == first_actions() + seq![
            ActionView::Init(InitAction::RequestDevice(spec_device_options())),
            ActionView::Exit(Err(FailureView::Initialize(InitializeError::NoDevice))),
        ],
        creations(
            trace(
                shader,
                seq![
                    EventView::Init(InitEvent::AdapterAcquired),
                    EventView::Init(InitEvent::DeviceRefused),
                ] + later,
            ),
        ) == 0,
        submissions(
            trace(
                shader,
                seq![
                    EventView::Init(InitEvent::AdapterAcquired),
                    EventView::Init(InitEvent::DeviceRefused),
                ] + later,
            ),
        ) == 0,
        failure_text(FailureView::Initialize(InitializeError::NoDevice))
            == "Unable to find GPU device!"@,
        exit_code_of(Err(FailureView::Initialize(InitializeError::NoDevice))) != 0,
{
    let found = EventView::Init(InitEvent::AdapterAcquired);
    let refused = EventView::Init(InitEvent::DeviceRefused);
    let request = ActionView::Init(InitAction::RequestDevice(spec_device_options()));
    let exit = ActionView::Exit(Err(FailureView::Initialize(InitializeError::NoDevice)));
    let events = seq![found, refused] + later;
    assert(events =~= seq![found] + (seq![refused] + later));
    let d0 = initial(shader);
    let d1 = driver_step(d0, found).0;
    let d2 = driver_step(d1, refused).0;
    lemma_run_unfolds(d0, found, seq![refused] + later);
    lemma_run_unfolds(d1, refused, later);
    lemma_finished_is_final(d2, later);
    lemma_first_actions();
    lemma_single_action(request);
    lemma_single_action(exit);
    lemma_count_concat(first_actions(), seq![request], is_creation());
    lemma_count_concat(first_actions() + seq![request], seq![exit], is_creation());
    lemma_count_concat(first_actions(), seq![request], is_submission());
    lemma_count_concat(first_actions() + seq![request], seq![exit], is_submission());
}

/// When the mapping callback fails, its message is the one line on the
/// diagnostic stream, and the run still ends in success, with exit code
/// zero. Standard output holds the marker and no dump.
pub proof fn lemma_mapping_failure(
    shader: &'static str,
    index: u64,
    message: Seq<char>,
    later: Seq<EventView>,
)
    ensures
        ({
            let events = completed_events(index, EventView::MapFailed { message }) + later;
            &&& trace(shader, events) == completed_trace(
                shader,
                index,
                ActionView::Write { stream: Stream::Stderr, line: message },
            )
            &&& written(trace(shader, events), Stream::Stderr) == seq![message]
            &&& written(trace(shader, events), Stream::Stdout) == seq![completion_marker()]
            &&& trace(shader, events).last() == ActionView::Exit(Ok(()))
            &&& exit_code_of(Ok(())) == 0
        }),
{
    let mapped = EventView::MapFailed { message };
    let report = mapping_report(mapped);
    lemma_completed_run(shader, index, mapped, later);
    lemma_completed_trace(shader, index, report);
    lemma_readback_actions(output_buffer());
    lemma_single_action(report);
}

/// When everything succeeds, the run writes the marker and then the dump
/// of the bytes read back, both to standard output and nothing anywhere
/// else. With as many bytes as the output buffer holds, the dump lists
/// forty-eight numbers. The run creates its GPU objects once, submits once,
/// and exits with code zero.
pub proof fn lemma_successful_run(
    shader: &'static str,
    index: u64,
    bytes: Seq<u8>,
    later: Seq<EventView>,
)
    ensures
        ({
            let events = completed_events(index, EventView::MapSucceeded { bytes }) + later;
            &&& trace(shader, events) == completed_trace(
                shader,
                index,
                ActionView::Write { stream: Stream::Stdout, line: dump(bytes) },
            )
            &&& written(trace(shader, events), Stream::Stdout) == seq![
                completion_marker(),
                dump(bytes),
            ]
            &&& bytes.len() == output_buffer().size ==> commas(dump(bytes)) + 1 == 48
            &&& written(trace(shader, events), Stream::Stderr) == Seq::<Seq<char>>::empty()
            &&& creations(trace(shader, events)) == 1
            &&& submissions(trace(shader, events)) == 1
            &&& trace(shader, events).last() == ActionView::Exit(Ok(()))
            &&& exit_code_of(Ok(())) == 0
        }),
{
    let mapped = EventView::MapSucceeded { bytes };
    let report = mapping_report(mapped);
    lemma_completed_run(shader, index, mapped, later);
    lemma_completed_trace(shader, index, report);
    lemma_readback_actions(output_buffer());
    lemma_single_action(report);
    lemma_dump_shape(bytes);
}

/// The events of `events` as mathematical values, in the same order.
pub open spec fn event_views(events: Seq<Event>) -> Seq<EventView> {
    events.map_values(|event: Event| event@)
}

proof fn lemma_run_appends(driver: Driver, events: Seq<EventView>, event: EventView)
    ensures
        driver_run(driver, events.push(event)) == (
            driver_step(driver_run(driver, events).0, event).0,
            driver_run(driver, events).1 + driver_step(driver_run(driver, events).0, event).1,
        ),
    decreases events.len(),
{
    if events.len() == 0 {
        assert(events.push(event) =~= seq![event] + Seq::<EventView>::empty());
        lemma_run_unfolds(driver, event, Seq::<EventView>::empty());
    } else {
        let next = driver_step(driver, events[0]).0;
        assert(events.push(event).drop_first() =~= events.drop_first().push(event));
        lemma_run_appends(next, events.drop_first(), event);
        assert(driver_run(driver, events.push(event)).1 =~= driver_run(driver, events).1
            + driver_step(driver_run(driver, events).0, event).1);
    }
}

/// The whole run, as a function of what the outside answers: everything
/// that is asked for, in order, when `events` come in one after the other.
pub fn real_main(shader: &'static str, events: Vec<Event>) -> (actions: Vec<Action>)
    ensures
        action_views(actions@) == trace(shader, event_views(events@)),
{
    let (mut driver, mut actions) = Driver::start(shader);
    let ghost all = event_views(events@);
    for event in it: events.into_iter()
        invariant
            it.seq() == events@,
            all == event_views(events@),
            driver == driver_run(initial(shader), all.take(it.index() as int)).0,
            action_views(actions@) == first_actions() + driver_run(
                initial(shader),
                all.take(it.index() as int),
            ).1,
    {
        let ghost done = all.take(it.index() as int);
        let ghost before = action_views(actions@);
        let (next, mut more) = driver.step(event);
        proof {
            lemma_run_appends(initial(shader), done, event@);
            assert(all.take(it.index() + 1) =~= done.push(event@));
        }
        actions.append(&mut more);
        assert(action_views(actions@) =~= before + driver_step(driver, event@).1);
        driver = next;
    }
    assert(all.take(events@.len() as int) =~= all);
    actions
}

} // verus!
