use device_bootstrap::device::SelectionError;
use device_bootstrap::lifecycle::{advance, Action, Bootstrap, Event, Resource, Verdict};
use device_bootstrap::queue::{QueueFamily, QueueSelection};

fn two_families() -> Vec<QueueFamily> {
    vec![
        QueueFamily::from_capabilities(true, true, 1),
        QueueFamily::from_capabilities(false, true, 1),
    ]
}

fn run(events: Vec<Event>) -> Vec<Action> {
    let mut state = Bootstrap::start();
    let mut actions = vec![state.pending];
    for event in events.iter() {
        state = advance(state, event);
        actions.push(state.pending);
    }
    actions
}

#[test]
fn run_starts_with_the_instance() {
    let state = Bootstrap::start();
    assert_eq!(state.pending, Action::CreateInstance);
    assert_eq!(state.verdict, Verdict::Completed);
    assert!(!state.is_finished());
    assert_eq!(state.held_resources(), Vec::new());
}

#[test]
fn clean_run_releases_in_reverse_order() {
    let selection = QueueSelection { graphics: 0, transfer: 1 };
    let actions = run(vec![
        Event::Completed,
        Event::Completed,
        Event::Devices(vec![1, 2]),
        Event::Families(two_families()),
        Event::Completed,
        Event::Completed,
        Event::Completed,
        Event::Completed,
        Event::Completed,
    ]);
    assert_eq!(
        actions,
        vec![
            Action::CreateInstance,
            Action::RegisterSink,
            Action::EnumerateDevices,
            Action::QueryQueueFamilies { device: 1 },
            Action::CreateDevice { device: 1, queues: selection },
            Action::FetchQueues { queues: selection },
            Action::Release(Resource::LogicalDevice),
            Action::Release(Resource::DiagnosticSink),
            Action::Release(Resource::Instance),
            Action::Finish(Verdict::Completed),
        ]
    );
}

#[test]
fn two_runs_in_succession_are_alike() {
    let events = || {
        vec![
            Event::Completed,
            Event::Completed,
            Event::Devices(vec![2]),
            Event::Families(two_families()),
            Event::Completed,
            Event::Completed,
            Event::Completed,
            Event::Completed,
            Event::Completed,
        ]
    };
    let first = run(events());
    let second = run(events());
    assert_eq!(first, second);
    assert_eq!(first.last(), Some(&Action::Finish(Verdict::Completed)));
    let end = Bootstrap { pending: *first.last().unwrap(), verdict: Verdict::Completed };
    assert!(end.is_finished());
    assert_eq!(end.held_resources(), Vec::new());
}

#[test]
fn failed_instance_creation_releases_nothing() {
    let actions = run(vec![Event::Failed]);
    assert_eq!(actions, vec![Action::CreateInstance, Action::Finish(Verdict::DriverFailure)]);
}

#[test]
fn failed_sink_registration_releases_the_instance() {
    let actions = run(vec![Event::Completed, Event::Failed, Event::Completed]);
    assert_eq!(
        actions,
        vec![
            Action::CreateInstance,
            Action::RegisterSink,
            Action::Release(Resource::Instance),
            Action::Finish(Verdict::DriverFailure),
        ]
    );
}

#[test]
fn failed_enumeration_releases_sink_then_instance() {
    let actions =
        run(vec![Event::Completed, Event::Completed, Event::Failed, Event::Completed, Event::Completed]);
    assert_eq!(
        actions[3..].to_vec(),
        vec![
            Action::Release(Resource::DiagnosticSink),
            Action::Release(Resource::Instance),
            Action::Finish(Verdict::DriverFailure),
        ]
    );
}

#[test]
fn missing_discrete_gpu_ends_the_run() {
    let actions = run(vec![
        Event::Completed,
        Event::Completed,
        Event::Devices(vec![1, 4]),
        Event::Completed,
        Event::Completed,
    ]);
    let verdict = Verdict::SelectionFailure(SelectionError::NoDiscreteGpu);
    assert_eq!(
        actions[3..].to_vec(),
        vec![
            Action::Release(Resource::DiagnosticSink),
            Action::Release(Resource::Instance),
            Action::Finish(verdict),
        ]
    );
}

#[test]
fn missing_queue_families_end_the_run() {
    let start = vec![Event::Completed, Event::Completed, Event::Devices(vec![2])];
    let mut no_graphics = start;
    no_graphics.push(Event::Families(vec![QueueFamily::from_capabilities(false, true, 1)]));
    no_graphics.push(Event::Completed);
    no_graphics.push(Event::Completed);
    let actions = run(no_graphics);
    assert_eq!(actions[3], Action::QueryQueueFamilies { device: 0 });
    assert_eq!(actions[4], Action::Release(Resource::DiagnosticSink));
    assert_eq!(
        actions[6],
        Action::Finish(Verdict::SelectionFailure(SelectionError::NoGraphicsQueue))
    );

    let no_transfer = vec![
        Event::Completed,
        Event::Completed,
        Event::Devices(vec![2]),
        Event::Families(vec![QueueFamily::from_capabilities(true, false, 1)]),
        Event::Completed,
        Event::Completed,
    ];
    let actions = run(no_transfer);
    assert_eq!(actions[4], Action::Release(Resource::DiagnosticSink));
    assert_eq!(actions[5], Action::Release(Resource::Instance));
    assert_eq!(
        actions[6],
        Action::Finish(Verdict::SelectionFailure(SelectionError::NoTransferQueue))
    );
}

#[test]
fn failed_device_creation_releases_sink_then_instance() {
    let actions = run(vec![
        Event::Completed,
        Event::Completed,
        Event::Devices(vec![2]),
        Event::Families(two_families()),
        Event::Failed,
        Event::Completed,
        Event::Completed,
    ]);
    assert_eq!(
        actions[5..].to_vec(),
        vec![
            Action::Release(Resource::DiagnosticSink),
            Action::Release(Resource::Instance),
            Action::Finish(Verdict::DriverFailure),
        ]
    );
}

#[test]
fn failed_queue_fetch_releases_everything() {
    let actions = run(vec![
        Event::Completed,
        Event::Completed,
        Event::Devices(vec![2]),
        Event::Families(two_families()),
        Event::Completed,
        Event::Failed,
        Event::Completed,
        Event::Completed,
        Event::Completed,
    ]);
    assert_eq!(
        actions[6..].to_vec(),
        vec![
            Action::Release(Resource::LogicalDevice),
            Action::Release(Resource::DiagnosticSink),
            Action::Release(Resource::Instance),
            Action::Finish(Verdict::DriverFailure),
        ]
    );
}

#[test]
fn unexpected_answer_counts_as_failure() {
    let actions = run(vec![Event::Devices(vec![2])]);
    assert_eq!(actions[1], Action::Finish(Verdict::DriverFailure));
    let actions = run(vec![Event::Completed, Event::Completed, Event::Families(two_families())]);
    assert_eq!(actions[3], Action::Release(Resource::DiagnosticSink));
    let actions = run(vec![Event::Completed, Event::Completed, Event::Completed]);
    assert_eq!(actions[3], Action::Release(Resource::DiagnosticSink));
}

#[test]
fn finished_run_stays_finished() {
    let state = Bootstrap { pending: Action::Finish(Verdict::Completed), verdict: Verdict::Completed };
    assert_eq!(advance(state, &Event::Completed), state);
    assert_eq!(advance(state, &Event::Failed), state);
    assert_eq!(advance(state, &Event::Devices(vec![2])), state);
}

#[test]
fn held_resources_follow_the_pending_action() {
    let held = |pending: Action| Bootstrap { pending, verdict: Verdict::Completed }.held_resources();
    let queues = QueueSelection { graphics: 0, transfer: 0 };
    assert_eq!(held(Action::RegisterSink), vec![Resource::Instance]);
    assert_eq!(held(Action::EnumerateDevices), vec![Resource::Instance, Resource::DiagnosticSink]);
    assert_eq!(
        held(Action::CreateDevice { device: 0, queues }),
        vec![Resource::Instance, Resource::DiagnosticSink]
    );
    assert_eq!(
        held(Action::FetchQueues { queues }),
        vec![Resource::Instance, Resource::DiagnosticSink, Resource::LogicalDevice]
    );
    assert_eq!(
        held(Action::Release(Resource::DiagnosticSink)),
        vec![Resource::Instance, Resource::DiagnosticSink]
    );
    assert_eq!(held(Action::Finish(Verdict::DriverFailure)), Vec::new());
}
