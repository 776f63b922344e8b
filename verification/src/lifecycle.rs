//! The order in which driver objects are acquired and released.
//!
//! The caller performs one [`Action`] at a time against the driver and
//! reports what came of it as an [`Event`]; [`advance`] decides what to do
//! next. Whatever fails, everything acquired so far is released again, latest
//! first, before the run finishes.

use vstd::prelude::*;
use crate::device::{has_discrete, is_last_discrete, select_physical_device, SelectionError};
use crate::queue::{
    has_graphics_family,
    has_transfer_family,
    is_queue_choice,
    select_queue_families,
    QueueFamily,
    QueueSelection,
};

verus! {

/// A driver object that the bootstrap owns and has to release.
#[derive(Clone, Copy, Debug, PartialEq, Eq, Structural)]
pub enum Resource {
    Instance,
    DiagnosticSink,
    LogicalDevice,
}

/// How a run ended, or will end if nothing else fails.
#[derive(Clone, Copy, Debug, PartialEq, Eq, Structural)]
pub enum Verdict {
    /// Every step succeeded.
    Completed,
    /// A driver call failed or answered with something else than asked for.
    DriverFailure,
    /// A selection found no match.
    SelectionFailure(SelectionError),
}

/// What the caller is asked to do next.
#[derive(Clone, Copy, Debug, PartialEq, Eq, Structural)]
pub enum Action {
    /// Create the instance, with the diagnostic sink linked into its
    /// creation descriptor.
    CreateInstance,
    /// Register the diagnostic sink with the instance.
    RegisterSink,
    /// Enumerate the physical devices and report their device-type tags.
    EnumerateDevices,
    /// Report the queue families of the device at this position.
    QueryQueueFamilies { device: usize },
    /// Create the logical device on this physical device with the queue
    /// requests for these families.
    CreateDevice { device: usize, queues: QueueSelection },
    /// Fetch the queue handles for these families.
    FetchQueues { queues: QueueSelection },
    /// Release this resource.
    Release(Resource),
    /// Nothing is left to do.
    Finish(Verdict),
}

/// What came of the action last asked for.
pub enum Event {
    /// The action succeeded and has nothing to report.
    Completed,
    /// The device-type tags of the enumerated physical devices.
    Devices(Vec<i32>),
    /// The queue families of the chosen device.
    Families(Vec<QueueFamily>),
    /// The action failed.
    Failed,
}

/// The state of a run: the action that the caller is performing, and the
/// verdict as it stands.
#[derive(Clone, Copy, Debug, PartialEq, Eq, Structural)]
pub struct Bootstrap {
    pub pending: Action,
    pub verdict: Verdict,
}

/// The resources in the order in which they are created.
pub open spec fn creation_order() -> Seq<Resource> {
    seq![Resource::Instance, Resource::DiagnosticSink, Resource::LogicalDevice]
}

/// The position of a resource in the creation order.
pub open spec fn rank(resource: Resource) -> int {
    match resource {
        Resource::Instance => 0,
        Resource::DiagnosticSink => 1,
        Resource::LogicalDevice => 2,
    }
}

/// How many resources are held while an action is pending. A pending release
/// counts the resource that it releases.
pub open spec fn held_count(pending: Action) -> int {
    match pending {
        Action::CreateInstance => 0,
        Action::RegisterSink => 1,
        Action::EnumerateDevices => 2,
        Action::QueryQueueFamilies { .. } => 2,
        Action::CreateDevice { .. } => 2,
        Action::FetchQueues { .. } => 3,
        Action::Release(resource) => rank(resource) + 1,
        Action::Finish(_) => 0,
    }
}

/// The resources held while an action is pending, oldest first.
pub open spec fn held(pending: Action) -> Seq<Resource> {
    creation_order().take(held_count(pending))
}

/// The resource that a successful action adds to those held.
pub open spec fn acquires(pending: Action) -> Option<Resource> {
    match pending {
        Action::CreateInstance => Some(Resource::Instance),
        Action::RegisterSink => Some(Resource::DiagnosticSink),
        Action::CreateDevice { .. } => Some(Resource::LogicalDevice),
        _ => None,
    }
}

/// The state that gives up `count` held resources: it releases the latest of
/// them, or finishes if there is none.
pub open spec fn unwinding(count: int, verdict: Verdict) -> Bootstrap {
    let pending = if count >= 3 {
        Action::Release(Resource::LogicalDevice)
    } else if count == 2 {
        Action::Release(Resource::DiagnosticSink)
    } else if count == 1 {
        Action::Release(Resource::Instance)
    } else {
        Action::Finish(verdict)
    };
    Bootstrap { pending, verdict }
}

/// Whether the state is final.
pub open spec fn finished(state: Bootstrap) -> bool {
    state.pending is Finish
}

/// Whether `next` is the state that follows `state` on `event`.
///
/// A run that finished stays as it is. A release is taken as done whatever
/// is reported, and the next older resource follows. Any other action goes
/// on to the next step when its own answer arrives; on a failure, on a
/// selection without a match and on any other answer it turns to releasing
/// what is held.
pub open spec fn follows(state: Bootstrap, event: Event, next: Bootstrap) -> bool {
    let failure = unwinding(held_count(state.pending), Verdict::DriverFailure);
    let onward = |pending: Action| Bootstrap { pending, verdict: state.verdict };
    match state.pending {
        Action::Finish(_) => next == state,
        Action::Release(resource) => next == unwinding(rank(resource), state.verdict),
        Action::CreateInstance => next == if event is Completed {
            onward(Action::RegisterSink)
        } else {
            failure
        },
        Action::RegisterSink => next == if event is Completed {
            onward(Action::EnumerateDevices)
        } else {
            failure
        },
        Action::EnumerateDevices => match event {
            Event::Devices(tags) => if has_discrete(tags@) {
                &&& next.verdict == state.verdict
                &&& next.pending matches Action::QueryQueueFamilies { device }
                &&& is_last_discrete(tags@, device as int)
            } else {
                next == unwinding(2, Verdict::SelectionFailure(SelectionError::NoDiscreteGpu))
            },
            _ => next == failure,
        },
        Action::QueryQueueFamilies { device } => match event {
            Event::Families(families) => if families@.len() > u32::MAX {
                next == failure
            } else if !has_graphics_family(families@) {
                next == unwinding(2, Verdict::SelectionFailure(SelectionError::NoGraphicsQueue))
            } else if !has_transfer_family(families@) {
                next == unwinding(2, Verdict::SelectionFailure(SelectionError::NoTransferQueue))
            } else {
                &&& next.verdict == state.verdict
                &&& next.pending matches Action::CreateDevice { device: d, queues }
                &&& d == device
                &&& is_queue_choice(families@, queues)
            },
            _ => next == failure,
        },
        Action::CreateDevice { device, queues } => next == if event is Completed {
            onward(Action::FetchQueues { queues })
        } else {
            failure
        },
        Action::FetchQueues { queues } => next == if event is Completed {
            unwinding(3, state.verdict)
        } else {
            failure
        },
    }
}

/// How many steps a run can still take from a state.
pub open spec fn steps_left(state: Bootstrap) -> nat {
    match state.pending {
        Action::CreateInstance => 9,
        Action::RegisterSink => 8,
        Action::EnumerateDevices => 7,
        Action::QueryQueueFamilies { .. } => 6,
        Action::CreateDevice { .. } => 5,
        Action::FetchQueues { .. } => 4,
        Action::Release(resource) => (rank(resource) + 1) as nat,
        Action::Finish(_) => 0,
    }
}

impl Bootstrap {
    /// The state in which a run begins: nothing is held, nothing has failed,
    /// and the instance is to be created.
    pub fn start() -> (state: Bootstrap)
        ensures
            state == (Bootstrap { pending: Action::CreateInstance, verdict: Verdict::Completed }),
    {
        Bootstrap { pending: Action::CreateInstance, verdict: Verdict::Completed }
    }

    /// Whether the run is over.
    pub fn is_finished(&self) -> (r: bool)
        ensures
            r == finished(*self),
    {
        match self.pending {
            Action::Finish(_) => true,
            _ => false,
        }
    }

    /// The resources held in this state, oldest first.
    pub fn held_resources(&self) -> (r: Vec<Resource>)
        ensures
            r@ == held(self.pending),
    {
        let count: u8 = match self.pending {
            Action::CreateInstance => 0,
            Action::RegisterSink => 1,
            Action::EnumerateDevices => 2,
            Action::QueryQueueFamilies { .. } => 2,
            Action::CreateDevice { .. } => 2,
            Action::FetchQueues { .. } => 3,
            Action::Release(Resource::Instance) => 1,
            Action::Release(Resource::DiagnosticSink) => 2,
            Action::Release(Resource::LogicalDevice) => 3,
            Action::Finish(_) => 0,
        };
        let mut resources: Vec<Resource> = Vec::new();
        if count >= 1 {
            resources.push(Resource::Instance);
        }
        if count >= 2 {
            resources.push(Resource::DiagnosticSink);
        }
        if count >= 3 {
            resources.push(Resource::LogicalDevice);
        }
        assert(resources@ =~= held(self.pending));
        resources
    }
}

/// The state that releases the given number of held resources, latest first.
fn unwind(count: u8, verdict: Verdict) -> (next: Bootstrap)
    ensures
        next == unwinding(count as int, verdict),
{
    let pending = if count >= 3 {
        Action::Release(Resource::LogicalDevice)
    } else if count == 2 {
        Action::Release(Resource::DiagnosticSink)
    } else if count == 1 {
        Action::Release(Resource::Instance)
    } else {
        Action::Finish(verdict)
    };
    Bootstrap { pending, verdict }
}

/// Decides what to do after `event` was reported for the pending action of
/// `state`.
pub fn advance(state: Bootstrap, event: &Event) -> (next: Bootstrap)
    ensures
        follows(state, *event, next),
{
    let verdict = state.verdict;
    match state.pending {
        Action::Finish(_) => state,
        Action::Release(Resource::LogicalDevice) => unwind(2, verdict),
        Action::Release(Resource::DiagnosticSink) => unwind(1, verdict),
        Action::Release(Resource::Instance) => unwind(0, verdict),
        Action::CreateInstance => match event {
            Event::Completed => Bootstrap { pending: Action::RegisterSink, verdict },
            _ => unwind(0, Verdict::DriverFailure),
        },
        Action::RegisterSink => match event {
            Event::Completed => Bootstrap { pending: Action::EnumerateDevices, verdict },
            _ => unwind(1, Verdict::DriverFailure),
        },
        Action::EnumerateDevices => match event {
            Event::Devices(tags) => match select_physical_device(tags) {
                Ok(device) => Bootstrap { pending: Action::QueryQueueFamilies { device }, verdict },
                Err(e) => unwind(2, Verdict::SelectionFailure(e)),
            },
            _ => unwind(2, Verdict::DriverFailure),
        },
        Action::QueryQueueFamilies { device } => match event {
            Event::Families(families) => if families.len() > 0xffff_ffff {
                unwind(2, Verdict::DriverFailure)
            } else {
                match select_queue_families(families) {
                    Ok(queues) => Bootstrap {
                        pending: Action::CreateDevice { device, queues },
                        verdict,
                    },
                    Err(e) => unwind(2, Verdict::SelectionFailure(e)),
                }
            },
            _ => unwind(2, Verdict::DriverFailure),
        },
        Action::CreateDevice { device, queues } => match event {
            Event::Completed => Bootstrap { pending: Action::FetchQueues { queues }, verdict },
            _ => unwind(2, Verdict::DriverFailure),
        },
        Action::FetchQueues { queues } => match event {
            Event::Completed => unwind(3, verdict),
            _ => unwind(3, Verdict::DriverFailure),
        },
    }
}

/// At most one state follows a state on an event: the contract of
/// [`advance`] leaves no freedom in the result.
pub proof fn lemma_follows_unique(state: Bootstrap, event: Event, a: Bootstrap, b: Bootstrap)
    requires
        follows(state, event, a),
        follows(state, event, b),
    ensures
        a == b,
{
}

/// Resources are released in the reverse of the order of their creation, and
/// nothing is dropped from the books without a release: a step either leaves
/// the held resources as they are, or adds the one that the pending action
/// acquired, or takes off the latest one, which is the one that the pending
/// release named.
pub proof fn lemma_step_keeps_books(state: Bootstrap, event: Event, next: Bootstrap)
    requires
        follows(state, event, next),
    ensures
        match state.pending {
            Action::Release(resource) => {
                &&& held(state.pending).last() == resource
                &&& held(next.pending) == held(state.pending).drop_last()
            },
            _ => {
                ||| held(next.pending) == held(state.pending)
                ||| acquires(state.pending) matches Some(resource) && held(next.pending) == held(
                    state.pending,
                ).push(resource)
            },
        },
{
    let before = held(state.pending);
    let after = held(next.pending);
    match state.pending {
        Action::Release(resource) => {
            assert(after =~= before.drop_last());
        },
        _ => {
            if held_count(next.pending) == held_count(state.pending) {
                assert(after =~= before);
            } else {
                assert(after =~= before.push(acquires(state.pending).unwrap()));
            }
        },
    }
}

/// A run finishes only when nothing is held any more: a step into the final
/// state starts with nothing held, or is the release of the one resource
/// that is left.
pub proof fn lemma_finish_holds_nothing(state: Bootstrap, event: Event, next: Bootstrap)
    requires
        follows(state, event, next),
        finished(next),
    ensures
        held(next.pending) == Seq::<Resource>::empty(),
        held(state.pending).len() == 0 || state.pending == Action::Release(Resource::Instance),
{
    assert(held(next.pending) =~= Seq::<Resource>::empty());
}

/// Every run comes to its end: each step of an unfinished run leaves fewer
/// steps to take, whatever the driver reports, so the releases are reached on
/// every path.
pub proof fn lemma_step_makes_progress(state: Bootstrap, event: Event, next: Bootstrap)
    requires
        follows(state, event, next),
        !finished(state),
    ensures
        steps_left(next) < steps_left(state),
{
}

/// The verdict of a run is a success only if no step failed: once the
/// verdict names a failure, it stays.
pub proof fn lemma_failure_sticks(state: Bootstrap, event: Event, next: Bootstrap)
    requires
        follows(state, event, next),
        state.verdict != Verdict::Completed,
    ensures
        next.verdict != Verdict::Completed,
{
}

/// Whether `states` is a run: it begins where every run begins, and each
/// state follows the one before on the event reported there.
pub open spec fn is_run(states: Seq<Bootstrap>, events: Seq<Event>) -> bool {
    &&& states.len() == events.len() + 1
    &&& states[0] == (Bootstrap { pending: Action::CreateInstance, verdict: Verdict::Completed })
    &&& forall|i: int|
        0 <= i < events.len() ==> follows(states[i], #[trigger] events[i], states[i + 1])
}

/// Of every state of every run: after nine steps at the latest the run is
/// over, whatever was reported; the final action names the verdict of the
/// state; and a run without a failure has taken exactly one step of the full
/// sequence per event, so that it ends well only after all three resources
/// were acquired and released again.
pub proof fn lemma_run_ends(states: Seq<Bootstrap>, events: Seq<Event>, i: int)
    requires
        is_run(states, events),
        0 <= i < states.len(),
    ensures
        steps_left(states[i]) + i <= 9 || finished(states[i]),
        i >= 9 ==> finished(states[i]),
        states[i].pending matches Action::Finish(verdict) ==> verdict == states[i].verdict,
        states[i].verdict == Verdict::Completed && i <= 9 ==> steps_left(states[i]) == 9 - i,
    decreases i,
{
    if i > 0 {
        lemma_run_ends(states, events, i - 1);
        let event = events[i - 1];
        assert(follows(states[i - 1], event, states[i]));
    }
}

/// A run is determined by what the driver reports: two runs on the same
/// events pass through the same states.
pub proof fn lemma_runs_agree(
    first: Seq<Bootstrap>,
    second: Seq<Bootstrap>,
    events: Seq<Event>,
    i: int,
)
    requires
        is_run(first, events),
        is_run(second, events),
        0 <= i < first.len(),
    ensures
        first[i] == second[i],
    decreases i,
{
    if i > 0 {
        lemma_runs_agree(first, second, events, i - 1);
        let event = events[i - 1];
        assert(follows(first[i - 1], event, first[i]));
        assert(follows(second[i - 1], event, second[i]));
        lemma_follows_unique(first[i - 1], event, first[i], second[i]);
    }
}

/// A resource is held exactly while as many resources are held as its
/// place in the creation order asks for.
pub proof fn lemma_held_by_rank(pending: Action, resource: Resource)
    ensures
        held(pending).contains(resource) <==> rank(resource) < held_count(pending),
{
    let all = creation_order();
    let kept = held(pending);
    assert(all[0] == Resource::Instance && all[1] == Resource::DiagnosticSink && all[2]
        == Resource::LogicalDevice);
    if rank(resource) < held_count(pending) {
        assert(kept[rank(resource)] == resource);
    }
    if kept.contains(resource) {
        let at = choose|at: int| 0 <= at < kept.len() && kept[at] == resource;
        assert(kept[at] == all[at]);
    }
}

/// Along a run the steps left only go down, until the run is over.
pub proof fn lemma_steps_decrease(states: Seq<Bootstrap>, events: Seq<Event>, i: int, j: int)
    requires
        is_run(states, events),
        0 <= i < j < states.len(),
        !finished(states[i]),
    ensures
        steps_left(states[j]) < steps_left(states[i]),
    decreases j,
{
    let event = events[j - 1];
    assert(follows(states[j - 1], event, states[j]));
    if j > i + 1 {
        lemma_steps_decrease(states, events, i, j - 1);
    }
}

/// Releases come in the reverse of the creation order, and no resource is
/// released twice: of two releases in a run, the later one names the
/// resource that was created earlier.
pub proof fn lemma_releases_in_reverse(
    states: Seq<Bootstrap>,
    events: Seq<Event>,
    i: int,
    j: int,
)
    requires
        is_run(states, events),
        0 <= i < j < states.len(),
        states[i].pending is Release,
        states[j].pending is Release,
    ensures
        rank(states[j].pending->Release_0) < rank(states[i].pending->Release_0),
{
    lemma_steps_decrease(states, events, i, j);
}

/// Every resource that is held at some point of a run that comes to its end
/// is released later in that run, on whatever path the run ends. The
/// position of the release is returned.
pub proof fn lemma_held_is_released(
    states: Seq<Bootstrap>,
    events: Seq<Event>,
    i: int,
    resource: Resource,
) -> (j: int)
    requires
        is_run(states, events),
        0 <= i < states.len(),
        finished(states.last()),
        held(states[i].pending).contains(resource),
    ensures
        i <= j < states.len(),
        states[j].pending == Action::Release(resource),
    decreases states.len() - i,
{
    lemma_held_by_rank(states[i].pending, resource);
    if states[i].pending == Action::Release(resource) {
        i
    } else {
        let event = events[i];
        assert(follows(states[i], event, states[i + 1]));
        lemma_held_by_rank(states[i + 1].pending, resource);
        lemma_held_is_released(states, events, i + 1, resource)
    }
}

} // verus!
