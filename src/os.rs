//! The bookkeeping of the bridge that runs futures on a host's serial work
//! queue. The host's side (posting a work item, polling a future, attaching a
//! thread, the fallback thread's channel) is carried out by the caller; the
//! decisions between those steps are made, and proved, here.
use vstd::prelude::*;

verus! {

/// Why the bridge could not do what was asked.
#[derive(Clone, Copy, Debug, PartialEq, Eq, Structural)]
pub enum BridgeError {
    /// The queue accepts no more work: the task can never run.
    Shutdown,
    /// A task bound to one thread was invoked on another.
    LocalThreadViolation,
}

/// What one poll of a future returned.
#[derive(Clone, Copy, Debug, PartialEq, Eq, Structural)]
pub enum PollOutcome {
    Ready,
    Pending,
}

/// Where a task stands: not yet invoked, invoked and not finished, finished.
#[derive(Clone, Copy, Debug, PartialEq, Eq, Structural)]
pub enum TaskPhase {
    Unstarted,
    Pending,
    Completed,
}

/// What the host's invocation of a task's work item is to do.
#[derive(Clone, Copy, Debug, PartialEq, Eq, Structural)]
pub enum InvokeAction {
    /// First invocation: build the waker, install it, then poll once.
    InstallWakerAndPoll,
    /// Poll once with the waker installed earlier.
    Poll,
    /// The task has finished and its state is gone: do nothing.
    Skip,
}

/// The state of one spawned task, as the contracts speak of it.
pub struct TaskState<F, W> {
    /// The future; gone once it has completed.
    pub future: Option<F>,
    /// The waker, installed once on the first invocation; gone once the
    /// future has completed.
    pub waker: Option<W>,
    /// The thread that a local task is bound to; `None` for a task that may
    /// run on any thread.
    pub owner: Option<u64>,
}

impl<F, W> TaskState<F, W> {
    /// A finished task holds neither its future nor its waker.
    pub open spec fn wf(self) -> bool {
        self.future is None ==> self.waker is None
    }

    pub open spec fn phase(self) -> TaskPhase {
        if self.future is None {
            TaskPhase::Completed
        } else if self.waker is None {
            TaskPhase::Unstarted
        } else {
            TaskPhase::Pending
        }
    }

    /// What an invocation on `thread` does; a task bound to another thread
    /// is not polled.
    pub open spec fn action_on(self, thread: u64) -> Result<InvokeAction, BridgeError> {
        if self.phase() == TaskPhase::Completed {
            Ok(InvokeAction::Skip)
        } else if self.owner is Some && self.owner != Some(thread) {
            Err(BridgeError::LocalThreadViolation)
        } else if self.phase() == TaskPhase::Unstarted {
            Ok(InvokeAction::InstallWakerAndPoll)
        } else {
            Ok(InvokeAction::Poll)
        }
    }

    /// The state once `outcome` has been recorded: on completion the future
    /// and the waker are released, else nothing changes.
    pub open spec fn after_poll(self, outcome: PollOutcome) -> TaskState<F, W> {
        match outcome {
            PollOutcome::Ready => TaskState { future: None, waker: None, owner: self.owner },
            PollOutcome::Pending => self,
        }
    }
}

/// The work item's state for one spawned task: the future, the write-once
/// waker cell, and the thread that a local task is bound to.
pub struct PollDriver<F, W> {
    future: Option<F>,
    waker: Option<W>,
    owner: Option<u64>,
}

impl<F, W> View for PollDriver<F, W> {
    type V = TaskState<F, W>;

    closed spec fn view(&self) -> TaskState<F, W> {
        TaskState { future: self.future, waker: self.waker, owner: self.owner }
    }
}

impl<F, W> PollDriver<F, W> {
    /// A task whose future may be polled on any thread.
    pub fn new(future: F) -> (d: Self)
        ensures
            d@ == (TaskState::<F, W> { future: Some(future), waker: None, owner: None }),
            d@.wf(),
    {
        PollDriver { future: Some(future), waker: None, owner: None }
    }

    /// A task whose future may be polled only on `owner`.
    pub fn new_local(future: F, owner: u64) -> (d: Self)
        ensures
            d@ == (TaskState::<F, W> { future: Some(future), waker: None, owner: Some(owner) }),
            d@.wf(),
    {
        PollDriver { future: Some(future), waker: None, owner: Some(owner) }
    }

    pub fn phase(&self) -> (r: TaskPhase)
        ensures
            r == self@.phase(),
    {
        if self.future.is_none() {
            TaskPhase::Completed
        } else if self.waker.is_none() {
            TaskPhase::Unstarted
        } else {
            TaskPhase::Pending
        }
    }

    /// Decide what the host's invocation on `thread` does.
    pub fn begin(&self, thread: u64) -> (a: Result<InvokeAction, BridgeError>)
        ensures
            a == self@.action_on(thread),
    {
        let phase = self.phase();
        if phase == TaskPhase::Completed {
            Ok(InvokeAction::Skip)
        } else if match self.owner {
            Some(t) => t != thread,
            None => false,
        } {
            Err(BridgeError::LocalThreadViolation)
        } else if phase == TaskPhase::Unstarted {
            Ok(InvokeAction::InstallWakerAndPoll)
        } else {
            Ok(InvokeAction::Poll)
        }
    }

    /// Fill the write-once waker cell.
    pub fn install_waker(&mut self, waker: W)
        requires
            old(self)@.phase() == TaskPhase::Unstarted,
        ensures
            final(self)@ == (TaskState { waker: Some(waker), ..old(self)@ }),
            final(self)@.phase() == TaskPhase::Pending,
            final(self)@.wf(),
    {
        self.waker = Some(waker);
    }

    /// The waker installed on the first invocation.
    pub fn waker(&self) -> (r: &W)
        requires
            self@.phase() == TaskPhase::Pending,
        ensures
            Some(*r) == self@.waker,
    {
        self.waker.as_ref().unwrap()
    }

    /// The future, to be polled once.
    pub fn future_mut(&mut self) -> (f: &mut F)
        requires
            old(self)@.phase() == TaskPhase::Pending,
        ensures
            Some(*f) == old(self)@.future,
            final(self)@ == (TaskState { future: Some(*final(f)), ..old(self)@ }),
            final(self)@.wf(),
    {
        self.future.as_mut().unwrap()
    }

    /// Record what the poll returned. The result says whether the task has
    /// just completed, so that its completion signal is to be sent.
    pub fn finish_poll(&mut self, outcome: PollOutcome) -> (completed: bool)
        requires
            old(self)@.phase() == TaskPhase::Pending,
        ensures
            completed == (outcome == PollOutcome::Ready),
            final(self)@ == old(self)@.after_poll(outcome),
            final(self)@.wf(),
    {
        match outcome {
            PollOutcome::Ready => {
                self.future = None;
                self.waker = None;
                true
            },
            PollOutcome::Pending => false,
        }
    }
}

/// What submitting a new task's work item to the queue means for the spawn
/// call: a queue that has shut down will never run the task.
pub open spec fn spawn_result_of(posted: bool) -> Result<(), BridgeError> {
    if posted {
        Ok(())
    } else {
        Err(BridgeError::Shutdown)
    }
}

/// The result of a spawn, given whether the host queue accepted the task's
/// work item.
pub fn spawn_result(posted: bool) -> (r: Result<(), BridgeError>)
    ensures
        r == spawn_result_of(posted),
{
    if posted {
        Ok(())
    } else {
        Err(BridgeError::Shutdown)
    }
}

/// The path that a wake takes.
#[derive(Clone, Copy, Debug, PartialEq, Eq, Structural)]
pub enum WakeRoute {
    /// Post the work item straight to the queue from the waking thread.
    Direct,
    /// Hand the work item to the fallback thread.
    Fallback,
    /// The task has completed: the wake does nothing.
    Discard,
}

/// What became of one wake.
#[derive(Clone, Copy, Debug, PartialEq, Eq, Structural)]
pub enum WakeOutcome {
    /// The work item was posted to the queue.
    Delivered,
    /// The work item was handed to the fallback thread, which posts it.
    Deferred,
    /// Nothing was posted: the task is gone or the host has shut down.
    Dropped,
}

/// The path of a wake: none once the task's state is gone, the direct one
/// from a thread attached to the host, else the fallback thread.
pub open spec fn wake_route(task_alive: bool, attached: bool) -> WakeRoute {
    if !task_alive {
        WakeRoute::Discard
    } else if attached {
        WakeRoute::Direct
    } else {
        WakeRoute::Fallback
    }
}

/// Choose the path of a wake. `task_alive` says whether the task's state
/// could still be reached from the waker, `attached` whether the waking
/// thread can reach the host.
pub fn route_wake(task_alive: bool, attached: bool) -> (r: WakeRoute)
    ensures
        r == wake_route(task_alive, attached),
{
    if !task_alive {
        WakeRoute::Discard
    } else if attached {
        WakeRoute::Direct
    } else {
        WakeRoute::Fallback
    }
}

/// What a direct post means for a wake.
pub open spec fn direct_outcome_of(posted: bool) -> WakeOutcome {
    if posted {
        WakeOutcome::Delivered
    } else {
        WakeOutcome::Dropped
    }
}

/// The outcome of a wake on the direct path, given whether the queue
/// accepted the work item.
pub fn direct_outcome(posted: bool) -> (r: WakeOutcome)
    ensures
        r == direct_outcome_of(posted),
{
    if posted {
        WakeOutcome::Delivered
    } else {
        WakeOutcome::Dropped
    }
}

/// A work item to post again, sent to the fallback thread.
#[derive(Clone, Copy, Debug, PartialEq, Eq, Structural)]
pub struct WakeRequest {
    /// The queue that the item belongs to.
    pub queue: u64,
    /// The work item.
    pub item: u64,
}

/// The fallback thread's lifecycle, as the contracts speak of it.
pub struct DispatcherState<S> {
    /// Whether the fallback thread has ever been started.
    pub started: bool,
    /// Whether the host has shut down, after which nothing is started.
    pub closed: bool,
    /// The sending end of its channel, while the thread runs.
    pub sender: Option<S>,
}

impl<S> DispatcherState<S> {
    /// A sender exists only while a started thread has not been shut down.
    pub open spec fn wf(self) -> bool {
        self.sender is Some ==> self.started && !self.closed
    }

    /// Whether a request handed over now reaches the thread.
    pub open spec fn open(self) -> bool {
        self.sender is Some
    }

    /// Whether the thread is yet to be started.
    pub open spec fn startable(self) -> bool {
        !self.started && !self.closed
    }
}

/// The outcome of a wake on the fallback path, given whether the channel
/// was open and whether the request went through it.
pub open spec fn fallback_outcome_of(open: bool, sent: bool) -> WakeOutcome {
    if open && sent {
        WakeOutcome::Deferred
    } else {
        WakeOutcome::Dropped
    }
}

/// The process-wide handle on the fallback thread: started at most once, on
/// demand, and closed for good when the host shuts down.
pub struct FallbackDispatcher<S> {
    started: bool,
    closed: bool,
    sender: Option<S>,
}

impl<S> View for FallbackDispatcher<S> {
    type V = DispatcherState<S>;

    closed spec fn view(&self) -> DispatcherState<S> {
        DispatcherState { started: self.started, closed: self.closed, sender: self.sender }
    }
}

impl<S> FallbackDispatcher<S> {
    /// No thread yet.
    pub fn new() -> (d: Self)
        ensures
            d@ == (DispatcherState::<S> { started: false, closed: false, sender: None }),
            d@.wf(),
    {
        FallbackDispatcher { started: false, closed: false, sender: None }
    }

    /// Whether the thread has yet to be started: it never has been, and the
    /// host has not shut down.
    pub fn needs_start(&self) -> (r: bool)
        ensures
            r == self@.startable(),
    {
        !self.started && !self.closed
    }

    /// Record that the thread has been started, with the sending end of its
    /// channel.
    pub fn start(&mut self, sender: S)
        requires
            old(self)@.startable(),
        ensures
            final(self)@ == (DispatcherState { started: true, closed: false, sender: Some(sender) }),
            final(self)@.wf(),
    {
        self.started = true;
        self.sender = Some(sender);
    }

    /// The sending end of the channel, while it is open.
    pub fn sender(&self) -> (r: Option<&S>)
        ensures
            match r {
                Some(s) => self@.sender == Some(*s),
                None => self@.sender is None,
            },
    {
        self.sender.as_ref()
    }

    /// The host is shutting down: close the channel for good, handing back
    /// its sending end. No thread is started after this.
    pub fn shut_down(&mut self) -> (r: Option<S>)
        ensures
            r == old(self)@.sender,
            final(self)@ == (DispatcherState::<S> {
                started: old(self)@.started,
                closed: true,
                sender: None,
            }),
            final(self)@.wf(),
    {
        self.closed = true;
        self.sender.take()
    }

    /// The outcome of a wake on the fallback path, given whether the request
    /// went through the channel.
    pub fn outcome(&self, sent: bool) -> (r: WakeOutcome)
        ensures
            r == fallback_outcome_of(self@.open(), sent),
    {
        if self.sender.is_some() && sent {
            WakeOutcome::Deferred
        } else {
            WakeOutcome::Dropped
        }
    }
}

/// One invocation of a task's work item on `thread`. `step` holds the waker
/// that the invocation would build and what the future's poll returns if it
/// is polled. The result is the state after it, the number of polls it made
/// and the number of completion signals it sent.
pub open spec fn invoke<F, W>(s: TaskState<F, W>, thread: u64, step: (W, PollOutcome)) -> (
    TaskState<F, W>,
    nat,
    nat,
) {
    let done: nat = if step.1 == PollOutcome::Ready {
        1
    } else {
        0
    };
    match s.action_on(thread) {
        Ok(InvokeAction::InstallWakerAndPoll) => (
            TaskState { waker: Some(step.0), ..s }.after_poll(step.1),
            1,
            done,
        ),
        Ok(InvokeAction::Poll) => (s.after_poll(step.1), 1, done),
        _ => (s, 0, 0),
    }
}

/// The host invoking a task's work item once per element of `steps`: the
/// final state, and the polls and completion signals made in all.
pub open spec fn drive<F, W>(s: TaskState<F, W>, thread: u64, steps: Seq<(W, PollOutcome)>) -> (
    TaskState<F, W>,
    nat,
    nat,
)
    decreases steps.len(),
{
    if steps.len() == 0 {
        (s, 0, 0)
    } else {
        let first = invoke(s, thread, steps[0]);
        let rest = drive(first.0, thread, steps.drop_first());
        (rest.0, first.1 + rest.1, first.2 + rest.2)
    }
}

/// A freshly spawned task, bound to `owner` if that is a thread.
pub open spec fn spawned<F, W>(future: F, owner: Option<u64>) -> TaskState<F, W> {
    TaskState { future: Some(future), waker: None, owner }
}

/// Once a task has completed, invoking its work item does nothing at all.
proof fn lemma_completed_is_inert<F, W>(
    s: TaskState<F, W>,
    thread: u64,
    steps: Seq<(W, PollOutcome)>,
)
    requires
        s.phase() == TaskPhase::Completed,
    ensures
        drive(s, thread, steps) == (s, 0nat, 0nat),
    decreases steps.len(),
{
    if steps.len() > 0 {
        lemma_completed_is_inert(s, thread, steps.drop_first());
    }
}

/// A live task allowed on `thread` whose future is pending for the first
/// `n` polls and ready at the next completes on invocation `n + 1`, after
/// `n + 1` polls, with one completion signal, whatever follows.
proof fn lemma_live_task_completes_once<F, W>(
    s: TaskState<F, W>,
    thread: u64,
    steps: Seq<(W, PollOutcome)>,
    n: nat,
)
    requires
        s.phase() != TaskPhase::Completed,
        s.owner is None || s.owner == Some(thread),
        n < steps.len(),
        forall|i: int| 0 <= i < n ==> steps[i].1 == PollOutcome::Pending,
        steps[n as int].1 == PollOutcome::Ready,
    ensures
        drive(s, thread, steps).0.phase() == TaskPhase::Completed,
        drive(s, thread, steps).1 == n + 1,
        drive(s, thread, steps).2 == 1,
        drive(s, thread, steps.take((n + 1) as int)) == drive(s, thread, steps),
    decreases n,
{
    let first = invoke(s, thread, steps[0]);
    if n == 0 {
        lemma_completed_is_inert(first.0, thread, steps.drop_first());
        lemma_completed_is_inert(first.0, thread, steps.take(1int).drop_first());
    } else {
        let tail = steps.drop_first();
        assert forall|i: int| 0 <= i < n - 1 implies tail[i].1 == PollOutcome::Pending by {
            assert(steps[i + 1].1 == PollOutcome::Pending);
        }
        lemma_live_task_completes_once(first.0, thread, tail, (n - 1) as nat);
        assert(steps.take((n + 1) as int).drop_first() =~= tail.take(n as int));
    }
}

/// A task spawned with a future that is pending `n` times and then ready,
/// whose work item the host invokes `n + 1` times, signals completion
/// exactly once; invoking it any number of times more signals nothing more.
pub proof fn lemma_completes_exactly_once<F, W>(
    future: F,
    owner: Option<u64>,
    thread: u64,
    steps: Seq<(W, PollOutcome)>,
    n: nat,
)
    requires
        owner is None || owner == Some(thread),
        n < steps.len(),
        forall|i: int| 0 <= i < n ==> steps[i].1 == PollOutcome::Pending,
        steps[n as int].1 == PollOutcome::Ready,
    ensures
        drive(spawned::<F, W>(future, owner), thread, steps.take((n + 1) as int)).0.phase()
            == TaskPhase::Completed,
        drive(spawned::<F, W>(future, owner), thread, steps.take((n + 1) as int)).1 == n + 1,
        drive(spawned::<F, W>(future, owner), thread, steps.take((n + 1) as int)).2 == 1,
        drive(spawned::<F, W>(future, owner), thread, steps).2 == 1,
{
    lemma_live_task_completes_once(spawned::<F, W>(future, owner), thread, steps, n);
}

/// While every poll of a started task is pending, each invocation polls
/// once and the waker stays the one it had.
proof fn lemma_pending_keeps_waker<F, W>(
    s: TaskState<F, W>,
    thread: u64,
    steps: Seq<(W, PollOutcome)>,
)
    requires
        s.phase() == TaskPhase::Pending,
        s.owner is None || s.owner == Some(thread),
        forall|i: int| 0 <= i < steps.len() ==> steps[i].1 == PollOutcome::Pending,
    ensures
        drive(s, thread, steps) == (s, steps.len(), 0nat),
    decreases steps.len(),
{
    if steps.len() > 0 {
        lemma_pending_keeps_waker(s, thread, steps.drop_first());
    }
}

/// Across all the pending polls of a task, the waker is the one built on
/// its first invocation: the wakers that later invocations could build are
/// never installed.
pub proof fn lemma_waker_is_stable<F, W>(
    future: F,
    owner: Option<u64>,
    thread: u64,
    steps: Seq<(W, PollOutcome)>,
)
    requires
        owner is None || owner == Some(thread),
        forall|i: int| 0 <= i < steps.len() ==> steps[i].1 == PollOutcome::Pending,
    ensures
        forall|k: int|
            #![trigger steps.take(k)]
            1 <= k <= steps.len() ==> drive(spawned::<F, W>(future, owner), thread, steps.take(k)).0.waker
                == Some(steps[0].0),
{
    assert forall|k: int| 1 <= k <= steps.len() implies drive(
        spawned::<F, W>(future, owner),
        thread,
        #[trigger] steps.take(k),
    ).0.waker == Some(steps[0].0) by {
        let s = spawned::<F, W>(future, owner);
        let first = invoke(s, thread, steps[0]);
        let tail = steps.take(k).drop_first();
        assert forall|i: int| 0 <= i < tail.len() implies tail[i].1 == PollOutcome::Pending by {
            assert(tail[i] == steps[i + 1]);
        }
        lemma_pending_keeps_waker(first.0, thread, tail);
    }
}

/// Waking a pending task `k` times (`k` at least one) from a thread
/// attached to the host resubmits its work item `k` times, so at least
/// once; each of the `k` invocations that follow polls it exactly once, and
/// none of them sends a completion signal while the future stays pending.
pub proof fn lemma_repeated_wakes<F, W>(
    q: crate::queue::QueueState,
    item: u64,
    k: nat,
    s: TaskState<F, W>,
    thread: u64,
    steps: Seq<(W, PollOutcome)>,
)
    requires
        q.open,
        k >= 1,
        s.phase() == TaskPhase::Pending,
        s.owner is None || s.owner == Some(thread),
        steps.len() == k,
        forall|i: int| 0 <= i < steps.len() ==> steps[i].1 == PollOutcome::Pending,
    ensures
        wake_route(s.phase() != TaskPhase::Completed, true) == WakeRoute::Direct,
        q.post_times(item, k).items == q.items + Seq::new(k, |i: int| item),
        q.post_times(item, k).items.contains(item),
        drive(s, thread, steps) == (s, k, 0nat),
{
    lemma_post_times(q, item, k);
    let all = q.post_times(item, k).items;
    assert(all[q.items.len() as int] == item);
    lemma_pending_keeps_waker(s, thread, steps);
}

/// Posting one item `k` times to an open queue appends `k` copies of it.
proof fn lemma_post_times(q: crate::queue::QueueState, item: u64, k: nat)
    requires
        q.open,
    ensures
        q.post_times(item, k).open,
        q.post_times(item, k).items == q.items + Seq::new(k, |i: int| item),
    decreases k,
{
    if k > 0 {
        lemma_post_times(q, item, (k - 1) as nat);
        assert(q.items + Seq::new(k, |i: int| item) =~= (q.items + Seq::new(
            (k - 1) as nat,
            |i: int| item,
        )).push(item));
    } else {
        assert(q.items + Seq::new(0, |i: int| item) =~= q.items);
    }
}

/// Something that happens to the fallback thread's handle: a wake from a
/// thread that cannot reach the host, carrying the sender that starting the
/// thread would create, or the host shutting down.
pub enum DispatcherEvent<S> {
    ForeignWake(S),
    HostShutdown,
}

/// The handle after one event, and whether the event started the thread: a
/// foreign wake starts it if it has never been started and the host has not
/// shut down; shutdown closes the channel for good.
pub open spec fn dispatcher_step<S>(d: DispatcherState<S>, e: DispatcherEvent<S>) -> (
    DispatcherState<S>,
    nat,
) {
    match e {
        DispatcherEvent::ForeignWake(sender) => if d.startable() {
            (DispatcherState { started: true, closed: false, sender: Some(sender) }, 1)
        } else {
            (d, 0)
        },
        DispatcherEvent::HostShutdown => (
            DispatcherState { started: d.started, closed: true, sender: None },
            0,
        ),
    }
}

/// The handle after a run of events, and how many times they started the
/// thread.
pub open spec fn dispatcher_run<S>(d: DispatcherState<S>, events: Seq<DispatcherEvent<S>>) -> (
    DispatcherState<S>,
    nat,
)
    decreases events.len(),
{
    if events.len() == 0 {
        (d, 0)
    } else {
        let first = dispatcher_step(d, events[0]);
        let rest = dispatcher_run(first.0, events.drop_first());
        (rest.0, first.1 + rest.1)
    }
}

/// The handle before any event.
pub open spec fn dispatcher_unstarted<S>() -> DispatcherState<S> {
    DispatcherState { started: false, closed: false, sender: None }
}

proof fn lemma_unstartable_stays<S>(d: DispatcherState<S>, events: Seq<DispatcherEvent<S>>)
    requires
        !d.startable(),
    ensures
        dispatcher_run(d, events).0.started == d.started,
        dispatcher_run(d, events).1 == 0,
    decreases events.len(),
{
    if events.len() > 0 {
        lemma_unstartable_stays(dispatcher_step(d, events[0]).0, events.drop_first());
    }
}

proof fn lemma_starts_once_from<S>(d: DispatcherState<S>, events: Seq<DispatcherEvent<S>>)
    requires
        d.startable(),
    ensures
        dispatcher_run(d, events).1 <= 1,
        dispatcher_run(d, events).0.started == (dispatcher_run(d, events).1 == 1),
        (forall|i: int| 0 <= i < events.len() ==> !(#[trigger] events[i] is HostShutdown)) ==> (
        dispatcher_run(d, events).0.started == exists|i: int|
            0 <= i < events.len() && #[trigger] events[i] is ForeignWake),
    decreases events.len(),
{
    if events.len() > 0 {
        let next = dispatcher_step(d, events[0]);
        let tail = events.drop_first();
        if !next.0.startable() {
            lemma_unstartable_stays(next.0, tail);
            if events[0] is HostShutdown {
            } else {
                assert(events[0] is ForeignWake);
            }
        } else {
            lemma_starts_once_from(next.0, tail);
            if forall|i: int| 0 <= i < events.len() ==> !(#[trigger] events[i] is HostShutdown) {
                assert forall|i: int| 0 <= i < tail.len() implies !(#[trigger] tail[i] is HostShutdown) by {
                    assert(tail[i] == events[i + 1]);
                }
                if dispatcher_run(next.0, tail).0.started {
                    let i = choose|i: int| 0 <= i < tail.len() && #[trigger] tail[i] is ForeignWake;
                    assert(events[i + 1] is ForeignWake);
                } else {
                    assert forall|i: int| 0 <= i < events.len() implies !(#[trigger] events[i] is ForeignWake) by {
                        if i > 0 {
                            assert(events[i] == tail[i - 1]);
                        }
                    }
                }
            }
        }
    }
}

/// However many wakes come from threads that cannot reach the host, in
/// whatever order with the host's shutdown, the fallback thread is started
/// at most once; and where the host has not shut down, it has been started
/// exactly when such a wake came.
pub proof fn lemma_fallback_starts_once<S>(events: Seq<DispatcherEvent<S>>)
    ensures
        dispatcher_run(dispatcher_unstarted::<S>(), events).1 <= 1,
        (forall|i: int| 0 <= i < events.len() ==> !(#[trigger] events[i] is HostShutdown)) ==> (
        dispatcher_run(dispatcher_unstarted::<S>(), events).0.started == exists|i: int|
            0 <= i < events.len() && #[trigger] events[i] is ForeignWake),
{
    lemma_starts_once_from(dispatcher_unstarted::<S>(), events);
}

/// A wake that comes after the task has completed posts nothing, and any
/// later invocation of its work item leaves it as it is, with no poll and
/// no completion signal.
pub proof fn lemma_wake_after_completion<F, W>(
    s: TaskState<F, W>,
    attached: bool,
    thread: u64,
    steps: Seq<(W, PollOutcome)>,
)
    requires
        s.phase() == TaskPhase::Completed,
    ensures
        wake_route(s.phase() != TaskPhase::Completed, attached) == WakeRoute::Discard,
        drive(s, thread, steps) == (s, 0nat, 0nat),
{
    lemma_completed_is_inert(s, thread, steps);
}

} // verus!
