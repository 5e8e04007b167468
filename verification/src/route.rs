//! The navigation state machine: the route the interface is on, the one
//! in-flight side-effect task per transition, and the cooperative
//! cancellation that keeps at most one such task running.

use crate::bluetooth::matches_raw;
use crate::bluetooth::spec_names_view;
use crate::bluetooth::ConnectedPeripheral;
use crate::bluetooth::ConnectedCharacteristic;
use crate::bluetooth::HandledPeripheral;
use crate::bluetooth::RawCharacteristic;
use crate::cli_args::sorted_by_sort;
use crate::error::Error;
use crate::Ctx;
use vstd::prelude::*;

verus! {

/// One observation of a characteristic's value: when it was read, and the
/// raw payload.
#[derive(Debug)]
pub struct CharacteristicValue {
    /// When the value arrived, in milliseconds.
    pub time_millis: i64,
    /// The payload as read.
    pub data: Vec<u8>,
}

/// An optional position into the value history. The terminal front end keeps
/// an atomic alongside; this is the value the logic decides on.
#[derive(Debug)]
pub struct AtomicOptionalIndex {
    value: isize,
}

impl AtomicOptionalIndex {
    /// The position it holds, if any: negative means none.
    pub closed spec fn spec_read(&self) -> Option<usize> {
        if self.value < 0 {
            None
        } else {
            Some(self.value as usize)
        }
    }

    /// Reads the held position, if any.
    pub fn read(&self) -> (r: Option<usize>)
        ensures
            r == self.spec_read(),
    {
        if self.value < 0 {
            None
        } else {
            Some(self.value as usize)
        }
    }

    /// Stores a position; one too large to represent is clamped.
    pub fn write(&mut self, value: usize)
        ensures
            value <= isize::MAX as usize ==> final(self).spec_read() == Some(value),
            value > isize::MAX as usize ==> final(self).spec_read() == Some(isize::MAX as usize),
    {
        if value <= isize::MAX as usize {
            self.value = value as isize;
        } else {
            self.value = isize::MAX;
        }
    }

    /// A held position always fits the cell's representable range.
    pub proof fn lemma_read_in_range(&self)
        ensures
            match self.spec_read() {
                Some(v) => v <= isize::MAX as usize,
                None => true,
            },
    {
    }

    /// Clears the held position.
    pub fn annulate(&mut self)
        ensures
            final(self).spec_read() is None,
    {
        self.value = -1;
    }
}

impl Default for AtomicOptionalIndex {
    /// Starts with no position held.
    fn default() -> (r: Self)
        ensures
            r.spec_read() is None,
    {
        AtomicOptionalIndex { value: -1 }
    }
}

/// Where the interface is; exactly one route is current at any instant.
#[allow(inconsistent_fields)]
pub enum Route {
    /// Browsing the discovered peripherals.
    PeripheralList,
    /// Browsing the characteristics of one connected peripheral.
    PeripheralConnectedView(ConnectedPeripheral),
    /// A connection to `peripheral` is in progress; `retry` counts the
    /// failed attempts so far.
    PeripheralWaitingView { peripheral: HandledPeripheral, retry: u16 },
    /// Watching one characteristic's live and historical values.
    CharacteristicView {
        peripheral: ConnectedPeripheral,
        characteristic: ConnectedCharacteristic,
        /// Which historical value is shown; none means the latest.
        historical_view_index: AtomicOptionalIndex,
        /// Every value received while this view lives, in arrival order.
        history: Vec<CharacteristicValue>,
    },
}

/// The background work a transition carries; every other transition is inert.
#[derive(PartialEq, Eq, Structural, Debug, Clone, Copy)]
pub enum SideEffectKind {
    /// Repeatedly attempt to connect, then enumerate the attributes.
    Connect,
    /// Disconnect, retrying on timeout until it succeeds.
    Disconnect,
    /// Poll the watched characteristic's value until cancelled.
    Poll,
    /// Nothing to do in the background.
    Inert,
}

/// Which background work a transition from `previous` to `requested` starts.
pub open spec fn spec_side_effect_kind(previous: &Route, requested: &Route) -> SideEffectKind {
    match (previous, requested) {
        (Route::PeripheralList, Route::PeripheralWaitingView { .. }) => SideEffectKind::Connect,
        (Route::PeripheralConnectedView(..), Route::PeripheralList) => SideEffectKind::Disconnect,
        (_, Route::CharacteristicView { .. }) => SideEffectKind::Poll,
        _ => SideEffectKind::Inert,
    }
}

/// Decides which background work a transition starts.
pub fn side_effect_kind(previous: &Route, requested: &Route) -> (r: SideEffectKind)
    ensures
        r == spec_side_effect_kind(previous, requested),
{
    match (previous, requested) {
        (Route::PeripheralList, Route::PeripheralWaitingView { .. }) => SideEffectKind::Connect,
        (Route::PeripheralConnectedView(..), Route::PeripheralList) => SideEffectKind::Disconnect,
        (_, Route::CharacteristicView { .. }) => SideEffectKind::Poll,
        _ => SideEffectKind::Inert,
    }
}

/// The state of one spawned side-effect task, as the registry sees it.
#[derive(PartialEq, Eq, Structural, Debug, Clone, Copy)]
pub enum TaskState {
    /// Spawned and not yet cancelled or finished.
    Running,
    /// Told to stop; it performs no further writes.
    Cancelled,
    /// Ran to the end of its work.
    Finished,
}

/// What the runtime still has to spawn: the task id just registered, the
/// work it runs, and the route it runs it against.
pub struct PendingSideEffect {
    /// The id under which the task was registered.
    pub task: usize,
    /// The work to run.
    pub kind: SideEffectKind,
    /// The route that was current before the transition.
    pub previous: Route,
}

impl Route {
    /// Performs a navigation transition on the shared state: the route is
    /// swapped first, so the render loop sees the new state at once; then a
    /// new side-effect task is spawned, the previously registered one is
    /// cancelled, and only then is the new handle stored.
    pub fn navigate(self, ctx: &mut Ctx)
        requires
            old(ctx).wf(),
        ensures
            final(ctx).wf(),
            final(ctx).active_route == self,
            final(ctx).side_effect_tasks@ =~= old(ctx).side_effect_tasks@.map_values(
                |t: TaskState|
                    if t is Running {
                        TaskState::Cancelled
                    } else {
                        t
                    },
            ).push(TaskState::Running),
            final(ctx).active_side_effect_handle == Some(old(ctx).side_effect_tasks@.len() as usize),
            match old(ctx).active_side_effect_handle {
                Some(h) => !(final(ctx).side_effect_tasks@[h as int] is Running),
                None => true,
            },
            final(ctx).pending_spawn matches Some(p) && p.task == old(ctx).side_effect_tasks@.len()
                && p.kind == spec_side_effect_kind(&old(ctx).active_route, &self) && p.previous
                == old(ctx).active_route,
            final(ctx).latest_scan == old(ctx).latest_scan,
            final(ctx).request_scan_restart == old(ctx).request_scan_restart,
            final(ctx).global_error == old(ctx).global_error,
            final(ctx).general_options == old(ctx).general_options,
            final(ctx).args == old(ctx).args,
    {
        let kind = side_effect_kind(&ctx.active_route, &self);
        // Swap the route first: the new state must be visible before the
        // (possibly long-running) side effect begins.
        let mut previous = self;
        core::mem::swap(&mut ctx.active_route, &mut previous);
        // Spawn the new task.
        ctx.side_effect_tasks.push(TaskState::Running);
        let new_task = ctx.side_effect_tasks.len() - 1;
        // Cancel whatever was registered as active before; a task already
        // finished or cancelled stays as it is.
        if let Some(h) = ctx.active_side_effect_handle {
            match ctx.side_effect_tasks[h] {
                TaskState::Running => {
                    ctx.side_effect_tasks[h] = TaskState::Cancelled;
                },
                _ => {},
            }
        }
        // Register the new task, and leave the work for the runtime to start.
        ctx.active_side_effect_handle = Some(new_task);
        ctx.pending_spawn = Some(PendingSideEffect { task: new_task, kind, previous });
        proof {
            assert(ctx.side_effect_tasks@ =~= old(ctx).side_effect_tasks@.map_values(
                |t: TaskState|
                    if t is Running {
                        TaskState::Cancelled
                    } else {
                        t
                    },
            ).push(TaskState::Running));
        }
    }
}

/// Every running side-effect task is the registered one: there is never more
/// than one running concurrently, whatever sequence of navigations happened.
pub proof fn lemma_at_most_one_side_effect(ctx: Ctx, t1: usize, t2: usize)
    requires
        ctx.wf(),
        ctx.spec_task_running(t1),
        ctx.spec_task_running(t2),
    ensures
        t1 == t2,
{
    assert(ctx.active_side_effect_handle == Some(t1));
    assert(ctx.active_side_effect_handle == Some(t2));
}

} // verus!

verus! {

/// The outcome of one bounded connection attempt.
#[derive(PartialEq, Eq, Structural, Debug, Clone, Copy)]
pub enum ConnectAttemptOutcome {
    /// The peripheral reported it is already connected.
    AlreadyConnected,
    /// The attempt established the connection.
    Succeeded,
    /// The attempt failed or its bounded time ran out.
    Failed,
}

/// What the connect loop does after one attempt.
#[derive(PartialEq, Eq, Structural, Debug, Clone, Copy)]
pub enum ConnectStep {
    /// Go on to enumerate the peripheral's attributes.
    Enumerate,
    /// Attempt again; there is no upper bound on retries.
    RetryAttempt,
    /// Cancelled: stop without writing anything further.
    Abandon,
}

/// The outcome of one bounded disconnect call.
#[derive(PartialEq, Eq, Structural, Debug, Clone, Copy)]
pub enum DisconnectOutcome {
    /// The peripheral reported it was already disconnected.
    AlreadyDisconnected,
    /// The disconnect completed.
    Completed,
    /// The bounded call timed out.
    TimedOut,
}

/// What the disconnect loop does after one call.
#[derive(PartialEq, Eq, Structural, Debug, Clone, Copy)]
pub enum DisconnectStep {
    /// Done; the task is finished.
    Done,
    /// Call again after the fixed backoff.
    RetryAfterBackoff,
    /// Cancelled: stop without writing anything further.
    Abandon,
}

/// What the poll loop does after one read.
#[derive(PartialEq, Eq, Structural, Debug, Clone, Copy)]
pub enum PollStep {
    /// Sleep for the poll interval, then poll again.
    SleepThenPoll,
    /// A failed read: skip the sleep and poll again at once.
    PollAgain,
    /// Cancelled: stop without writing anything further.
    Abandon,
}

impl Ctx {
    /// The user-supplied display names, as entries.
    pub open spec fn spec_names(&self) -> Seq<(u128, String)> {
        match self.args.names_map_file {
            Some(m) => m@,
            None => Seq::empty(),
        }
    }

    /// One round of the connect loop, run by the side-effect task after one
    /// bounded attempt. A task that is no longer running abandons without a
    /// write; a failed attempt raises the retry count the waiting view shows
    /// and tries again; success goes on to enumerate attributes. The count
    /// stays put once it cannot be raised any further.
    pub fn connect_attempt_step(&mut self, task: usize, outcome: ConnectAttemptOutcome) -> (r:
        ConnectStep)
        requires
            old(self).wf(),
        ensures
            final(self).wf(),
            !old(self).spec_task_running(task) ==> r == ConnectStep::Abandon && *final(self)
                == *old(self),
            old(self).spec_task_running(task) ==> match outcome {
                ConnectAttemptOutcome::Failed => r == ConnectStep::RetryAttempt && *final(self) == (
                Ctx {
                    active_route: (match old(self).active_route {
                        Route::PeripheralWaitingView { peripheral, retry } => (
                        Route::PeripheralWaitingView {
                            peripheral,
                            retry: (if retry < u16::MAX {
                                (retry + 1) as u16
                            } else {
                                retry
                            }),
                        }),
                        other => other,
                    }),
                    ..*old(self)
                }),
                _ => r == ConnectStep::Enumerate && *final(self) == *old(self),
            },
    {
        if !self.task_running(task) {
            return ConnectStep::Abandon;
        }
        match outcome {
            ConnectAttemptOutcome::Failed => {
                let mut cur = Route::PeripheralList;
                core::mem::swap(&mut self.active_route, &mut cur);
                let updated = match cur {
                    Route::PeripheralWaitingView { peripheral, retry } => {
                        let new_retry: u16 = if retry < u16::MAX {
                            retry + 1
                        } else {
                            retry
                        };
                        Route::PeripheralWaitingView { peripheral, retry: new_retry }
                    },
                    other => other,
                };
                self.active_route = updated;
                ConnectStep::RetryAttempt
            },
            _ => ConnectStep::Enumerate,
        }
    }

    /// The end of a successful connect task: builds the connected-peripheral
    /// record from the enumerated attributes and transitions into the
    /// connected view — unless the task was cancelled meanwhile, in which
    /// case nothing is written.
    pub fn complete_connection(
        &mut self,
        task: usize,
        peripheral: HandledPeripheral,
        raws: &Vec<RawCharacteristic>,
    )
        requires
            old(self).wf(),
        ensures
            final(self).wf(),
            !old(self).spec_task_running(task) ==> *final(self) == *old(self),
            old(self).spec_task_running(task) ==> {
                &&& final(self).active_route matches Route::PeripheralConnectedView(cp)
                &&& (match final(self).active_route {
                    Route::PeripheralConnectedView(cp) => {
                        &&& cp.peripheral == peripheral
                        &&& sorted_by_sort(old(self).general_options.sort, cp.characteristics@)
                        &&& (exists|built: Seq<ConnectedCharacteristic>|
                            #![trigger built.to_multiset()]
                            {
                                &&& built.len() == raws@.len()
                                &&& (forall|k: int|
                                    0 <= k < built.len() ==> matches_raw(
                                        #[trigger] built[k],
                                        raws@[k],
                                        old(self).spec_names(),
                                    ))
                                &&& cp.characteristics@.to_multiset() == built.to_multiset()
                            })
                    },
                    _ => false,
                })
                &&& final(self).side_effect_tasks@ == old(self).side_effect_tasks@.update(
                    task as int,
                    TaskState::Finished,
                )
                &&& final(self).args == old(self).args
                &&& final(self).latest_scan == old(self).latest_scan
                &&& final(self).active_side_effect_handle == old(self).active_side_effect_handle
                &&& final(self).pending_spawn == old(self).pending_spawn
                &&& final(self).request_scan_restart == old(self).request_scan_restart
                &&& final(self).global_error == old(self).global_error
                &&& final(self).general_options == old(self).general_options
            },
    {
        if !self.task_running(task) {
            return ;
        }
        let cp = ConnectedPeripheral::new(
            self.args.names_map_file.as_ref(),
            &self.general_options,
            peripheral,
            raws,
        );
        self.active_route = Route::PeripheralConnectedView(cp);
        self.side_effect_tasks[task] = TaskState::Finished;
    }

    /// One round of the disconnect loop: an already-disconnected or completed
    /// call finishes the task; a timed-out call is retried after the fixed
    /// backoff; a cancelled task abandons without a write.
    pub fn disconnect_step(&mut self, task: usize, outcome: DisconnectOutcome) -> (r:
        DisconnectStep)
        requires
            old(self).wf(),
        ensures
            final(self).wf(),
            !old(self).spec_task_running(task) ==> r == DisconnectStep::Abandon && *final(self)
                == *old(self),
            old(self).spec_task_running(task) ==> match outcome {
                DisconnectOutcome::TimedOut => r == DisconnectStep::RetryAfterBackoff
                    && *final(self) == *old(self),
                _ => r == DisconnectStep::Done && final(self).side_effect_tasks@
                    == old(self).side_effect_tasks@.update(task as int, TaskState::Finished)
                    && (*final(self) == (Ctx {
                    side_effect_tasks: final(self).side_effect_tasks,
                    ..*old(self)
                })),
            },
    {
        if !self.task_running(task) {
            return DisconnectStep::Abandon;
        }
        match outcome {
            DisconnectOutcome::TimedOut => DisconnectStep::RetryAfterBackoff,
            _ => {
                self.side_effect_tasks[task] = TaskState::Finished;
                DisconnectStep::Done
            },
        }
    }

    /// One round of the value-poll loop: a successful read appends the
    /// observation to the watched view's history and sleeps; a failed read
    /// skips the sleep and polls again at once; a cancelled task abandons
    /// without a write. The loop has no natural end — it runs until the next
    /// navigation cancels it.
    pub fn poll_step(&mut self, task: usize, outcome: Option<CharacteristicValue>) -> (r: PollStep)
        requires
            old(self).wf(),
        ensures
            final(self).wf(),
            !old(self).spec_task_running(task) ==> r == PollStep::Abandon
                && *final(self) == *old(self),
            old(self).spec_task_running(task) && outcome is None ==> r == PollStep::PollAgain
                && *final(self) == *old(self),
            old(self).spec_task_running(task) && outcome is Some ==> {
                &&& r == PollStep::SleepThenPoll
                &&& (match old(self).active_route {
                    Route::CharacteristicView {
                        peripheral,
                        characteristic,
                        historical_view_index,
                        history,
                    } => {
                        &&& final(self).active_route matches Route::CharacteristicView {
                            peripheral: fp,
                            characteristic: fc,
                            historical_view_index: fh,
                            history: fhist,
                        } && fp == peripheral && fc == characteristic && fh
                            == historical_view_index && fhist@ == history@.push(outcome->0)
                    },
                    other => final(self).active_route == other,
                })
                &&& (*final(self) == (Ctx { active_route: final(self).active_route, ..*old(self) }))
            },
    {
        if !self.task_running(task) {
            return PollStep::Abandon;
        }
        match outcome {
            None => PollStep::PollAgain,
            Some(v) => {
                let mut cur = Route::PeripheralList;
                core::mem::swap(&mut self.active_route, &mut cur);
                let updated = match cur {
                    Route::CharacteristicView {
                        peripheral,
                        characteristic,
                        historical_view_index,
                        mut history,
                    } => {
                        history.push(v);
                        Route::CharacteristicView {
                            peripheral,
                            characteristic,
                            historical_view_index,
                            history,
                        }
                    },
                    other => other,
                };
                self.active_route = updated;
                PollStep::SleepThenPoll
            },
        }
    }

    /// Records a side-effect failure that no internal retry covers, as the
    /// single last unrecovered error — unless the task was cancelled
    /// meanwhile, in which case nothing is written.
    pub fn record_side_effect_error(&mut self, task: usize, error: Error)
        requires
            old(self).wf(),
        ensures
            final(self).wf(),
            !old(self).spec_task_running(task) ==> *final(self) == *old(self),
            old(self).spec_task_running(task) ==> {
                &&& final(self).global_error == Some(error)
                &&& final(self).side_effect_tasks@ == old(self).side_effect_tasks@.update(
                    task as int,
                    TaskState::Finished,
                )
                &&& (*final(self) == (Ctx {
                    global_error: final(self).global_error,
                    side_effect_tasks: final(self).side_effect_tasks,
                    ..*old(self)
                }))
            },
    {
        if !self.task_running(task) {
            return ;
        }
        self.global_error = Some(error);
        self.side_effect_tasks[task] = TaskState::Finished;
    }
}

} // verus!

verus! {

/// What every navigation does to the rest of the shared state: one new
/// running task spawned and registered, the previously registered one no
/// longer running, the transition work left for the runtime, and every other
/// field untouched.
pub open spec fn spec_navigated(old_ctx: Ctx, new_ctx: Ctx) -> bool {
    &&& new_ctx.side_effect_tasks@.len() == old_ctx.side_effect_tasks@.len() + 1
    &&& new_ctx.side_effect_tasks@.last() is Running
    &&& new_ctx.active_side_effect_handle == Some(old_ctx.side_effect_tasks@.len() as usize)
    &&& (match old_ctx.active_side_effect_handle {
        Some(h) => !(new_ctx.side_effect_tasks@[h as int] is Running),
        None => true,
    })
    &&& new_ctx.pending_spawn matches Some(ps) && ps.task == old_ctx.side_effect_tasks@.len()
        && ps.kind == spec_side_effect_kind(&old_ctx.active_route, &new_ctx.active_route)
        && ps.previous == old_ctx.active_route
    &&& new_ctx.latest_scan == old_ctx.latest_scan
    &&& new_ctx.request_scan_restart == old_ctx.request_scan_restart
    &&& new_ctx.global_error == old_ctx.global_error
    &&& new_ctx.general_options == old_ctx.general_options
    &&& new_ctx.args == old_ctx.args
}

} // verus!
