//! Core logic of a keyboard-driven browser for live-discovered wireless
//! peripherals: a navigation state machine with cancellable background
//! side-effects, an identity-stable selection list over a continuously
//! re-filtered collection, and the shared application state that binds a
//! perpetual discovery loop, one side-effect task and a render loop together.
#![allow(unused_imports)]

pub mod block;
pub mod bluetooth;
pub mod cli_args;
pub mod connection_view;
pub mod error;
pub mod error_popup;
pub mod general_options;
pub mod ids;
pub mod keys;
pub mod peripheral_list;
pub mod peripheral_view;
pub mod route;
pub mod tui;
pub mod text;
pub mod ui;
pub mod welcome;

use crate::bluetooth::matches_props;
use crate::bluetooth::merge_peripherals;
use crate::bluetooth::spec_names_view;
use crate::bluetooth::BleScan;
use crate::bluetooth::PeripheralProps;
use crate::cli_args::sorted_by_sort;
use crate::cli_args::Args;
use crate::cli_args::GeneralSort;
use crate::error::Error;
use crate::general_options::GeneralOptions;
use crate::route::PendingSideEffect;
use crate::route::Route;
use crate::route::TaskState;
use vstd::prelude::*;

verus! {

/// The process-wide shared state. Every component interacts through it: the
/// discovery loop replaces the snapshot, the active side-effect task writes
/// its outcome, the view controllers navigate, and the render loop reads.
///
/// The front end synchronizes each field group on its own; the library
/// describes what every write does to the whole.
pub struct Ctx {
    /// The configuration, fixed at startup.
    pub args: Args,
    /// The latest discovery snapshot, replaced wholesale on each refresh.
    pub latest_scan: Option<BleScan>,
    /// The route the interface is on; exactly one at any instant.
    pub active_route: Route,
    /// Every side-effect task ever spawned, by id, with its state.
    pub side_effect_tasks: Vec<TaskState>,
    /// The id of the side-effect task registered as active, if any.
    pub active_side_effect_handle: Option<usize>,
    /// The transition work the runtime has not started yet.
    pub pending_spawn: Option<PendingSideEffect>,
    /// Whether a view controller asked the discovery loop to restart.
    pub request_scan_restart: bool,
    /// The last unrecovered error, until dismissed.
    pub global_error: Option<Error>,
    /// The options every view consults.
    pub general_options: GeneralOptions,
}

impl Ctx {
    /// What every transition preserves: the registered handle is a real
    /// task, and every running task is the registered one — so at most one
    /// side-effect task is ever running.
    pub open spec fn wf(&self) -> bool {
        &&& match self.active_side_effect_handle {
            Some(h) => h < self.side_effect_tasks@.len(),
            None => true,
        }
        &&& forall|t: int|
            0 <= t < self.side_effect_tasks@.len() && self.side_effect_tasks@[t] is Running
                ==> self.active_side_effect_handle == Some(t as usize)
    }

    /// The state at startup: no snapshot yet, the list route, no task, no
    /// error, and the configured options.
    pub fn new(args: Args) -> (r: Self)
        ensures
            r.wf(),
            r.latest_scan is None,
            r.active_route is PeripheralList,
            r.side_effect_tasks@.len() == 0,
            r.active_side_effect_handle is None,
            r.pending_spawn is None,
            r.request_scan_restart == false,
            r.global_error is None,
            r.general_options.sort == (match args.sort {
                Some(s) => s,
                None => GeneralSort::DefaultSort,
            }),
            r.args == args,
    {
        let general_options = GeneralOptions::new(&args);
        Ctx {
            args,
            latest_scan: None,
            active_route: Route::PeripheralList,
            side_effect_tasks: Vec::new(),
            active_side_effect_handle: None,
            pending_spawn: None,
            request_scan_restart: false,
            global_error: None,
            general_options,
        }
    }

    /// The route the interface is on, for the render loop.
    pub fn get_active_route(&self) -> (r: &Route)
        ensures
            r == &self.active_route,
    {
        &self.active_route
    }

    /// Whether the given task may still write: it was spawned and has not
    /// been cancelled or finished.
    pub open spec fn spec_task_running(&self, task: usize) -> bool {
        task < self.side_effect_tasks@.len() && self.side_effect_tasks@[task as int] is Running
    }

    /// Whether the given task may still write. A side-effect task asks this
    /// after every suspension point; once it is no longer running it performs
    /// no further writes.
    pub fn task_running(&self, task: usize) -> (r: bool)
        ensures
            r == self.spec_task_running(task),
    {
        if task < self.side_effect_tasks.len() {
            match self.side_effect_tasks[task] {
                TaskState::Running => true,
                _ => false,
            }
        } else {
            false
        }
    }

    /// One discovery refresh: merges the reported properties into peripheral
    /// records, orders them under the active sort, and replaces the snapshot
    /// wholesale.
    pub fn apply_scan(&mut self, props: &Vec<PeripheralProps>, now_millis: i64)
        requires
            old(self).wf(),
        ensures
            final(self).wf(),
            final(self).latest_scan matches Some(scan) && scan.sync_time_millis == now_millis
                && sorted_by_sort(old(self).general_options.sort, scan.peripherals@) && (exists|
                merged: Seq<bluetooth::HandledPeripheral>,
            |
                #![trigger merged.to_multiset()]
                {
                    &&& merged.len() == props@.len()
                    &&& (forall|k: int|
                        0 <= k < merged.len() ==> matches_props(
                            #[trigger] merged[k],
                            props@[k],
                            spec_names_view(
                                match old(self).args.names_map_file {
                                    Some(ref m) => Some(m),
                                    None => None,
                                },
                            ),
                        ))
                    &&& scan.peripherals@.to_multiset() == merged.to_multiset()
                }),
            final(self).active_route == old(self).active_route,
            final(self).side_effect_tasks == old(self).side_effect_tasks,
            final(self).active_side_effect_handle == old(self).active_side_effect_handle,
            final(self).pending_spawn == old(self).pending_spawn,
            final(self).request_scan_restart == old(self).request_scan_restart,
            final(self).global_error == old(self).global_error,
            final(self).general_options == old(self).general_options,
            final(self).args == old(self).args,
    {
        let names = self.args.names_map_file.as_ref();
        let mut merged = merge_peripherals(props, names);
        let ghost merged_seq = merged@;
        self.general_options.sort.sort(&mut merged);
        self.latest_scan = Some(BleScan { peripherals: merged, sync_time_millis: now_millis });
    }

    /// Asks the discovery loop to restart its session before the next
    /// snapshot.
    pub fn request_discovery_restart(&mut self)
        ensures
            *final(self) == (Ctx { request_scan_restart: true, ..*old(self) }),
    {
        self.request_scan_restart = true;
    }

    /// Hands the discovery loop the restart flag and clears it: a requested
    /// restart is served once.
    pub fn take_scan_restart(&mut self) -> (r: bool)
        ensures
            r == old(self).request_scan_restart,
            *final(self) == (Ctx { request_scan_restart: false, ..*old(self) }),
    {
        let r = self.request_scan_restart;
        self.request_scan_restart = false;
        r
    }

    /// Records the discovery loop's fatal error: no further snapshots come
    /// until the process is restarted.
    pub fn record_discovery_error(&mut self, error: Error)
        ensures
            *final(self) == (Ctx { global_error: Some(error), ..*old(self) }),
    {
        self.global_error = Some(error);
    }
}

} // verus!

