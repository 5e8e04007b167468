//! The navigation state machine end to end: task cancellation, connect
//! retries, the poll loop's history, and error gating.

use blendr::bluetooth::{CharProps, HandledPeripheral, PeripheralProps, RawCharacteristic};
use blendr::cli_args::{Args, GeneralSort};
use blendr::error::Error;
use blendr::keys::Key;
use blendr::route::{
    ConnectAttemptOutcome, ConnectStep, DisconnectOutcome, DisconnectStep, PollStep, Route,
    SideEffectKind, TaskState,
};
use blendr::route::CharacteristicValue;
use blendr::tui::{App, HandleKeydownResult};
use blendr::Ctx;

fn test_args(sort: Option<GeneralSort>) -> Args {
    Args {
        adapter_index: 0,
        scan_interval: 1000,
        regex_flags: String::from("(?i)"),
        device: None,
        characteristic: None,
        names_map_file: None,
        sort,
    }
}

fn peripheral(id: u128, name: &str, unknown: bool, rssi: Option<i16>) -> HandledPeripheral {
    HandledPeripheral {
        id,
        name_unset: unknown,
        address: String::from("00:11:22:33:44:55"),
        name: String::from(name),
        rssi,
        services_names: Vec::new(),
    }
}

fn props() -> CharProps {
    CharProps {
        can_broadcast: false,
        can_read: true,
        can_write: false,
        can_write_without_response: false,
        can_notify: false,
    }
}

#[test]
fn navigate_cancels_previous_task_before_registering_new() {
    let mut ctx = Ctx::new(test_args(None));
    Route::PeripheralWaitingView { peripheral: peripheral(1, "A", false, None), retry: 0 }
        .navigate(&mut ctx);
    assert_eq!(ctx.side_effect_tasks.len(), 1);
    assert!(matches!(ctx.side_effect_tasks[0], TaskState::Running));
    assert_eq!(ctx.active_side_effect_handle, Some(0));
    let pending = ctx.pending_spawn.take().unwrap();
    assert_eq!(pending.task, 0);
    assert!(matches!(pending.kind, SideEffectKind::Connect));
    assert!(matches!(pending.previous, Route::PeripheralList));

    Route::PeripheralList.navigate(&mut ctx);
    assert_eq!(ctx.side_effect_tasks.len(), 2);
    assert!(matches!(ctx.side_effect_tasks[0], TaskState::Cancelled));
    assert!(matches!(ctx.side_effect_tasks[1], TaskState::Running));
    assert_eq!(ctx.active_side_effect_handle, Some(1));
}

#[test]
fn cancelled_connect_task_never_reaches_connected_view() {
    // Discovery sees a named peripheral and one with no advertised name; the
    // name sort puts the named one first.
    let mut ctx = Ctx::new(test_args(Some(GeneralSort::Name)));
    let scan_props = vec![
        PeripheralProps {
            id: 2,
            address: String::from("bb"),
            local_name: None,
            rssi: None,
            services: Vec::new(),
        },
        PeripheralProps {
            id: 1,
            address: String::from("aa"),
            local_name: Some(String::from("A")),
            rssi: Some(-40),
            services: Vec::new(),
        },
    ];
    ctx.apply_scan(&scan_props, 7);
    let scan = ctx.latest_scan.as_ref().unwrap();
    assert_eq!(scan.sync_time_millis, 7);
    assert_eq!(scan.peripherals.len(), 2);
    assert_eq!(scan.peripherals[0].name, "A");
    assert_eq!(scan.peripherals[1].name, "Unknown device");
    assert!(scan.peripherals[1].name_unset);

    // Start connecting to B, then navigate away before the attempt ends.
    let b = peripheral(2, "Unknown device", true, None);
    Route::PeripheralWaitingView { peripheral: b.clone(), retry: 0 }.navigate(&mut ctx);
    let connect_task = ctx.pending_spawn.take().unwrap().task;
    Route::PeripheralList.navigate(&mut ctx);

    // The connect loop observes cancellation at its next suspension point.
    let step = ctx.connect_attempt_step(connect_task, ConnectAttemptOutcome::Succeeded);
    assert!(matches!(step, ConnectStep::Abandon));
    ctx.complete_connection(connect_task, b, &Vec::new());
    assert!(matches!(ctx.active_route, Route::PeripheralList));
}

#[test]
fn poll_loop_appends_in_arrival_order_and_new_view_resets_history() {
    let mut ctx = Ctx::new(test_args(None));
    let cp = blendr::bluetooth::ConnectedPeripheral {
        peripheral: peripheral(1, "A", false, Some(-40)),
        characteristics: Vec::new(),
    };
    let cc = blendr::bluetooth::RawCharacteristic {
        uuid: 0xAB,
        service_uuid: 0xCD,
        standard_gatt_char_name: None,
        standard_gatt_service_name: None,
        properties: props(),
    };
    let chars = blendr::bluetooth::build_characteristics(None, &vec![cc]);
    let route = Route::CharacteristicView {
        peripheral: cp.clone(),
        characteristic: chars[0].clone(),
        historical_view_index: Default::default(),
        history: Vec::new(),
    };
    route.navigate(&mut ctx);
    let task = ctx.pending_spawn.take().unwrap();
    assert!(matches!(task.kind, SideEffectKind::Poll));

    for (t, payload) in [(1i64, 0x01u8), (2, 0x02), (3, 0x03)] {
        let step = ctx.poll_step(
            task.task,
            Some(CharacteristicValue { time_millis: t, data: vec![payload] }),
        );
        assert!(matches!(step, PollStep::SleepThenPoll));
    }
    // A failed read polls again at once, without touching the history.
    assert!(matches!(ctx.poll_step(task.task, None), PollStep::PollAgain));
    match &ctx.active_route {
        Route::CharacteristicView { history, .. } => {
            assert_eq!(history.len(), 3);
            assert_eq!(history[0].data, vec![0x01]);
            assert_eq!(history[1].data, vec![0x02]);
            assert_eq!(history[2].data, vec![0x03]);
            assert_eq!(history[0].time_millis, 1);
        }
        _ => panic!("expected the value view"),
    }

    // Navigating away and back gives a fresh view with an empty history.
    Route::PeripheralConnectedView(cp.clone()).navigate(&mut ctx);
    Route::CharacteristicView {
        peripheral: cp,
        characteristic: chars[0].clone(),
        historical_view_index: Default::default(),
        history: Vec::new(),
    }
    .navigate(&mut ctx);
    match &ctx.active_route {
        Route::CharacteristicView { history, .. } => assert_eq!(history.len(), 0),
        _ => panic!("expected the value view"),
    }
    // The first poll task was cancelled; its late result is dropped.
    assert!(matches!(ctx.poll_step(task.task, Some(CharacteristicValue { time_millis: 9, data: vec![9] })), PollStep::Abandon));
}

#[test]
fn retry_count_reads_two_after_two_failures_and_zero_on_first_try() {
    let mut ctx = Ctx::new(test_args(None));
    let b = peripheral(2, "B", false, None);
    Route::PeripheralWaitingView { peripheral: b.clone(), retry: 0 }.navigate(&mut ctx);
    let task = ctx.pending_spawn.take().unwrap().task;

    assert!(matches!(
        ctx.connect_attempt_step(task, ConnectAttemptOutcome::Failed),
        ConnectStep::RetryAttempt
    ));
    assert!(matches!(
        ctx.connect_attempt_step(task, ConnectAttemptOutcome::Failed),
        ConnectStep::RetryAttempt
    ));
    let step = ctx.connect_attempt_step(task, ConnectAttemptOutcome::Succeeded);
    assert!(matches!(step, ConnectStep::Enumerate));
    match &ctx.active_route {
        Route::PeripheralWaitingView { retry, .. } => assert_eq!(*retry, 2),
        _ => panic!("expected the waiting view"),
    }
    let raws = vec![RawCharacteristic {
        uuid: 0xAB,
        service_uuid: 0xCD,
        standard_gatt_char_name: None,
        standard_gatt_service_name: None,
        properties: props(),
    }];
    ctx.complete_connection(task, b, &raws);
    match &ctx.active_route {
        Route::PeripheralConnectedView(cp) => {
            assert_eq!(cp.characteristics.len(), 1);
            assert_eq!(cp.characteristics[0].uuid, 0xAB);
        }
        _ => panic!("expected the connected view"),
    }

    // A connection that succeeds at once leaves the counter at zero.
    let mut ctx2 = Ctx::new(test_args(None));
    Route::PeripheralWaitingView { peripheral: peripheral(3, "C", false, None), retry: 0 }
        .navigate(&mut ctx2);
    let task2 = ctx2.pending_spawn.take().unwrap().task;
    assert!(matches!(
        ctx2.connect_attempt_step(task2, ConnectAttemptOutcome::AlreadyConnected),
        ConnectStep::Enumerate
    ));
    match &ctx2.active_route {
        Route::PeripheralWaitingView { retry, .. } => assert_eq!(*retry, 0),
        _ => panic!("expected the waiting view"),
    }
}

#[test]
fn disconnect_retries_on_timeout_and_finishes_otherwise() {
    let mut ctx = Ctx::new(test_args(None));
    Route::PeripheralList.navigate(&mut ctx);
    let task = ctx.pending_spawn.take().unwrap().task;
    assert!(matches!(
        ctx.disconnect_step(task, DisconnectOutcome::TimedOut),
        DisconnectStep::RetryAfterBackoff
    ));
    assert!(matches!(
        ctx.disconnect_step(task, DisconnectOutcome::AlreadyDisconnected),
        DisconnectStep::Done
    ));
    assert!(matches!(ctx.side_effect_tasks[task], TaskState::Finished));
}

#[test]
fn side_effect_error_is_recorded_once_and_must_be_dismissed() {
    let mut ctx = Ctx::new(test_args(None));
    Route::PeripheralList.navigate(&mut ctx);
    let task = ctx.pending_spawn.take().unwrap().task;
    ctx.record_side_effect_error(task, Error::client("link lost"));
    assert!(ctx.global_error.is_some());

    // While the error is pending, navigation keys are not processed.
    let mut app = App {
        peripheral_list: blendr::peripheral_list::PeripheralList::new(&test_args(None)),
        peripheral_view: blendr::peripheral_view::PeripheralView::new(&test_args(None)),
        connection_view: blendr::connection_view::ConnectionView::new(false),
        error_view: blendr::error_popup::ErrorView::new(),
        welcome_screen: blendr::welcome::WelcomeBlock::new(),
    };
    let outcome = app.handle_key(&mut ctx, 80, &Key::Down);
    assert!(!outcome.quit);
    assert!(ctx.global_error.is_some());
    let outcome = app.handle_key(&mut ctx, 80, &Key::Esc);
    assert!(!outcome.quit);
    assert!(ctx.global_error.is_none());
    // The quit keys always exit.
    assert!(app.handle_key(&mut ctx, 80, &Key::Char('q')).quit);
    assert!(app.handle_key(&mut ctx, 80, &Key::CtrlC).quit);
}

#[test]
fn cancelled_task_error_is_dropped() {
    let mut ctx = Ctx::new(test_args(None));
    Route::PeripheralList.navigate(&mut ctx);
    let task = ctx.pending_spawn.take().unwrap().task;
    Route::PeripheralList.navigate(&mut ctx);
    ctx.record_side_effect_error(task, Error::client("stale"));
    assert!(ctx.global_error.is_none());
}

#[test]
fn discovery_restart_flag_is_served_once() {
    let mut ctx = Ctx::new(test_args(None));
    assert!(!ctx.take_scan_restart());
    ctx.request_discovery_restart();
    assert!(ctx.take_scan_restart());
    assert!(!ctx.take_scan_restart());
}
