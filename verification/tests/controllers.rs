//! The view controllers over the shared state: key routing, navigation, the
//! view switches, and the automatic descent into a single match.

use blendr::bluetooth::{CharProps, PeripheralProps, RawCharacteristic, ServiceInfo};
use blendr::cli_args::{Args, GeneralSort};
use blendr::connection_view::ConnectionView;
use blendr::general_options::GeneralOptions;
use blendr::keys::Key;
use blendr::peripheral_list::PeripheralList;
use blendr::peripheral_view::PeripheralView;
use blendr::route::{Route, SideEffectKind};
use blendr::tui::{get_active_blocks, BlockVariant, HandleKeydownResult, PanelKind};
use blendr::Ctx;

fn test_args() -> Args {
    Args {
        adapter_index: 0,
        scan_interval: 1000,
        regex_flags: String::from("(?i)"),
        device: None,
        characteristic: None,
        names_map_file: None,
        sort: Some(GeneralSort::Name),
    }
}

fn scanned_ctx() -> Ctx {
    let mut ctx = Ctx::new(test_args());
    let scan_props = vec![
        PeripheralProps {
            id: 1,
            address: String::from("aa"),
            local_name: Some(String::from("Apple")),
            rssi: Some(-40),
            services: Vec::new(),
        },
        PeripheralProps {
            id: 2,
            address: String::from("bb"),
            local_name: Some(String::from("banana")),
            rssi: Some(-60),
            services: vec![ServiceInfo { uuid: 7, standard_name: None }],
        },
    ];
    ctx.apply_scan(&scan_props, 0);
    ctx
}

fn props() -> CharProps {
    CharProps {
        can_broadcast: false,
        can_read: true,
        can_write: false,
        can_write_without_response: false,
        can_notify: false,
    }
}

#[test]
fn choosing_a_peripheral_starts_a_connection() {
    let mut ctx = scanned_ctx();
    let mut view = PeripheralList::new(&test_args());
    let r = view.handle_input(&mut ctx, &Key::Down);
    assert_eq!(r, HandleKeydownResult::Continue);
    assert_eq!(view.list_state.selected(), Some(1));
    view.handle_input(&mut ctx, &Key::Up);
    assert_eq!(view.list_state.selected(), Some(0));
    view.handle_input(&mut ctx, &Key::Enter);
    match &ctx.active_route {
        Route::PeripheralWaitingView { peripheral, retry } => {
            assert_eq!(peripheral.name, "Apple");
            assert_eq!(*retry, 0);
        }
        _ => panic!("expected the waiting view"),
    }
    let pending = ctx.pending_spawn.take().unwrap();
    assert!(matches!(pending.kind, SideEffectKind::Connect));
}

#[test]
fn list_switches_flip_and_search_focus_edits_text() {
    let mut ctx = scanned_ctx();
    let mut view = PeripheralList::new(&test_args());
    view.handle_input(&mut ctx, &Key::Char('u'));
    assert!(view.to_remove_unknowns);
    view.handle_input(&mut ctx, &Key::Char('r'));
    assert!(ctx.request_scan_restart);
    view.handle_input(&mut ctx, &Key::Char('s'));
    assert_eq!(ctx.general_options.sort, GeneralSort::DefaultSort);

    view.handle_input(&mut ctx, &Key::Char('/'));
    assert!(matches!(view.focus, blendr::peripheral_list::Focus::Search));
    view.handle_input(&mut ctx, &Key::Char('a'));
    view.handle_input(&mut ctx, &Key::Char('p'));
    assert_eq!(view.search.as_deref(), Some("ap"));
    assert!(view.search_regex.is_some());
    view.handle_input(&mut ctx, &Key::Enter);
    assert!(matches!(view.focus, blendr::peripheral_list::Focus::List));
    // Exactly one peripheral matches "ap" case-insensitively; it is selected.
    assert_eq!(view.list_state.selected(), Some(0));
}

#[test]
fn typing_a_malformed_filter_keeps_the_compiled_one() {
    let mut ctx = scanned_ctx();
    let mut view = PeripheralList::new(&test_args());
    view.handle_input(&mut ctx, &Key::Char('/'));
    view.handle_input(&mut ctx, &Key::Char('a'));
    assert_eq!(view.search.as_deref(), Some("a"));
    assert!(view.search_regex.is_some());
    // "a(" does not compile: the stored expression stays as it was.
    view.handle_input(&mut ctx, &Key::Char('('));
    assert_eq!(view.search.as_deref(), Some("a("));
    assert!(view.search_regex.is_some());
    // Deleting back to usable text recompiles.
    view.handle_input(&mut ctx, &Key::Backspace);
    assert_eq!(view.search.as_deref(), Some("a"));
    assert!(view.search_regex.is_some());
    // Back in list focus, an unhandled key changes nothing.
    view.handle_input(&mut ctx, &Key::Esc);
    let before_restart = ctx.request_scan_restart;
    view.handle_input(&mut ctx, &Key::Char('x'));
    assert_eq!(ctx.request_scan_restart, before_restart);
}

#[test]
fn auto_descent_fires_once_for_a_single_match() {
    let mut ctx = scanned_ctx();
    let mut args = test_args();
    args.device = Some(String::from("banana"));
    let mut view = PeripheralList::new(&args);
    view.maybe_auto_navigate(&mut ctx);
    match &ctx.active_route {
        Route::PeripheralWaitingView { peripheral, .. } => assert_eq!(peripheral.name, "banana"),
        _ => panic!("expected the waiting view"),
    }
    assert!(view.first_match_done);
    // It never fires a second time.
    Route::PeripheralList.navigate(&mut ctx);
    view.maybe_auto_navigate(&mut ctx);
    assert!(matches!(ctx.active_route, Route::PeripheralList));
}

#[test]
fn characteristics_view_descends_and_disconnects() {
    let mut ctx = scanned_ctx();
    let b = blendr::bluetooth::HandledPeripheral {
        id: 2,
        name_unset: false,
        address: String::from("bb"),
        name: String::from("banana"),
        rssi: Some(-60),
        services_names: Vec::new(),
    };
    Route::PeripheralWaitingView { peripheral: b.clone(), retry: 0 }.navigate(&mut ctx);
    let task = ctx.pending_spawn.take().unwrap().task;
    let raws = vec![
        RawCharacteristic {
            uuid: 0xAB,
            service_uuid: 0xCD,
            standard_gatt_char_name: Some(String::from("First")),
            standard_gatt_service_name: None,
            properties: props(),
        },
        RawCharacteristic {
            uuid: 0xEF,
            service_uuid: 0xCD,
            standard_gatt_char_name: Some(String::from("Second")),
            standard_gatt_service_name: None,
            properties: props(),
        },
    ];
    ctx.complete_connection(task, b, &raws);
    assert!(matches!(ctx.active_route, Route::PeripheralConnectedView(_)));

    let mut view = PeripheralView::new(&test_args());
    view.handle_input(&mut ctx, &Key::Down);
    view.handle_input(&mut ctx, &Key::Enter);
    match &ctx.active_route {
        Route::CharacteristicView { characteristic, history, .. } => {
            assert_eq!(history.len(), 0);
            assert!(characteristic.uuid == 0xAB || characteristic.uuid == 0xEF);
        }
        _ => panic!("expected the value view"),
    }
    // Disconnecting from the list focus is consumed and goes back to the list.
    let r = view.handle_input(&mut ctx, &Key::Char('d'));
    assert_eq!(r, HandleKeydownResult::Handled);
    assert!(matches!(ctx.active_route, Route::PeripheralList));
}

#[test]
fn value_view_keys_step_through_history_and_copy_ids() {
    let mut ctx = scanned_ctx();
    let cp = blendr::bluetooth::ConnectedPeripheral {
        peripheral: blendr::bluetooth::HandledPeripheral {
            id: 2,
            name_unset: false,
            address: String::from("bb"),
            name: String::from("banana"),
            rssi: None,
            services_names: Vec::new(),
        },
        characteristics: Vec::new(),
    };
    let chars = blendr::bluetooth::build_characteristics(
        None,
        &vec![RawCharacteristic {
            uuid: 0xAB,
            service_uuid: 0xCD,
            standard_gatt_char_name: None,
            standard_gatt_service_name: None,
            properties: props(),
        }],
    );
    Route::CharacteristicView {
        peripheral: cp,
        characteristic: chars[0].clone(),
        historical_view_index: Default::default(),
        history: Vec::new(),
    }
    .navigate(&mut ctx);
    let task = ctx.pending_spawn.take().unwrap().task;
    for t in 0..3i64 {
        ctx.poll_step(
            task,
            Some(blendr::route::CharacteristicValue { time_millis: t, data: vec![t as u8] }),
        );
    }

    let mut view = ConnectionView::new(true);
    let (r, copy) = view.handle_input(&mut ctx, &Key::Left);
    assert_eq!(r, HandleKeydownResult::Handled);
    assert!(copy.is_none());
    match &ctx.active_route {
        Route::CharacteristicView { historical_view_index, .. } => {
            assert_eq!(historical_view_index.read(), Some(2));
        }
        _ => panic!("expected the value view"),
    }
    view.handle_input(&mut ctx, &Key::Left);
    view.handle_input(&mut ctx, &Key::Left);
    match &ctx.active_route {
        Route::CharacteristicView { historical_view_index, .. } => {
            assert_eq!(historical_view_index.read(), Some(0));
        }
        _ => panic!("expected the value view"),
    }
    // Stepping forward walks the history; from the second-newest value it
    // returns to the live view.
    view.handle_input(&mut ctx, &Key::Right);
    match &ctx.active_route {
        Route::CharacteristicView { historical_view_index, .. } => {
            assert_eq!(historical_view_index.read(), Some(1));
        }
        _ => panic!("expected the value view"),
    }
    view.handle_input(&mut ctx, &Key::Right);
    match &ctx.active_route {
        Route::CharacteristicView { historical_view_index, .. } => {
            assert_eq!(historical_view_index.read(), None);
        }
        _ => panic!("expected the value view"),
    }
    // The copy keys hand back the ids as text.
    let (_, copy) = view.handle_input(&mut ctx, &Key::Char('c'));
    assert_eq!(copy.as_deref(), Some("00000000-0000-0000-0000-0000000000ab"));
    assert_eq!(view.highlight_copy_char_renders_delay_stack, 4);
    let (_, copy) = view.handle_input(&mut ctx, &Key::Char('s'));
    assert_eq!(copy.as_deref(), Some("00000000-0000-0000-0000-0000000000cd"));
    // The reading switches flip and consume the key.
    let (r, _) = view.handle_input(&mut ctx, &Key::Char('u'));
    assert_eq!(r, HandleKeydownResult::Handled);
    assert!(view.unsigned_numbers);
}

#[test]
fn sort_toggle_key_flips_the_shared_options() {
    let mut ctx = Ctx::new(test_args());
    assert_eq!(ctx.general_options.sort, GeneralSort::Name);
    assert!(GeneralOptions::handle_keystroke(&Key::Char('n'), &mut ctx));
    assert_eq!(ctx.general_options.sort, GeneralSort::DefaultSort);
    assert!(!GeneralOptions::handle_keystroke(&Key::Char('x'), &mut ctx));
    assert_eq!(ctx.general_options.sort, GeneralSort::DefaultSort);
}

#[test]
fn visible_panels_follow_the_route_and_the_width() {
    let mut ctx = Ctx::new(test_args());
    let blocks = get_active_blocks(&ctx, 80);
    assert!(matches!(blocks[0], BlockVariant::Primary(PanelKind::WelcomePanel)));
    assert_eq!(blocks.len(), 1);

    let mut ctx = scanned_ctx();
    let blocks = get_active_blocks(&ctx, 80);
    assert!(matches!(blocks[0], BlockVariant::Primary(PanelKind::PeripheralListPanel)));
    assert!(matches!(blocks[1], BlockVariant::Secondary(PanelKind::WelcomePanel)));

    let cp = blendr::bluetooth::ConnectedPeripheral {
        peripheral: blendr::bluetooth::HandledPeripheral {
            id: 1,
            name_unset: false,
            address: String::from("aa"),
            name: String::from("Apple"),
            rssi: None,
            services_names: Vec::new(),
        },
        characteristics: Vec::new(),
    };
    Route::PeripheralConnectedView(cp.clone()).navigate(&mut ctx);
    let blocks = get_active_blocks(&ctx, 80);
    assert!(matches!(blocks[0], BlockVariant::Secondary(PanelKind::PeripheralListPanel)));
    assert!(matches!(blocks[1], BlockVariant::Primary(PanelKind::PeripheralViewPanel)));

    let chars = blendr::bluetooth::build_characteristics(
        None,
        &vec![RawCharacteristic {
            uuid: 0xAB,
            service_uuid: 0xCD,
            standard_gatt_char_name: None,
            standard_gatt_service_name: None,
            properties: props(),
        }],
    );
    Route::CharacteristicView {
        peripheral: cp,
        characteristic: chars[0].clone(),
        historical_view_index: Default::default(),
        history: Vec::new(),
    }
    .navigate(&mut ctx);
    let narrow = get_active_blocks(&ctx, 80);
    assert_eq!(narrow.len(), 2);
    assert!(matches!(narrow[0], BlockVariant::Primary(PanelKind::PeripheralViewPanel)));
    let wide = get_active_blocks(&ctx, 220);
    assert_eq!(wide.len(), 3);
    assert!(matches!(wide[2], BlockVariant::Primary(PanelKind::ConnectionViewPanel)));
}

#[test]
fn selection_survives_refilter_but_not_disappearance() {
    let mut ctx = scanned_ctx();
    let mut view = PeripheralList::new(&test_args());
    // Select "banana" (position 1 under the name sort).
    view.handle_input(&mut ctx, &Key::Down);
    assert_eq!(view.list_state.selected(), Some(1));
    // A filter hides "Apple": the same identity is now at position 0.
    view.search = Some(String::from("banana"));
    view.search_regex = None;
    view.handle_input(&mut ctx, &Key::Other);
    assert_eq!(view.list_state.selected(), Some(0));
    // A filter that hides "banana" too leaves nothing selected.
    view.search = Some(String::from("zzz"));
    view.handle_input(&mut ctx, &Key::Other);
    assert_eq!(view.list_state.selected(), None);
}
