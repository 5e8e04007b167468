//! The live filters, the text helpers, the ids and the payload readings.

use blendr::bluetooth::{
    build_characteristics, display_properties, CharProps, HandledPeripheral, PeripheralProps,
    RawCharacteristic, ServiceInfo,
};
use blendr::cli_args::{Args, GeneralSort, NameMap};
use blendr::connection_view::{
    active_value_index, parse_numeric_value, render_title_with_navigation_controls, ParsedScalar,
};
use blendr::error::Error;
use blendr::error_popup::{centered_rect, Rect};
use blendr::ids::create_ble_uuid;
use blendr::keys::Key;
use blendr::peripheral_list::{Focus, PeripheralList};
use blendr::text::str_contains;
use blendr::ui::list::StableListState;
use blendr::ui::search_input::{handle_search_input, maybe_update_search_regexp, ShouldUpdate};

fn test_args() -> Args {
    Args {
        adapter_index: 0,
        scan_interval: 1000,
        regex_flags: String::from("(?i)"),
        device: None,
        characteristic: None,
        names_map_file: None,
        sort: Some(GeneralSort::Name),
    }
}

fn peripheral(id: u128, name: &str, unknown: bool, services: &[&str]) -> HandledPeripheral {
    HandledPeripheral {
        id,
        name_unset: unknown,
        address: String::from("aa"),
        name: String::from(name),
        rssi: None,
        services_names: services.iter().map(|s| String::from(*s)).collect(),
    }
}

#[test]
fn plain_search_matches_name_or_service_names() {
    let mut view = PeripheralList::new(&test_args());
    view.search = Some(String::from("rate"));
    view.search_regex = None;
    assert!(view.filter_peripherals(&peripheral(1, "heart rate monitor", false, &[])));
    assert!(view.filter_peripherals(&peripheral(2, "watch", false, &["Heart rate", "x"])));
    assert!(!view.filter_peripherals(&peripheral(3, "watch", false, &["battery"])));
}

#[test]
fn regex_search_is_case_insensitive_through_the_flags() {
    let mut view = PeripheralList::new(&test_args());
    view.search = Some(String::from("HEART"));
    match maybe_update_search_regexp(view.search.as_ref(), None, &String::from("(?i)")) {
        ShouldUpdate::Update(re) => view.search_regex = re,
        ShouldUpdate::NoUpdate => panic!("a changed search must recompile"),
    }
    assert!(view.search_regex.is_some());
    assert!(view.filter_peripherals(&peripheral(1, "heart rate", false, &[])));
    assert!(!view.filter_peripherals(&peripheral(2, "watch", false, &[])));
}

#[test]
fn hidden_unknowns_drop_out_of_the_list() {
    let mut view = PeripheralList::new(&test_args());
    view.to_remove_unknowns = true;
    assert!(!view.filter_peripherals(&peripheral(1, "Unknown device", true, &[])));
    assert!(view.filter_peripherals(&peripheral(2, "named", false, &[])));
}

#[test]
fn malformed_expression_is_ignored_and_keeps_the_stored_filter() {
    // A changed text that does not compile is silently ignored: the stored
    // expression does not update.
    let search = Some(String::from("(unclosed"));
    assert!(matches!(
        maybe_update_search_regexp(search.as_ref(), None, &String::from("")),
        ShouldUpdate::NoUpdate
    ));
    // A changed text that compiles replaces the stored expression.
    let search = Some(String::from("[a-z]+"));
    match maybe_update_search_regexp(search.as_ref(), None, &String::from("")) {
        ShouldUpdate::Update(re) => assert!(re.is_some()),
        ShouldUpdate::NoUpdate => panic!("a usable changed search must recompile"),
    }
    // An unchanged search is not recompiled; a cleared one clears the store.
    let last = Some(String::from("abc"));
    let cur = Some(String::from("abc"));
    assert!(matches!(
        maybe_update_search_regexp(cur.as_ref(), last.as_ref(), &String::from("")),
        ShouldUpdate::NoUpdate
    ));
    assert!(matches!(
        maybe_update_search_regexp(None, last.as_ref(), &String::from("")),
        ShouldUpdate::Update(None)
    ));
}

#[test]
fn search_text_editing_appends_and_removes_characters() {
    let mut search: Option<String> = None;
    handle_search_input(&mut search, &Key::Char('h'));
    handle_search_input(&mut search, &Key::Char('i'));
    assert_eq!(search.as_deref(), Some("hi"));
    handle_search_input(&mut search, &Key::Backspace);
    assert_eq!(search.as_deref(), Some("h"));
    handle_search_input(&mut search, &Key::Down);
    assert_eq!(search.as_deref(), Some("h"));
}

#[test]
fn substring_search_finds_patterns() {
    assert!(str_contains("heart rate", "rate"));
    assert!(str_contains("heart rate", ""));
    assert!(!str_contains("heart", "rate"));
}

#[test]
fn standard_ids_widen_onto_the_base_id() {
    assert_eq!(
        create_ble_uuid(0x180A),
        0x0000180A_0000_1000_8000_0080_5F9B_34FB_u128
    );
    assert_eq!(
        create_ble_uuid(0xFFE0),
        0x0000FFE0_0000_1000_8000_0080_5F9B_34FB_u128
    );
}

#[test]
fn merge_builds_service_names_from_map_standard_and_id() {
    let mut names = NameMap::new();
    let uuid = create_ble_uuid(0xFFE0);
    names.push(uuid, String::from("Cpu Temperature"));
    let mut args = test_args();
    args.names_map_file = Some(names);
    let mut ctx = blendr::Ctx::new(args);
    let scan_props = vec![PeripheralProps {
        id: 9,
        address: String::from("aa"),
        local_name: Some(String::from("sensor")),
        rssi: Some(-51),
        services: vec![ServiceInfo { uuid, standard_name: Some(String::from("Well Known")) }],
    }];
    ctx.apply_scan(&scan_props, 0);
    let scan = ctx.latest_scan.as_ref().unwrap();
    assert_eq!(
        scan.peripherals[0].services_names,
        vec![
            String::from("Cpu Temperature"),
            String::from("Well Known"),
            String::from("0000ffe0-0000-1000-8000-00805f9b34fb"),
        ]
    );
}

#[test]
fn characteristic_names_resolve_custom_then_standard_then_id() {
    let mut names = NameMap::new();
    names.push(0xAB, String::from("My Data"));
    names.push(0xCD, String::from("My Service"));
    let raws = vec![
        RawCharacteristic {
            uuid: 0xAB,
            service_uuid: 0xCD,
            standard_gatt_char_name: Some(String::from("Battery Level")),
            standard_gatt_service_name: None,
            properties: CharProps {
                can_broadcast: false,
                can_read: true,
                can_write: false,
                can_write_without_response: false,
                can_notify: false,
            },
        },
        RawCharacteristic {
            uuid: 0xEF,
            service_uuid: 0xCD,
            standard_gatt_char_name: Some(String::from("Heart Rate Measurement")),
            standard_gatt_service_name: None,
            properties: CharProps {
                can_broadcast: false,
                can_read: false,
                can_write: true,
                can_write_without_response: false,
                can_notify: true,
            },
        },
    ];
    let built = build_characteristics(Some(&names), &raws);
    assert_eq!(
        built[0].char_name(),
        "My Data (00000000-0000-0000-0000-0000000000ab)"
    );
    assert!(built[0].has_readable_char_name());
    assert_eq!(built[1].char_name(), "Heart Rate Measurement");
    assert_eq!(built[1].custom_char_name, None);
    // The user's service name is keyed by the owning service's id, not by
    // the characteristic's: both characteristics of service 0xCD carry it.
    assert_eq!(built[0].custom_service_name.as_deref(), Some("My Service"));
    assert_eq!(built[1].custom_service_name.as_deref(), Some("My Service"));
    assert_eq!(
        built[1].service_name(),
        "My Service (00000000-0000-0000-0000-0000000000cd)"
    );
    // A characteristic with no resolved name shows its id.
    let bare = build_characteristics(
        None,
        &vec![RawCharacteristic {
            uuid: 0x11,
            service_uuid: 0x22,
            standard_gatt_char_name: None,
            standard_gatt_service_name: None,
            properties: raws[0].properties,
        }],
    );
    assert!(!bare[0].has_readable_char_name());
    assert_eq!(bare[0].char_name(), "00000000-0000-0000-0000-000000000011");
    // With no resolved service name, the owning service's own id is shown.
    assert_eq!(bare[0].service_name(), "00000000-0000-0000-0000-000000000022");
    // An entry under the characteristic's id names the characteristic only,
    // never its service.
    let mut char_only = NameMap::new();
    char_only.push(0x11, String::from("Just The Value"));
    let named = build_characteristics(
        Some(&char_only),
        &vec![RawCharacteristic {
            uuid: 0x11,
            service_uuid: 0x22,
            standard_gatt_char_name: None,
            standard_gatt_service_name: None,
            properties: raws[0].properties,
        }],
    );
    assert_eq!(named[0].custom_char_name.as_deref(), Some("Just The Value"));
    assert_eq!(named[0].custom_service_name, None);
}

#[test]
fn advertised_abilities_render_as_a_comma_separated_line() {
    let all = CharProps {
        can_broadcast: true,
        can_read: true,
        can_write: true,
        can_write_without_response: false,
        can_notify: true,
    };
    assert_eq!(display_properties(&all), "Broadcast, Read, Write, Notify");
    let read_only = CharProps {
        can_broadcast: false,
        can_read: true,
        can_write: false,
        can_write_without_response: false,
        can_notify: false,
    };
    assert_eq!(display_properties(&read_only), "Read");
    let write_without = CharProps {
        can_broadcast: false,
        can_read: false,
        can_write: false,
        can_write_without_response: true,
        can_notify: false,
    };
    assert_eq!(display_properties(&write_without), "Write");
    let none = CharProps {
        can_broadcast: false,
        can_read: false,
        can_write: false,
        can_write_without_response: false,
        can_notify: false,
    };
    assert_eq!(display_properties(&none), "");
}

#[test]
fn payloads_read_as_numbers_by_exact_length() {
    assert_eq!(parse_numeric_value(&vec![0x2A], true), Some(ParsedScalar::U8(42)));
    assert_eq!(parse_numeric_value(&vec![0xFF], false), Some(ParsedScalar::I8(-1)));
    assert_eq!(
        parse_numeric_value(&vec![0x01, 0x00, 0x00, 0x00], true),
        Some(ParsedScalar::U32(1))
    );
    assert_eq!(
        parse_numeric_value(&vec![0xFE, 0xFF, 0xFF, 0xFF], false),
        Some(ParsedScalar::I32(-2))
    );
    assert_eq!(
        parse_numeric_value(&vec![0x39, 0x30, 0, 0, 0, 0, 0, 0], true),
        Some(ParsedScalar::U64(12345))
    );
    assert_eq!(
        parse_numeric_value(&vec![0xFF; 8], false),
        Some(ParsedScalar::I64(-1))
    );
    assert_eq!(
        parse_numeric_value(&vec![0xFF; 16], true),
        Some(ParsedScalar::U128(u128::MAX))
    );
    assert_eq!(
        parse_numeric_value(&vec![0xFF; 16], false),
        Some(ParsedScalar::I128(-1))
    );
    assert_eq!(parse_numeric_value(&vec![1, 2, 3], true), None);
    assert_eq!(parse_numeric_value(&Vec::new(), false), None);
}

#[test]
fn value_view_shows_latest_unless_a_historical_index_is_chosen() {
    assert_eq!(active_value_index(3, None), Some(2));
    assert_eq!(active_value_index(3, Some(1)), Some(1));
    assert_eq!(active_value_index(3, Some(9)), None);
    assert_eq!(active_value_index(0, None), None);
}

#[test]
fn title_buttons_follow_the_history_and_the_width() {
    let c = build_characteristics(
        None,
        &vec![RawCharacteristic {
            uuid: 0xAB,
            service_uuid: 0xCD,
            standard_gatt_char_name: Some(String::from("N")),
            standard_gatt_service_name: Some(String::from("S")),
            properties: CharProps {
                can_broadcast: false,
                can_read: true,
                can_write: false,
                can_write_without_response: false,
                can_notify: false,
            },
        }],
    );
    let t = render_title_with_navigation_controls(200, &c[0], Some(1), 3);
    assert!(t.previous_enabled);
    assert!(t.next_enabled);
    assert!(!t.dense);
    assert_eq!(t.text, "Characteristic N / Service S");
    let t = render_title_with_navigation_controls(200, &c[0], None, 3);
    assert!(!t.next_enabled);
    let t = render_title_with_navigation_controls(200, &c[0], Some(0), 3);
    assert!(!t.previous_enabled);
    let t = render_title_with_navigation_controls(10, &c[0], None, 0);
    assert!(t.dense);
    assert_eq!(t.text, "Char. N");
}

#[test]
fn error_messages_and_popup_dismissal_texts() {
    assert_eq!(Error::client("oops").message(), "oops");
    assert_eq!(
        Error::Ble(String::from("adapter gone")).message(),
        "Bluetooth platform error: adapter gone"
    );
}

#[test]
fn centered_rect_takes_the_middle_percentages() {
    let r = Rect { x: 0, y: 0, width: 100, height: 50 };
    let c = centered_rect(60, 20, r);
    assert_eq!(c, Rect { x: 20, y: 20, width: 60, height: 10 });
}

#[test]
fn help_lines_and_focus_defaults() {
    assert_eq!(
        blendr::block::render_help([("q", "Quit", false), ("r", "Restart scan", true)]),
        "[q] Quit    [r] Restart scan    "
    );
    let view = PeripheralList::new(&test_args());
    assert!(matches!(view.focus, Focus::List));
    assert!(!view.to_remove_unknowns);
    let state = StableListState::default();
    assert_eq!(state.selected(), None);
}
