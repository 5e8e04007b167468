//! The stable selection list and the shared sorting policy.

use blendr::bluetooth::HandledPeripheral;
use blendr::cli_args::GeneralSort;
use blendr::keys::Key;
use blendr::ui::list::{FilteredEntry, HandleInputResult, StableIndexList, StableListState};

fn entries(ids: &[u128]) -> StableIndexList<FilteredEntry> {
    let mut list = StableIndexList::new();
    for (i, id) in ids.iter().enumerate() {
        list.push(FilteredEntry { index: i, id: *id });
    }
    list
}

fn peripheral(id: u128, name: &str, unknown: bool, rssi: Option<i16>) -> HandledPeripheral {
    HandledPeripheral {
        id,
        name_unset: unknown,
        address: String::from("aa"),
        name: String::from(name),
        rssi,
        services_names: Vec::new(),
    }
}

#[test]
fn stabilize_follows_identity_to_new_position() {
    let mut state = StableListState::default();
    let list = entries(&[10, 20, 30]);
    state.select(&list, Some(2));
    assert_eq!(state.selected(), Some(2));

    // The list shrinks and regrows: the same identity sits elsewhere now.
    let refiltered = entries(&[30, 10]);
    state.stabilize_selected_index(&refiltered);
    assert_eq!(state.selected(), Some(0));

    // The identity disappears entirely: no fallback position is chosen.
    let without = entries(&[10, 20]);
    state.stabilize_selected_index(&without);
    assert_eq!(state.selected(), None);
}

#[test]
fn unselect_clears_the_remembered_identity() {
    let mut state = StableListState::default();
    let list = entries(&[10, 20]);
    state.select(&list, Some(1));
    state.list_unselect(&list);
    state.stabilize_selected_index(&list);
    assert_eq!(state.selected(), None);
}

#[test]
fn next_and_previous_wrap_and_ignore_empty_lists() {
    let mut state = StableListState::default();
    let list = entries(&[10, 20, 30]);
    state.select(&list, Some(2));
    state.list_select_next(&list);
    assert_eq!(state.selected(), Some(0));
    state.list_select_previous(&list);
    assert_eq!(state.selected(), Some(2));
    state.select(&list, Some(0));
    state.list_select_previous(&list);
    assert_eq!(state.selected(), Some(2));

    let empty = entries(&[]);
    let mut untouched = StableListState::default();
    untouched.select(&list, Some(1));
    untouched.list_select_next(&empty);
    assert_eq!(untouched.selected(), Some(1));
    untouched.list_select_previous(&empty);
    assert_eq!(untouched.selected(), Some(1));
}

#[test]
fn key_input_moves_selects_and_clears() {
    let mut state = StableListState::default();
    let list = entries(&[10, 20]);
    state.select(&list, Some(0));
    assert!(matches!(state.handle_key_input(&list, &Key::Down), HandleInputResult::Unhandled));
    assert_eq!(state.selected(), Some(1));
    match state.handle_key_input(&list, &Key::Enter) {
        HandleInputResult::Selected(e) => assert_eq!(e.id, 20),
        HandleInputResult::Unhandled => panic!("expected a selection"),
    }
    assert!(matches!(state.handle_key_input(&list, &Key::Left), HandleInputResult::Unhandled));
    assert_eq!(state.selected(), None);
    assert!(matches!(state.handle_key_input(&list, &Key::Enter), HandleInputResult::Unhandled));
}

#[test]
fn name_sort_is_case_insensitive_and_idempotent_with_unknowns_last() {
    let mut v = vec![
        peripheral(1, "Unknown device", true, Some(-10)),
        peripheral(2, "banana", false, None),
        peripheral(3, "Apple", false, Some(-90)),
        peripheral(4, "Unknown device", true, None),
        peripheral(5, "aardvark", false, None),
    ];
    GeneralSort::Name.sort(&mut v);
    let names: Vec<&str> = v.iter().map(|p| p.name.as_str()).collect();
    assert_eq!(names, vec!["aardvark", "Apple", "banana", "Unknown device", "Unknown device"]);
    // Named items always precede unnamed ones.
    let first_unknown = v.iter().position(|p| p.name_unset).unwrap();
    assert!(v[first_unknown..].iter().all(|p| p.name_unset));

    // Sorting a second time keeps exactly this order.
    let ids_once: Vec<u128> = v.iter().map(|p| p.id).collect();
    GeneralSort::Name.sort(&mut v);
    let ids_twice: Vec<u128> = v.iter().map(|p| p.id).collect();
    assert_eq!(ids_once, ids_twice);
}

#[test]
fn case_folding_decides_the_name_order() {
    // With case-insensitive folding "a" comes before "B"; a comparison on the
    // raw code points would put "B" first.
    let mut v = vec![peripheral(1, "B", false, None), peripheral(2, "a", false, None)];
    GeneralSort::Name.sort(&mut v);
    assert_eq!(v[0].name, "a");
    assert_eq!(v[1].name, "B");
}

#[test]
fn default_sort_orders_by_signal_with_unknown_readings_first() {
    let mut v = vec![
        peripheral(1, "x", false, Some(-40)),
        peripheral(2, "y", false, None),
        peripheral(3, "z", false, Some(-90)),
    ];
    GeneralSort::DefaultSort.sort(&mut v);
    assert_eq!(v[0].rssi, None);
    assert_eq!(v[1].rssi, Some(-90));
    assert_eq!(v[2].rssi, Some(-40));
}

#[test]
fn apply_sort_compares_like_the_order() {
    let a = peripheral(1, "a", false, None);
    let b = peripheral(2, "b", false, None);
    assert_eq!(GeneralSort::Name.apply_sort(&a, &b), std::cmp::Ordering::Less);
    assert_eq!(GeneralSort::Name.apply_sort(&b, &a), std::cmp::Ordering::Greater);
    assert_eq!(GeneralSort::Name.apply_sort(&a, &a), std::cmp::Ordering::Equal);
    // Ties compare Equal: two unnamed peripherals, equal folded names, and
    // equal signal readings.
    let u1 = peripheral(3, "Unknown device", true, Some(-10));
    let u2 = peripheral(4, "Unknown device", true, None);
    assert_eq!(GeneralSort::Name.apply_sort(&u1, &u2), std::cmp::Ordering::Equal);
    let ca = peripheral(5, "Heart", false, None);
    let cb = peripheral(6, "hEART", false, None);
    assert_eq!(GeneralSort::Name.apply_sort(&ca, &cb), std::cmp::Ordering::Equal);
    let ra = peripheral(7, "x", false, Some(-40));
    let rb = peripheral(8, "y", false, Some(-40));
    assert_eq!(GeneralSort::DefaultSort.apply_sort(&ra, &rb), std::cmp::Ordering::Equal);
}
