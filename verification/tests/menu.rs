use mic_mute_indicator::device::{Device, DeviceId};
use mic_mute_indicator::menu::{Edit, Menu, MenuRow};

fn wide(text: &str) -> Vec<u16> {
    text.encode_utf16().collect()
}

fn id(text: &str) -> DeviceId {
    DeviceId::from_wide(&wide(text))
}

fn device(name: &str) -> Device {
    Device { id: id(name), name: format!("Mic {}", name) }
}

fn devices(names: &[&str]) -> Vec<Device> {
    names.iter().map(|name| device(name)).collect()
}

fn menu_of(names: &[&str]) -> Menu {
    let mut menu = Menu::new();
    menu.reconcile(&devices(names), None);
    menu
}

fn ids_of(menu: &Menu) -> Vec<Vec<u16>> {
    (0..menu.len()).map(|i| menu.device_at(i).unwrap().units).collect()
}

fn is_remove(edit: &Edit, at: usize) -> bool {
    matches!(edit, Edit::Remove { position } if *position == at)
}

fn is_update(edit: &Edit, at: usize, text: &str, mark: bool) -> bool {
    matches!(edit, Edit::Update { position, label, selected }
        if *position == at && label == text && *selected == mark)
}

fn is_insert(edit: &Edit, at: usize, device: &str, text: &str, mark: bool) -> bool {
    matches!(edit, Edit::Insert { position, id, label, selected }
        if *position == at && id.units == wide(device) && label == text && *selected == mark)
}

/// A rendered row of the shell: the text, the mark, and whether it is the
/// placeholder.
#[derive(Clone, Debug, PartialEq)]
struct Rendered {
    label: String,
    selected: bool,
    placeholder: bool,
}

fn placeholder() -> Rendered {
    Rendered {
        label: "No audio capture devices found".to_string(),
        selected: false,
        placeholder: true,
    }
}

fn apply(rendered: &mut Vec<Rendered>, edits: &[Edit]) {
    for edit in edits {
        match edit {
            Edit::HidePlaceholder => {
                assert!(rendered[0].placeholder);
                rendered.remove(0);
            }
            Edit::Remove { position } => {
                rendered.remove(*position);
            }
            Edit::Update { position, label, selected } => {
                rendered[*position].label = label.clone();
                rendered[*position].selected = *selected;
            }
            Edit::Insert { position, label, selected, .. } => {
                rendered.insert(
                    *position,
                    Rendered { label: label.clone(), selected: *selected, placeholder: false },
                );
            }
            Edit::ShowPlaceholder => rendered.insert(0, placeholder()),
        }
    }
}

fn as_rendered(rows: &[MenuRow]) -> Vec<Rendered> {
    rows.iter()
        .map(|row| Rendered {
            label: row.label.clone(),
            selected: row.selected,
            placeholder: !row.enabled,
        })
        .collect()
}

#[test]
fn empty_device_list_shows_the_placeholder() {
    let mut menu = Menu::new();
    let edits = menu.reconcile(&Vec::new(), None);
    assert!(edits.is_empty());
    assert_eq!(menu.len(), 0);
    let rows = menu.current_menu();
    assert_eq!(rows.len(), 1);
    assert_eq!(rows[0].label, "No audio capture devices found");
    assert!(!rows[0].enabled);
    assert!(!rows[0].selected);
}

#[test]
fn first_device_replaces_the_placeholder() {
    let mut menu = Menu::new();
    let edits = menu.reconcile(&devices(&["A"]), None);
    assert_eq!(edits.len(), 2);
    assert!(matches!(edits[0], Edit::HidePlaceholder));
    assert!(is_insert(&edits[1], 0, "A", "Mic A", false));
    let rows = menu.current_menu();
    assert_eq!(rows.len(), 1);
    assert_eq!(rows[0].label, "Mic A");
    assert!(rows[0].enabled);
    assert_eq!(ids_of(&menu), vec![wide("A")]);
}

#[test]
fn swapped_devices_end_in_the_new_order() {
    let mut menu = menu_of(&["A", "B"]);
    assert!(menu.set_tag(0, Some(1)));
    assert!(menu.set_tag(1, Some(2)));
    let edits = menu.reconcile(&devices(&["B", "A"]), None);
    assert_eq!(ids_of(&menu), vec![wide("B"), wide("A")]);
    // B is found behind A: A goes, B is refreshed where it now stands, and A
    // comes back as a new row.
    assert_eq!(edits.len(), 3);
    assert!(is_remove(&edits[0], 0));
    assert!(is_update(&edits[1], 0, "Mic B", false));
    assert!(is_insert(&edits[2], 1, "A", "Mic A", false));
    assert_eq!(menu.tag_at(0), Some(2));
    assert_eq!(menu.tag_at(1), None);
}

#[test]
fn rows_follow_the_device_list_after_any_change() {
    let lists: [&[&str]; 7] = [
        &["A", "B", "C"],
        &["C", "B", "A"],
        &["B"],
        &[],
        &["D", "A", "D"],
        &["A", "D", "D", "E"],
        &["E", "A"],
    ];
    let mut menu = Menu::new();
    for list in lists {
        menu.reconcile(&devices(list), None);
        let expected: Vec<Vec<u16>> = list.iter().map(|name| wide(name)).collect();
        assert_eq!(ids_of(&menu), expected);
        assert_eq!(menu.len(), list.len());
    }
}

#[test]
fn the_plan_applied_to_the_rendered_menu_gives_the_menu() {
    let lists: [&[&str]; 8] = [
        &["A"],
        &["A", "B", "C"],
        &["C", "A"],
        &[],
        &[],
        &["B", "C", "D"],
        &["X", "C", "Y", "D"],
        &["D", "C"],
    ];
    let mut menu = Menu::new();
    let mut rendered = vec![placeholder()];
    for list in lists {
        let current = id("C");
        let edits = menu.reconcile(&devices(list), Some(&current));
        apply(&mut rendered, &edits);
        assert_eq!(rendered, as_rendered(&menu.current_menu()));
    }
}

#[test]
fn second_reconcile_makes_no_structural_edit() {
    let list = devices(&["A", "B", "C"]);
    let mut menu = menu_of(&["C", "X", "A"]);
    menu.reconcile(&list, None);
    for i in 0..3 {
        assert!(menu.set_tag(i, Some(10 + i as u64)));
    }
    let current = id("B");
    let edits = menu.reconcile(&list, Some(&current));
    assert_eq!(edits.len(), 3);
    assert!(is_update(&edits[0], 0, "Mic A", false));
    assert!(is_update(&edits[1], 1, "Mic B", true));
    assert!(is_update(&edits[2], 2, "Mic C", false));
    for i in 0..3 {
        assert_eq!(menu.tag_at(i), Some(10 + i as u64));
    }
}

#[test]
fn second_reconcile_of_an_empty_list_makes_no_edit() {
    let mut menu = menu_of(&["A"]);
    let first = menu.reconcile(&Vec::new(), None);
    assert_eq!(first.len(), 2);
    assert!(is_remove(&first[0], 0));
    assert!(matches!(first[1], Edit::ShowPlaceholder));
    let second = menu.reconcile(&Vec::new(), None);
    assert!(second.is_empty());
}

#[test]
fn unmoved_device_keeps_its_row_when_others_change() {
    let mut menu = menu_of(&["X", "D", "Z"]);
    assert!(menu.set_tag(0, Some(7)));
    assert!(menu.set_tag(1, Some(8)));
    assert!(menu.set_tag(2, Some(9)));
    let edits = menu.reconcile(&devices(&["Y", "D", "W"]), None);
    assert_eq!(ids_of(&menu), vec![wide("Y"), wide("D"), wide("W")]);
    assert_eq!(menu.tag_at(1), Some(8));
    assert_eq!(menu.tag_at(0), None);
    assert_eq!(menu.tag_at(2), None);
    assert_eq!(edits.len(), 5);
    assert!(is_insert(&edits[0], 0, "Y", "Mic Y", false));
    assert!(is_remove(&edits[1], 1));
    assert!(is_update(&edits[2], 1, "Mic D", false));
    assert!(is_insert(&edits[3], 2, "W", "Mic W", false));
    assert!(is_remove(&edits[4], 3));
}

#[test]
fn device_loses_its_row_when_another_is_found_behind_it() {
    let mut menu = menu_of(&["A", "D", "B"]);
    assert!(menu.set_tag(1, Some(8)));
    assert!(menu.set_tag(2, Some(9)));
    menu.reconcile(&devices(&["B", "D", "A"]), None);
    assert_eq!(ids_of(&menu), vec![wide("B"), wide("D"), wide("A")]);
    assert_eq!(menu.tag_at(0), Some(9));
    assert_eq!(menu.tag_at(1), None);
    assert_eq!(menu.tag_at(2), None);
}

#[test]
fn last_device_gone_brings_the_placeholder_back() {
    let mut menu = menu_of(&["A", "B"]);
    let edits = menu.reconcile(&Vec::new(), None);
    assert_eq!(edits.len(), 3);
    assert!(is_remove(&edits[0], 0));
    assert!(is_remove(&edits[1], 0));
    assert!(matches!(edits[2], Edit::ShowPlaceholder));
    let rows = menu.current_menu();
    assert_eq!(rows.len(), 1);
    assert!(!rows[0].enabled);
}

#[test]
fn leftover_rows_are_removed_behind_the_devices() {
    let mut menu = menu_of(&["A", "B", "C"]);
    let edits = menu.reconcile(&devices(&["A"]), None);
    assert_eq!(edits.len(), 3);
    assert!(is_update(&edits[0], 0, "Mic A", false));
    assert!(is_remove(&edits[1], 1));
    assert!(is_remove(&edits[2], 1));
    assert_eq!(ids_of(&menu), vec![wide("A")]);
}

#[test]
fn only_the_current_device_is_marked() {
    let mut menu = Menu::new();
    let current = id("B");
    menu.reconcile(&devices(&["A", "B", "C"]), Some(&current));
    let rows = menu.current_menu();
    let marks: Vec<bool> = rows.iter().map(|row| row.selected).collect();
    assert_eq!(marks, vec![false, true, false]);
    menu.reconcile(&devices(&["A", "B", "C"]), None);
    let rows = menu.current_menu();
    assert!(rows.iter().all(|row| !row.selected));
}

#[test]
fn identifiers_are_compared_exactly() {
    let mut menu = menu_of(&["mic"]);
    assert!(menu.set_tag(0, Some(1)));
    let current = id("MIC");
    let edits = menu.reconcile(&devices(&["MIC"]), Some(&current));
    assert_eq!(edits.len(), 2);
    assert!(is_insert(&edits[0], 0, "MIC", "Mic MIC", true));
    assert!(is_remove(&edits[1], 1));
    assert_eq!(menu.tag_at(0), None);
}

#[test]
fn renamed_device_is_refreshed_in_place() {
    let mut menu = menu_of(&["A"]);
    assert!(menu.set_tag(0, Some(5)));
    let renamed = vec![Device { id: id("A"), name: "Headset".to_string() }];
    let edits = menu.reconcile(&renamed, None);
    assert_eq!(edits.len(), 1);
    assert!(is_update(&edits[0], 0, "Headset", false));
    assert_eq!(menu.current_menu()[0].label, "Headset");
    assert_eq!(menu.tag_at(0), Some(5));
}

#[test]
fn rows_are_reached_by_position_only_where_they_exist() {
    let mut menu = menu_of(&["A", "B"]);
    assert_eq!(menu.device_at(1).unwrap().units, wide("B"));
    assert!(menu.device_at(2).is_none());
    assert_eq!(menu.tag_at(5), None);
    assert!(!menu.set_tag(2, Some(1)));
    assert!(menu.set_tag(1, Some(1)));
    assert_eq!(menu.tag_at(1), Some(1));
    assert_eq!(menu.tag_at(0), None);
    assert!(menu.set_tag(1, None));
    assert_eq!(menu.tag_at(1), None);
}
