use ha_simpletray::entity::BooleanEntity;
use ha_simpletray::menu::{build_menu, menu_event, MenuAction, MenuEntry, MenuEvent, MenuState};
use ha_simpletray::selection::SelectedEntitySet;

fn lamp() -> BooleanEntity {
    BooleanEntity {
        id: "switch.lamp".to_string(),
        state: "on".to_string(),
        friendly_name: "Lamp".to_string(),
    }
}

fn item(id: &str, label: &str) -> MenuEntry {
    MenuEntry { id: id.to_string(), label: label.to_string() }
}

#[test]
fn menu_of_no_entities_has_the_two_control_entries() {
    assert_eq!(build_menu(&vec![]), vec![item("settings", "Settings"), item("quit", "Quit")]);
}

#[test]
fn menu_puts_the_entities_between_the_control_entries() {
    let fan = BooleanEntity {
        id: "switch.fan".to_string(),
        state: "off".to_string(),
        friendly_name: "Fan".to_string(),
    };
    assert_eq!(
        build_menu(&vec![lamp(), fan]),
        vec![
            item("settings", "Settings"),
            item("switch.lamp", "Lamp"),
            item("switch.fan", "Fan"),
            item("quit", "Quit"),
        ]
    );
}

#[test]
fn sync_creates_then_updates_in_place() {
    let mut selection = SelectedEntitySet::new();
    selection.set_selected(lamp(), true);
    let mut menu = MenuState::Absent;
    assert_eq!(menu.sync(&selection), MenuAction::Create);
    assert_eq!(
        menu,
        MenuState::Built(vec![
            item("settings", "Settings"),
            item("switch.lamp", "Lamp"),
            item("quit", "Quit"),
        ])
    );
    selection.set_selected(lamp(), false);
    assert_eq!(menu.sync(&selection), MenuAction::Replace);
    assert_eq!(menu, MenuState::Built(vec![item("settings", "Settings"), item("quit", "Quit")]));
}

#[test]
fn sync_twice_gives_the_same_menu() {
    let mut selection = SelectedEntitySet::new();
    selection.set_selected(lamp(), true);
    let mut menu = MenuState::Absent;
    menu.sync(&selection);
    let first = menu.entries();
    assert_eq!(menu.sync(&selection), MenuAction::Replace);
    assert_eq!(menu.entries(), first);
}

#[test]
fn rebuild_leaves_an_absent_menu_absent() {
    let mut selection = SelectedEntitySet::new();
    selection.set_selected(lamp(), true);
    let mut menu = MenuState::Absent;
    assert!(!menu.rebuild(&selection));
    assert_eq!(menu, MenuState::Absent);
    assert_eq!(menu.entries(), vec![]);
}

#[test]
fn rebuild_renews_a_built_menu() {
    let mut selection = SelectedEntitySet::new();
    let mut menu = MenuState::Absent;
    menu.sync(&selection);
    selection.set_selected(lamp(), true);
    assert!(menu.rebuild(&selection));
    assert_eq!(
        menu.entries(),
        vec![item("settings", "Settings"), item("switch.lamp", "Lamp"), item("quit", "Quit")]
    );
}

#[test]
fn menu_event_tells_the_control_entries_from_entities() {
    assert_eq!(menu_event("settings"), MenuEvent::OpenSettings);
    assert_eq!(menu_event("quit"), MenuEvent::Quit);
    assert_eq!(menu_event("switch.lamp"), MenuEvent::Toggle("switch.lamp".to_string()));
    assert_eq!(menu_event(""), MenuEvent::Toggle("".to_string()));
    assert_eq!(menu_event("Quit"), MenuEvent::Toggle("Quit".to_string()));
}

#[test]
fn menu_of_switches_holds_no_identifier_twice() {
    let mut selection = SelectedEntitySet::new();
    for name in ["switch.a", "switch.b", "switch.quit", "switch.settings"] {
        selection.set_selected(
            BooleanEntity {
                id: name.to_string(),
                state: "on".to_string(),
                friendly_name: "Quit".to_string(),
            },
            true,
        );
    }
    let ids: Vec<String> = build_menu(&selection.list()).into_iter().map(|e| e.id).collect();
    assert_eq!(ids, vec!["settings", "switch.a", "switch.b", "switch.quit", "switch.settings", "quit"]);
    for i in 0..ids.len() {
        for j in 0..i {
            assert_ne!(ids[i], ids[j]);
        }
    }
}
