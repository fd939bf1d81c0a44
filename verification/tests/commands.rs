use ha_simpletray::commands::{
    build_tray_menu, check_api_status, get_switch_entities, load_entities_from_store,
    load_settings, rebuild_tray_menu, save_entity_to_store, CheckEvent, CheckStep,
};
use ha_simpletray::entity::{BooleanEntity, RawState, RemoteEntityState};
use ha_simpletray::menu::{MenuAction, MenuEntry, MenuState};
use ha_simpletray::selection::StoredSelection;
use ha_simpletray::session::{ApiStatus, Exchange, HomeAssistant, StoredSettings};

fn lamp() -> BooleanEntity {
    BooleanEntity {
        id: "switch.lamp".to_string(),
        state: "on".to_string(),
        friendly_name: "Lamp".to_string(),
    }
}

fn item(id: &str, label: &str) -> MenuEntry {
    MenuEntry { id: id.to_string(), label: label.to_string() }
}

fn stored(url: &str, token: &str) -> StoredSettings {
    StoredSettings::Present { app_url: Some(url.to_string()), token: Some(token.to_string()) }
}

#[test]
fn load_settings_without_a_blob_gives_empty_settings() {
    let s = load_settings(StoredSettings::Absent, reqwest::Client::new()).unwrap();
    assert_eq!(s.app_url(), "");
    assert_eq!(s.token(), "");
}

#[test]
fn load_settings_flattens_the_error_to_a_text() {
    assert_eq!(
        load_settings(StoredSettings::Corrupt, reqwest::Client::new()).unwrap_err(),
        "Unable to read the stored settings"
    );
    assert_eq!(
        load_settings(StoredSettings::Unreadable, reqwest::Client::new()).unwrap_err(),
        "Unable to open the settings store"
    );
    assert_eq!(
        load_settings(
            StoredSettings::Present { app_url: Some("u".to_string()), token: None },
            reqwest::Client::new()
        )
        .unwrap_err(),
        "`token` must be initialized"
    );
}

#[test]
fn status_check_runs_its_three_steps() {
    let session = match check_api_status(
        CheckEvent::Loaded(stored("http://old", "old"), reqwest::Client::new()),
        "http://hub",
        "tok",
    ) {
        CheckStep::Persist(session) => session,
        other => panic!("unexpected step {:?}", other),
    };
    assert_eq!(session.app_url(), "http://hub");
    assert_eq!(session.token(), "tok");
    let session = match check_api_status(CheckEvent::Persisted(session, true), "http://hub", "tok") {
        CheckStep::Request(session) => session,
        other => panic!("unexpected step {:?}", other),
    };
    assert_eq!(session.status_url(), "http://hub/api/");
    assert_eq!(session.status_request().unwrap().url().as_str(), "http://hub/api/");
    let answered = CheckEvent::Answered(session, Exchange::Received("API running.".to_string()));
    match check_api_status(answered, "http://hub", "tok") {
        CheckStep::Done(Ok(response)) => {
            assert_eq!(response.status(), ApiStatus::Online);
            assert_eq!(response.message(), "API running.");
        }
        other => panic!("unexpected step {:?}", other),
    }
}

#[test]
fn status_check_ends_when_the_settings_cannot_be_loaded() {
    match check_api_status(CheckEvent::Loaded(StoredSettings::Corrupt, reqwest::Client::new()), "http://hub", "tok") {
        CheckStep::Done(Err(response)) => {
            assert_eq!(response.status(), ApiStatus::Offline);
            assert_eq!(response.message(), "Unable to load HomeAssistant settings.");
        }
        other => panic!("unexpected step {:?}", other),
    }
}

#[test]
fn status_check_ends_when_the_settings_cannot_be_written() {
    let session = HomeAssistant::load_settings(StoredSettings::Absent, reqwest::Client::new()).unwrap();
    match check_api_status(CheckEvent::Persisted(session, false), "http://hub", "tok") {
        CheckStep::Done(Err(response)) => {
            assert_eq!(response.status(), ApiStatus::Offline);
            assert_eq!(response.message(), "Unable to update settings.");
        }
        other => panic!("unexpected step {:?}", other),
    }
}

#[test]
fn status_check_is_offline_when_the_hub_is_out_of_reach() {
    let session = HomeAssistant::load_settings(StoredSettings::Absent, reqwest::Client::new()).unwrap();
    match check_api_status(CheckEvent::Answered(session, Exchange::TransportFailed), "u", "t") {
        CheckStep::Done(Err(response)) => {
            assert_eq!(response.status(), ApiStatus::Offline);
            assert_eq!(response.message(), "Unable to connect to Home Assistant.");
        }
        other => panic!("unexpected step {:?}", other),
    }
}

#[test]
fn status_check_starts_from_empty_settings_where_none_are_stored() {
    match check_api_status(CheckEvent::Loaded(StoredSettings::Absent, reqwest::Client::new()), "http://hub", "tok") {
        CheckStep::Persist(session) => {
            assert_eq!(session.app_url(), "http://hub");
            assert_eq!(session.token(), "tok");
        }
        other => panic!("unexpected step {:?}", other),
    }
}

#[test]
fn listing_flattens_the_error_to_a_text() {
    let session = HomeAssistant::load_settings(StoredSettings::Absent, reqwest::Client::new()).unwrap();
    assert_eq!(
        get_switch_entities(&session, Exchange::TransportFailed),
        Err("Unable to connect to Home Assistant.".to_string())
    );
    assert_eq!(
        get_switch_entities(&session, Exchange::DecodeFailed),
        Err("Unable to parse response".to_string())
    );
    let states = vec![RemoteEntityState {
        entity_id: "switch.lamp".to_string(),
        state: Some(RawState::Text("on".to_string())),
        attributes: vec![],
    }];
    assert_eq!(
        get_switch_entities(&session, Exchange::Received(states)),
        Ok(vec![BooleanEntity {
            id: "switch.lamp".to_string(),
            state: "on".to_string(),
            friendly_name: "".to_string(),
        }])
    );
}

#[test]
fn saving_selects_and_builds_the_menu() {
    let mut menu = MenuState::Absent;
    let (set, action) = save_entity_to_store(StoredSelection::Absent, lamp(), true, &mut menu);
    assert_eq!(action, MenuAction::Create);
    assert_eq!(set.list(), vec![lamp()]);
    assert_eq!(
        menu.entries(),
        vec![item("settings", "Settings"), item("switch.lamp", "Lamp"), item("quit", "Quit")]
    );
    let (set, action) =
        save_entity_to_store(StoredSelection::Present(set.list()), lamp(), false, &mut menu);
    assert_eq!(action, MenuAction::Replace);
    assert_eq!(set.list(), vec![]);
    assert_eq!(menu.entries(), vec![item("settings", "Settings"), item("quit", "Quit")]);
    let (set, _) =
        save_entity_to_store(StoredSelection::Present(set.list()), lamp(), false, &mut menu);
    assert_eq!(set.list(), vec![]);
    assert_eq!(menu.entries(), vec![item("settings", "Settings"), item("quit", "Quit")]);
}

#[test]
fn saving_over_a_corrupt_blob_starts_from_nothing() {
    let mut menu = MenuState::Absent;
    let (set, _) = save_entity_to_store(StoredSelection::Corrupt, lamp(), true, &mut menu);
    assert_eq!(set.list(), vec![lamp()]);
}

#[test]
fn stored_entities_are_listed() {
    assert_eq!(load_entities_from_store(StoredSelection::Absent), vec![]);
    assert_eq!(load_entities_from_store(StoredSelection::Corrupt), vec![]);
    assert_eq!(load_entities_from_store(StoredSelection::Present(vec![lamp()])), vec![lamp()]);
}

#[test]
fn tray_menu_is_built_from_the_store() {
    let mut menu = MenuState::Absent;
    assert_eq!(build_tray_menu(StoredSelection::Present(vec![lamp()]), &mut menu), MenuAction::Create);
    assert_eq!(
        menu.entries(),
        vec![item("settings", "Settings"), item("switch.lamp", "Lamp"), item("quit", "Quit")]
    );
    assert_eq!(build_tray_menu(StoredSelection::Absent, &mut menu), MenuAction::Replace);
    assert_eq!(menu.entries(), vec![item("settings", "Settings"), item("quit", "Quit")]);
}

#[test]
fn tray_menu_is_rebuilt_only_where_it_exists() {
    let mut menu = MenuState::Absent;
    assert!(!rebuild_tray_menu(StoredSelection::Present(vec![lamp()]), &mut menu));
    assert_eq!(menu, MenuState::Absent);
    build_tray_menu(StoredSelection::Absent, &mut menu);
    assert!(rebuild_tray_menu(StoredSelection::Present(vec![lamp()]), &mut menu));
    assert_eq!(
        menu.entries(),
        vec![item("settings", "Settings"), item("switch.lamp", "Lamp"), item("quit", "Quit")]
    );
}
