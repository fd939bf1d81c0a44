use ha_simpletray::entity::{
    friendly_name, is_reported_unavailable, switch_entities, Attribute, AttributeValue,
    BooleanEntity, RawState, RemoteEntityState,
};
use ha_simpletray::text::{same_text, starts_with};

fn text_attr(key: &str, value: &str) -> Attribute {
    Attribute { key: key.to_string(), value: AttributeValue::Text(value.to_string()) }
}

fn remote(id: &str, state: Option<RawState>, attributes: Vec<Attribute>) -> RemoteEntityState {
    RemoteEntityState { entity_id: id.to_string(), state, attributes }
}

fn on() -> Option<RawState> {
    Some(RawState::Text("on".to_string()))
}

fn entity(id: &str, state: &str, name: &str) -> BooleanEntity {
    BooleanEntity {
        id: id.to_string(),
        state: state.to_string(),
        friendly_name: name.to_string(),
    }
}

#[test]
fn starts_with_accepts_a_prefix() {
    assert!(starts_with("switch.lamp", "switch."));
    assert!(starts_with("switch.", "switch."));
    assert!(starts_with("anything", ""));
}

#[test]
fn starts_with_refuses_what_is_no_prefix() {
    assert!(!starts_with("light.kitchen", "switch."));
    assert!(!starts_with("switch", "switch."));
    assert!(!starts_with("", "switch."));
    assert!(!starts_with("Switch.lamp", "switch."));
}

#[test]
fn starts_with_counts_characters_not_bytes() {
    assert!(starts_with("\u{e9}t\u{e9}.lamp", "\u{e9}t\u{e9}."));
    assert!(!starts_with("\u{e9}", "\u{e8}"));
}

#[test]
fn same_text_compares_contents() {
    assert!(same_text("quit", "quit"));
    assert!(same_text("", ""));
    assert!(!same_text("quit", "quits"));
    assert!(!same_text("quit", "quid"));
}

#[test]
fn friendly_name_is_the_text_of_the_attribute() {
    let attrs = vec![text_attr("icon", "mdi:lamp"), text_attr("friendly_name", "Lamp")];
    assert_eq!(friendly_name(&attrs), "Lamp");
}

#[test]
fn friendly_name_is_empty_where_absent() {
    assert_eq!(friendly_name(&vec![]), "");
    assert_eq!(friendly_name(&vec![text_attr("icon", "mdi:lamp")]), "");
}

#[test]
fn friendly_name_is_empty_where_not_a_text() {
    let attrs =
        vec![Attribute { key: "friendly_name".to_string(), value: AttributeValue::Other }];
    assert_eq!(friendly_name(&attrs), "");
}

#[test]
fn friendly_name_takes_the_first_of_a_repeated_key() {
    let attrs = vec![text_attr("friendly_name", "First"), text_attr("friendly_name", "Second")];
    assert_eq!(friendly_name(&attrs), "First");
}

#[test]
fn try_from_keeps_id_state_and_name() {
    let entry = remote("switch.lamp", on(), vec![text_attr("friendly_name", "Lamp")]);
    assert_eq!(BooleanEntity::try_from(entry), Ok(entity("switch.lamp", "on", "Lamp")));
}

#[test]
fn try_from_takes_a_missing_state_as_unavailable() {
    let entry = remote("switch.lamp", None, vec![]);
    assert_eq!(BooleanEntity::try_from(entry), Ok(entity("switch.lamp", "unavailable", "")));
}

#[test]
fn try_from_refuses_a_state_that_is_no_text() {
    let expected = Err("Unable to convert state to string".to_string());
    assert_eq!(BooleanEntity::try_from(remote("switch.a", Some(RawState::Integer(1)), vec![])), expected);
    assert_eq!(BooleanEntity::try_from(remote("switch.a", Some(RawState::Boolean(true)), vec![])), expected);
    assert_eq!(BooleanEntity::try_from(remote("switch.a", Some(RawState::Decimal), vec![])), expected);
}

#[test]
fn reported_unavailable_is_told_from_other_states() {
    let gone = remote("switch.a", Some(RawState::Text("unavailable".to_string())), vec![]);
    assert!(is_reported_unavailable(&gone));
    assert!(!is_reported_unavailable(&remote("switch.a", on(), vec![])));
    assert!(!is_reported_unavailable(&remote("switch.a", None, vec![])));
    assert!(!is_reported_unavailable(&remote("switch.a", Some(RawState::Integer(0)), vec![])));
}

#[test]
fn switch_entities_keeps_only_the_switch() {
    let states = vec![
        remote("switch.lamp", on(), vec![text_attr("friendly_name", "Lamp")]),
        remote("light.kitchen", on(), vec![]),
    ];
    assert_eq!(switch_entities(states), vec![entity("switch.lamp", "on", "Lamp")]);
}

#[test]
fn switch_entities_drops_unavailable_and_unconvertible_entries() {
    let states = vec![
        remote("switch.a", Some(RawState::Text("unavailable".to_string())), vec![]),
        remote("switch.b", Some(RawState::Integer(3)), vec![]),
        remote("switch.c", Some(RawState::Text("off".to_string())), vec![]),
        remote("sensor.d", Some(RawState::Text("off".to_string())), vec![]),
        remote("switch.e", on(), vec![text_attr("friendly_name", "E")]),
    ];
    assert_eq!(
        switch_entities(states),
        vec![entity("switch.c", "off", ""), entity("switch.e", "on", "E")]
    );
}

#[test]
fn switch_entities_keeps_the_order_of_the_hub() {
    let states = vec![
        remote("switch.z", on(), vec![]),
        remote("switch.a", on(), vec![]),
        remote("switch.m", on(), vec![]),
    ];
    let ids: Vec<String> = switch_entities(states).into_iter().map(|e| e.id).collect();
    assert_eq!(ids, vec!["switch.z", "switch.a", "switch.m"]);
}

#[test]
fn switch_entities_of_nothing_is_nothing() {
    assert_eq!(switch_entities(vec![]), vec![]);
}

#[test]
fn every_listed_entity_has_the_switch_prefix() {
    let states = vec![
        remote("switch.a", on(), vec![]),
        remote("switchboard", on(), vec![]),
        remote("light.switch.b", on(), vec![]),
        remote("switch.c", Some(RawState::Text("unavailable".to_string())), vec![]),
    ];
    let listed = switch_entities(states);
    assert_eq!(listed.len(), 1);
    for e in listed.iter() {
        assert!(e.id.starts_with("switch."));
        assert_ne!(e.state, "unavailable");
    }
}

#[test]
fn clone_gives_an_equal_entity() {
    let e = entity("switch.lamp", "on", "Lamp");
    assert_eq!(e.clone(), e);
}

#[test]
fn switch_entities_lists_a_switch_without_a_state_as_unavailable() {
    let states = vec![remote("switch.a", None, vec![text_attr("friendly_name", "A")])];
    assert_eq!(switch_entities(states), vec![entity("switch.a", "unavailable", "A")]);
}
