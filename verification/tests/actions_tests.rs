use locomotion_core::actions::{
    flight_registry, resolve_action_state, ActionRegistry, ActionSetInfo, ActionState,
    ActionValueKind,
};

fn demo_set() -> ActionSetInfo {
    ActionSetInfo {
        name: "flight".to_owned(),
        localized_name: "pretty flight set".to_owned(),
        priority: 0,
    }
}

#[test]
fn flight_registry_declares_one_vector_action_with_two_bindings() {
    let reg = flight_registry();
    assert_eq!(reg.set.name, "flight");
    assert_eq!(reg.set.priority, 0);
    assert_eq!(reg.actions.len(), 1);
    assert_eq!(reg.actions[0].name, "flight_input");
    assert_eq!(reg.actions[0].kind, ActionValueKind::Vector);
    assert_eq!(reg.bindings.len(), 2);
    assert_eq!(reg.bindings[0].profile, "/interaction_profiles/valve/index_controller");
    assert_eq!(reg.bindings[1].profile, "/interaction_profiles/oculus/touch_controller");
    assert_eq!(reg.bindings[0].path, "/user/hand/right/input/thumbstick");
    assert_eq!(reg.bindings[1].path, "/user/hand/right/input/thumbstick");
    assert_eq!(reg.binding_count(&"flight_input".to_owned()), 2);
}

#[test]
fn duplicate_action_names_are_rejected() {
    let mut reg = ActionRegistry::new(demo_set());
    assert!(reg.register_action("look".to_owned(), "look around".to_owned(), ActionValueKind::Vector));
    assert!(!reg.register_action("look".to_owned(), "again".to_owned(), ActionValueKind::Boolean));
    assert_eq!(reg.actions.len(), 1);
}

#[test]
fn bindings_require_a_declared_action() {
    let mut reg = ActionRegistry::new(demo_set());
    let ok = reg.register_binding(
        "missing".to_owned(),
        "/interaction_profiles/valve/index_controller".to_owned(),
        "/user/hand/left/input/trigger".to_owned(),
    );
    assert!(!ok);
    assert_eq!(reg.bindings.len(), 0);
}

#[test]
fn find_action_returns_the_declared_record() {
    let reg = flight_registry();
    let found = reg.find_action(&"flight_input".to_owned()).unwrap();
    assert_eq!(found.localized_name, "flight_input_localized");
    assert!(reg.find_action(&"teleport".to_owned()).is_none());
}

#[test]
fn contains_action_tracks_registration() {
    let mut reg = ActionRegistry::new(demo_set());
    assert!(!reg.contains_action(&"grab".to_owned()));
    reg.register_action("grab".to_owned(), "grab things".to_owned(), ActionValueKind::Boolean);
    assert!(reg.contains_action(&"grab".to_owned()));
}

#[test]
fn resolve_action_state_returns_the_first_match() {
    let states = vec![
        ("grab".to_owned(), ActionState::Bool(true)),
        ("flight_input".to_owned(), ActionState::Vector2(250_000, -500_000)),
        ("flight_input".to_owned(), ActionState::Vector2(0, 0)),
    ];
    assert_eq!(
        resolve_action_state(&states, &"flight_input".to_owned()),
        Some(ActionState::Vector2(250_000, -500_000))
    );
    assert_eq!(resolve_action_state(&states, &"grab".to_owned()), Some(ActionState::Bool(true)));
    assert_eq!(resolve_action_state(&states, &"teleport".to_owned()), None);
}
