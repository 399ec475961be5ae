use fetch_store::{MessageType, Messages};

#[test]
#[allow(clippy::assertions_on_constants)]
fn object_is_created() {
    Messages::new();
    assert!(true);
}

#[test]
#[allow(clippy::assertions_on_constants)]
fn object_is_converted_from_str() {
    let messages: Messages = "XX".into();
    assert!(messages.error());
    assert!(true);
}

#[test]
fn object_is_created_from_entity_error() {
    let messages = Messages::from_entity_error("EE");
    assert!(messages.error());
    assert_eq!("entity: [E: EE]", messages.to_debug_string());
}

#[test]
fn object_is_created_from_service_error() {
    let messages = Messages::from_service_error("SE");
    assert!(messages.error());
    assert_eq!("service: [E: SE]", messages.to_debug_string());
}

#[test]
fn add_service_info_works() {
    let mut messages = Messages::from_entity_error("EE");
    messages.add_service_info("SI");
    let output = messages.to_debug_string();
    assert_eq!("entity: [E: EE], service: [I: SI]", output);
}

#[test]
fn add_service_error_works() {
    let mut messages = Messages::from_service_error("SE");
    messages.add_service_error("SE");
    let output = messages.to_debug_string();
    assert_eq!("service: [E: SE, E: SE]", output);
}

#[test]
fn add_entity_info_works() {
    let mut messages = Messages::from_entity_error("EE");
    messages.add_entity_info("EI");
    let output = messages.to_debug_string();
    assert_eq!("entity: [E: EE, I: EI]", output);
}

#[test]
fn add_entity_error_works() {
    let mut messages = Messages::from_entity_error("EE");
    messages.add_entity_error("EE");
    let output = messages.to_debug_string();
    assert_eq!("entity: [E: EE, E: EE]", output);
}

#[test]
fn error_flag_follows_every_change() {
    let mut messages = Messages::new();
    assert!(!messages.error());
    messages.add("entity", MessageType::Information, "note");
    assert!(!messages.error());
    messages.add("entity", MessageType::Error, "bad");
    assert!(messages.error());
    messages.set("entity", MessageType::Section, "heading");
    assert!(!messages.error());
    messages.set("service", MessageType::Error, "down");
    assert!(messages.error());
    messages.add("form", MessageType::Information, "hint");
    messages.clear("service");
    assert!(!messages.error());
    messages.add_service_error("again");
    assert!(messages.error());
    messages.replace(Messages::from_entity_error("x"));
    assert!(messages.error());
    messages.replace(Messages::new());
    assert!(!messages.error());
    messages.add_entity_error("y");
    messages.clear_all();
    assert!(!messages.error());
    assert_eq!("", messages.to_debug_string());
}

#[test]
fn set_replaces_the_category_and_keeps_its_place() {
    let mut messages = Messages::from_entity_error("EE");
    messages.add_service_info("SI");
    messages.set("entity", MessageType::Information, "EI");
    assert_eq!("entity: [I: EI], service: [I: SI]", messages.to_debug_string());
    assert!(!messages.error());
}

#[test]
fn extend_appends_per_key() {
    let mut messages = Messages::from_entity_error("EE");
    let mut other = Messages::from_service_error("SE");
    other.add_entity_info("EI");
    messages.extend(other);
    assert_eq!("entity: [E: EE, I: EI], service: [E: SE]", messages.to_debug_string());
    assert!(messages.error());
}

#[test]
fn section_tag_and_parameters() {
    let mut messages = Messages::new();
    messages.add_with_pars("form", MessageType::Section, "Field {0}", vec!["name".to_string()]);
    assert_eq!("form: [S: Field {0}]", messages.to_debug_string());
    let inner = messages.into_inner();
    assert_eq!(inner.len(), 1);
    assert_eq!(inner[0].0, "form");
    assert_eq!(inner[0].1[0].parameters(), &["name".to_string()]);
    assert_eq!(inner[0].1[0].message_type(), MessageType::Section);
}

#[test]
fn inner_round_trip_keeps_categories_and_order() {
    let mut messages = Messages::from_service_error("SE");
    messages.add_entity_info("EI");
    messages.add_entity_error("EE");
    let text = messages.to_debug_string();
    let back = Messages::from_inner(messages.into_inner());
    assert_eq!(text, back.to_debug_string());
    assert!(back.error());
}

#[test]
fn localize_translates_and_fills_parameters() {
    let message = fetch_store::Message::new(MessageType::Error, "Field {0} needs {1}")
        .with_parameters(vec!["name".to_string(), "{1}x".to_string()]);
    let localized = message.localize(&|s: &str| format!("[{s}]"));
    assert_eq!(localized.text(), "[Field name needs {1}x]");
    assert!(localized.parameters().is_empty());
    assert!(localized.error());
}

#[test]
fn localize_without_parameters_keeps_the_translation() {
    let mut messages = Messages::from_entity_error("EE");
    messages.add_service_info("SI");
    let localized = messages.localize(|s: &str| s.to_lowercase());
    assert_eq!("entity: [E: ee], service: [I: si]", localized.to_debug_string());
    assert!(localized.error());
}

#[test]
fn decimal_text_writes_digits() {
    assert_eq!(fetch_store::messages::decimal_text(0), "0");
    assert_eq!(fetch_store::messages::decimal_text(12), "12");
    assert_eq!(fetch_store::messages::decimal_text(305), "305");
}
