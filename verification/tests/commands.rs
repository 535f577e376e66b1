use serde_json::Value;
use streamdeck_rs::json::{BadMessage, DecodeError};
use streamdeck_rs::payload::{
    ImagePayload, LogMessagePayload, ProfilePayload, SetFeedbackLayoutPayload,
    SetTriggerDescriptionPayload, StatePayload, Target, TitlePayload, UrlPayload,
};
use streamdeck_rs::MessageOut;

type Command = MessageOut<Value, Value, Value>;

fn value(text: &str) -> Value {
    serde_json::from_str(text).expect("test input is JSON")
}

fn every_command() -> Vec<(Command, &'static str)> {
    vec![
        (
            Command::SetTitle {
                context: "ctx1".to_string(),
                payload: TitlePayload {
                    title: Some("Hi".to_string()),
                    target: Target::Both,
                    state: None,
                },
            },
            r#"{"event":"setTitle","context":"ctx1","payload":{"title":"Hi","target":0}}"#,
        ),
        (
            Command::SetTitle {
                context: "ctx1".to_string(),
                payload: TitlePayload { title: None, target: Target::Software, state: Some(1) },
            },
            r#"{"event":"setTitle","context":"ctx1","payload":{"title":null,"target":2,"state":1}}"#,
        ),
        (
            Command::SetImage {
                context: "ctx1".to_string(),
                payload: ImagePayload {
                    image: Some("data:image/png;base64,AAAA".to_string()),
                    target: Target::Hardware,
                    state: Some(0),
                },
            },
            r#"{"event":"setImage","context":"ctx1","payload":{"image":"data:image/png;base64,AAAA","target":1,"state":0}}"#,
        ),
        (
            Command::ShowAlert { context: "ctx1".to_string() },
            r#"{"event":"showAlert","context":"ctx1"}"#,
        ),
        (
            Command::ShowOk { context: "ctx1".to_string() },
            r#"{"event":"showOk","context":"ctx1"}"#,
        ),
        (
            Command::GetSettings { context: "ctx1".to_string() },
            r#"{"event":"getSettings","context":"ctx1"}"#,
        ),
        (
            Command::SetSettings {
                context: "ctx1".to_string(),
                payload: value(r#"{"count":4,"label":"x"}"#),
            },
            r#"{"event":"setSettings","context":"ctx1","payload":{"count":4,"label":"x"}}"#,
        ),
        (
            Command::SetState { context: "ctx1".to_string(), payload: StatePayload { state: 1 } },
            r#"{"event":"setState","context":"ctx1","payload":{"state":1}}"#,
        ),
        (
            Command::SendToPropertyInspector {
                action: "com.example.counter".to_string(),
                context: "ctx1".to_string(),
                payload: value(r#"[1,"two",null]"#),
            },
            r#"{"event":"sendToPropertyInspector","action":"com.example.counter","context":"ctx1","payload":[1,"two",null]}"#,
        ),
        (
            Command::SwitchToProfile {
                context: "ctx1".to_string(),
                device: "dev1".to_string(),
                payload: ProfilePayload { profile: "Games".to_string() },
            },
            r#"{"event":"switchToProfile","context":"ctx1","device":"dev1","payload":{"profile":"Games"}}"#,
        ),
        (
            Command::OpenUrl { payload: UrlPayload { url: "https://example.com/a?b=c".to_string() } },
            r#"{"event":"openUrl","payload":{"url":"https://example.com/a?b=c"}}"#,
        ),
        (
            Command::GetGlobalSettings { context: "ctx1".to_string() },
            r#"{"event":"getGlobalSettings","context":"ctx1"}"#,
        ),
        (
            Command::SetGlobalSettings { context: "ctx1".to_string(), payload: value("true") },
            r#"{"event":"setGlobalSettings","context":"ctx1","payload":true}"#,
        ),
        (
            Command::LogMessage {
                payload: LogMessagePayload { message: "a \"quoted\" line\n".to_string() },
            },
            r#"{"event":"logMessage","payload":{"message":"a \"quoted\" line\n"}}"#,
        ),
        (
            Command::SetFeedback {
                context: "ctx1".to_string(),
                payload: value(r#"{"value":"42","indicator":{"value":10}}"#),
            },
            r#"{"event":"setFeedback","context":"ctx1","payload":{"value":"42","indicator":{"value":10}}}"#,
        ),
        (
            Command::SetFeedbackLayout {
                context: "ctx1".to_string(),
                payload: SetFeedbackLayoutPayload { layout: "$B1".to_string() },
            },
            r#"{"event":"setFeedbackLayout","context":"ctx1","payload":{"layout":"$B1"}}"#,
        ),
        (
            Command::SetTriggerDescription {
                context: "ctx1".to_string(),
                payload: SetTriggerDescriptionPayload {
                    long_touch: None,
                    push: Some("Play".to_string()),
                    rotate: Some("Volume".to_string()),
                    touch: None,
                },
            },
            r#"{"event":"setTriggerDescription","context":"ctx1","payload":{"longTouch":null,"push":"Play","rotate":"Volume","touch":null}}"#,
        ),
    ]
}

#[test]
fn every_command_has_its_exact_text() {
    for (command, text) in every_command() {
        assert_eq!(command.encode().expect("command encodes"), text);
    }
}

#[test]
fn every_command_is_read_back_from_its_text() {
    for (command, text) in every_command() {
        assert_eq!(Command::decode(text).expect("text decodes"), command);
        let again = Command::decode(&command.encode().unwrap()).unwrap();
        assert_eq!(again.encode().unwrap(), text);
    }
}

#[test]
fn every_command_is_read_back_from_its_document() {
    for (command, text) in every_command() {
        let document = command.to_value();
        assert_eq!(document, value(text));
        assert_eq!(Command::from_json(&document), Ok(command));
    }
}

#[test]
fn round_trip_does_not_depend_on_key_order() {
    let text = r#"{"payload":{"state":1,"target":2,"title":null},"context":"ctx1","event":"setTitle"}"#;
    let command = Command::decode(text).unwrap();
    assert_eq!(
        command.encode().unwrap(),
        r#"{"event":"setTitle","context":"ctx1","payload":{"title":null,"target":2,"state":1}}"#
    );
}

#[test]
fn show_alert_for_a_context() {
    let command = Command::ShowAlert { context: "ctx1".to_string() };
    assert_eq!(command.encode().unwrap(), r#"{"event":"showAlert","context":"ctx1"}"#);
}

#[test]
fn command_with_unknown_tag_is_an_error() {
    assert_eq!(
        Command::from_json(&value(r#"{"event":"keyDown","context":"c"}"#)),
        Err(DecodeError::Invalid("event"))
    );
    assert!(matches!(
        Command::decode(r#"{"event":"selfDestruct"}"#),
        Err(BadMessage::Field(DecodeError::Invalid("event")))
    ));
}

#[test]
fn command_with_bad_target_is_an_error() {
    let text = r#"{"event":"setTitle","context":"c","payload":{"title":"t","target":3}}"#;
    assert_eq!(Command::from_json(&value(text)), Err(DecodeError::Invalid("target")));
    let text = r#"{"event":"setTitle","context":"c","payload":{"title":"t","target":"both"}}"#;
    assert_eq!(Command::from_json(&value(text)), Err(DecodeError::Invalid("target")));
    let text = r#"{"event":"setTitle","context":"c","payload":{"title":"t"}}"#;
    assert_eq!(Command::from_json(&value(text)), Err(DecodeError::Missing("target")));
}

#[test]
fn command_tags_are_camel_case() {
    assert_eq!(Command::ShowOk { context: String::new() }.tag(), "showOk");
    assert_eq!(
        Command::OpenUrl { payload: UrlPayload { url: String::new() } }.tag(),
        "openUrl"
    );
}

#[test]
fn target_codes() {
    assert_eq!(Target::Both.to_code(), 0);
    assert_eq!(Target::Hardware.to_code(), 1);
    assert_eq!(Target::Software.to_code(), 2);
    assert_eq!(Target::from_code(0), Some(Target::Both));
    assert_eq!(Target::from_code(1), Some(Target::Hardware));
    assert_eq!(Target::from_code(2), Some(Target::Software));
    assert_eq!(Target::from_code(3), None);
    assert_eq!(Target::from_json(&value("256")), None);
    assert_eq!(Target::Software.to_value(), value("2"));
}
