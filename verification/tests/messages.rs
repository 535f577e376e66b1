use serde_json::Value;
use streamdeck_rs::json::{BadMessage, DecodeError};
use streamdeck_rs::payload::{
    Alignment, ApplicationPayload, Coordinates, DeviceInfo, DeviceSize, DeviceType,
    DialRotatePayload, GlobalSettingsPayload, KeyPayload, TitleParameters,
    TitleParametersPayload, TouchTapPayload, VisibilityPayload,
};
use streamdeck_rs::Message;

type Event = Message<Value, Value, Value>;

fn json(text: &str) -> Value {
    serde_json::from_str(text).expect("test input is JSON")
}

fn decode(text: &str) -> Event {
    Event::decode(text).expect("frame decodes")
}

fn field_error(text: &str) -> DecodeError {
    match Event::decode(text) {
        Err(BadMessage::Field(e)) => e,
        other => panic!("expected a field error, got {:?}", other),
    }
}

const KEY_DOWN: &str = r#"{"action":"com.example.counter","event":"keyDown","context":"ctx1","device":"dev1","payload":{"settings":{"count":3},"coordinates":{"column":3,"row":1},"state":0,"userDesiredState":1,"isInMultiAction":false}}"#;

#[test]
fn key_down_decodes_to_reference() {
    let expected = Event::KeyDown {
        action: "com.example.counter".to_string(),
        context: "ctx1".to_string(),
        device: "dev1".to_string(),
        payload: KeyPayload {
            settings: json(r#"{"count":3}"#),
            coordinates: Some(Coordinates { column: 3, row: 1 }),
            state: Some(0),
            user_desired_state: Some(1),
        },
    };
    assert_eq!(decode(KEY_DOWN), expected);
}

#[test]
fn key_up_decodes_with_absent_options() {
    let text = r#"{"event":"keyUp","action":"a","context":"c","device":"d","payload":{"settings":null}}"#;
    let expected = Event::KeyUp {
        action: "a".to_string(),
        context: "c".to_string(),
        device: "d".to_string(),
        payload: KeyPayload {
            settings: Value::Null,
            coordinates: None,
            state: None,
            user_desired_state: None,
        },
    };
    assert_eq!(decode(text), expected);
}

#[test]
fn known_tag_with_missing_field_is_bad_message() {
    let text = r#"{"event":"keyDown","action":"a","device":"d","payload":{"settings":{}}}"#;
    assert_eq!(field_error(text), DecodeError::Missing("context"));
    let text = r#"{"event":"keyDown","action":"a","context":"c","device":"d"}"#;
    assert_eq!(field_error(text), DecodeError::Missing("payload"));
    let text = r#"{"event":"keyDown","action":"a","context":"c","device":"d","payload":{}}"#;
    assert_eq!(field_error(text), DecodeError::Missing("settings"));
    let text = r#"{"event":"deviceDidDisconnect"}"#;
    assert_eq!(field_error(text), DecodeError::Missing("device"));
}

#[test]
fn known_tag_with_malformed_field_is_bad_message() {
    let text = r#"{"event":"keyDown","action":7,"context":"c","device":"d","payload":{"settings":{}}}"#;
    assert_eq!(field_error(text), DecodeError::Invalid("action"));
    let text = r#"{"event":"keyDown","action":"a","context":"c","device":"d","payload":{"settings":{},"state":256}}"#;
    assert_eq!(field_error(text), DecodeError::Invalid("state"));
    let text = r#"{"event":"keyDown","action":"a","context":"c","device":"d","payload":{"settings":{},"state":-1}}"#;
    assert_eq!(field_error(text), DecodeError::Invalid("state"));
    let text = r#"{"event":"keyDown","action":"a","context":"c","device":"d","payload":{"settings":{},"state":1.5}}"#;
    assert_eq!(field_error(text), DecodeError::Invalid("state"));
    let text = r#"{"event":"keyDown","action":"a","context":"c","device":"d","payload":[]}"#;
    assert_eq!(field_error(text), DecodeError::NotAnObject);
}

#[test]
fn first_member_at_fault_decides_the_error() {
    let text = r#"{"event":"keyDown","action":7,"device":"d"}"#;
    assert_eq!(field_error(text), DecodeError::Invalid("action"));
    let text = r#"{"event":"keyDown","device":7}"#;
    assert_eq!(field_error(text), DecodeError::Missing("action"));
}

#[test]
fn unknown_tag_decodes_to_unknown() {
    assert_eq!(decode(r#"{"event":"somethingNew"}"#), Event::Unknown);
    assert_eq!(
        decode(r#"{"event":"somethingNew","context":5,"payload":[1,2,3]}"#),
        Event::Unknown
    );
    assert_eq!(decode(r#"{"event":""}"#), Event::Unknown);
    assert_eq!(decode(r#"{"event":"KeyDown"}"#), Event::Unknown);
    assert_eq!(decode(r#"{"event":"unknown"}"#), Event::Unknown);
}

#[test]
fn tag_is_required_and_a_string() {
    assert_eq!(field_error(r#"{"context":"c"}"#), DecodeError::Missing("event"));
    assert_eq!(field_error(r#"{"event":5}"#), DecodeError::Invalid("event"));
    assert_eq!(field_error(r#"{"event":null}"#), DecodeError::Invalid("event"));
    assert_eq!(field_error(r#"["keyDown"]"#), DecodeError::NotAnObject);
    assert_eq!(field_error(r#""keyDown""#), DecodeError::NotAnObject);
}

#[test]
fn text_that_is_not_json_is_a_syntax_error() {
    assert!(matches!(Event::decode("{"), Err(BadMessage::Syntax(_))));
    assert!(matches!(Event::decode(""), Err(BadMessage::Syntax(_))));
    assert!(matches!(
        Event::decode(r#"{"event":"systemDidWakeUp"} x"#),
        Err(BadMessage::Syntax(_))
    ));
}

#[test]
fn system_did_wake_up_has_no_payload() {
    assert_eq!(decode(r#"{"event":"systemDidWakeUp"}"#), Event::SystemDidWakeUp);
    assert_eq!(
        decode(r#"{"event":"systemDidWakeUp","extra":true}"#),
        Event::SystemDidWakeUp
    );
}

#[test]
fn unknown_members_are_ignored() {
    let text = r#"{"event":"deviceDidDisconnect","device":"d","since":"4.0","more":{"a":[]}}"#;
    assert_eq!(
        decode(text),
        Event::DeviceDidDisconnect { device: "d".to_string() }
    );
}

#[test]
fn will_appear_may_have_no_device() {
    let text = r#"{"event":"willAppear","action":"a","context":"c","payload":{"settings":{"x":true},"coordinates":{"column":0,"row":0},"state":2}}"#;
    let expected = Event::WillAppear {
        action: "a".to_string(),
        context: "c".to_string(),
        device: None,
        payload: VisibilityPayload {
            settings: json(r#"{"x":true}"#),
            coordinates: Some(Coordinates { column: 0, row: 0 }),
            state: Some(2),
        },
    };
    assert_eq!(decode(text), expected);
    let text = r#"{"event":"willDisappear","action":"a","context":"c","device":null,"payload":{"settings":1}}"#;
    let expected = Event::WillDisappear {
        action: "a".to_string(),
        context: "c".to_string(),
        device: None,
        payload: VisibilityPayload { settings: json("1"), coordinates: None, state: None },
    };
    assert_eq!(decode(text), expected);
}

#[test]
fn title_parameters_did_change_decodes() {
    let text = r##"{"event":"titleParametersDidChange","action":"a","context":"c","device":"d","payload":{"settings":{},"coordinates":{"column":1,"row":2},"state":0,"title":"Hello","titleParameters":{"fontFamily":"Arial","fontSize":12,"fontStyle":"Bold","fontUnderline":false,"showTitle":true,"titleAlignment":"middle","titleColor":"#ffffff"}}}"##;
    let expected = Event::TitleParametersDidChange {
        action: "a".to_string(),
        context: "c".to_string(),
        device: Some("d".to_string()),
        payload: TitleParametersPayload {
            settings: json("{}"),
            coordinates: Coordinates { column: 1, row: 2 },
            state: Some(0),
            title: "Hello".to_string(),
            title_parameters: TitleParameters {
                font_family: "Arial".to_string(),
                font_size: 12,
                font_style: "Bold".to_string(),
                font_underline: false,
                show_title: true,
                title_alignment: Alignment::Middle,
                title_color: "#ffffff".to_string(),
            },
        },
    };
    assert_eq!(decode(text), expected);
}

#[test]
fn title_alignment_outside_its_words_is_invalid() {
    let text = r##"{"event":"titleParametersDidChange","action":"a","context":"c","payload":{"settings":{},"coordinates":{"column":1,"row":2},"title":"Hello","titleParameters":{"fontFamily":"Arial","fontSize":12,"fontStyle":"Bold","fontUnderline":false,"showTitle":true,"titleAlignment":"center","titleColor":"#ffffff"}}}"##;
    assert_eq!(field_error(text), DecodeError::Invalid("titleAlignment"));
}

#[test]
fn device_did_connect_decodes() {
    let text = r#"{"event":"deviceDidConnect","device":"d","deviceInfo":{"name":"Desk","size":{"columns":5,"rows":3},"type":0}}"#;
    let expected = Event::DeviceDidConnect {
        device: "d".to_string(),
        device_info: DeviceInfo {
            name: Some("Desk".to_string()),
            size: DeviceSize { columns: 5, rows: 3 },
            _type: Some(DeviceType::StreamDeck),
        },
    };
    assert_eq!(decode(text), expected);
    let text = r#"{"event":"deviceDidConnect","device":"d","deviceInfo":{"size":{"columns":8,"rows":4},"type":42}}"#;
    let expected = Event::DeviceDidConnect {
        device: "d".to_string(),
        device_info: DeviceInfo {
            name: None,
            size: DeviceSize { columns: 8, rows: 4 },
            _type: Some(DeviceType::Unknown(42)),
        },
    };
    assert_eq!(decode(text), expected);
}

#[test]
fn application_events_decode() {
    assert_eq!(
        decode(r#"{"event":"applicationDidLaunch","payload":{"application":"cmd.exe"}}"#),
        Event::ApplicationDidLaunch {
            payload: ApplicationPayload { application: "cmd.exe".to_string() }
        }
    );
    assert_eq!(
        decode(r#"{"event":"applicationDidTerminate","payload":{"application":"cmd.exe"}}"#),
        Event::ApplicationDidTerminate {
            payload: ApplicationPayload { application: "cmd.exe".to_string() }
        }
    );
}

#[test]
fn settings_and_inspector_events_decode() {
    assert_eq!(
        decode(r#"{"event":"sendToPlugin","action":"a","context":"c","payload":{"ask":"state"}}"#),
        Event::SendToPlugin {
            action: "a".to_string(),
            context: "c".to_string(),
            payload: json(r#"{"ask":"state"}"#),
        }
    );
    assert_eq!(
        decode(r#"{"event":"didReceiveGlobalSettings","payload":{"settings":{"token":"t"}}}"#),
        Event::DidReceiveGlobalSettings {
            payload: GlobalSettingsPayload { settings: json(r#"{"token":"t"}"#) }
        }
    );
    assert_eq!(
        decode(r#"{"event":"propertyInspectorDidAppear","action":"a","context":"c","device":"d"}"#),
        Event::PropertyInspectorDidAppear {
            action: "a".to_string(),
            context: "c".to_string(),
            device: "d".to_string(),
        }
    );
    assert_eq!(
        decode(r#"{"event":"propertyInspectorDidDisappear","action":"a","context":"c","device":"d"}"#),
        Event::PropertyInspectorDidDisappear {
            action: "a".to_string(),
            context: "c".to_string(),
            device: "d".to_string(),
        }
    );
}

#[test]
fn touch_and_dial_events_decode() {
    let text = r#"{"event":"touchTap","action":"a","context":"c","device":"d","payload":{"settings":{},"coordinates":{"column":2,"row":0},"tapPos":[120,30],"hold":true}}"#;
    assert_eq!(
        decode(text),
        Event::TouchTap {
            action: "a".to_string(),
            context: "c".to_string(),
            device: "d".to_string(),
            payload: TouchTapPayload {
                settings: json("{}"),
                coordinates: Some(Coordinates { column: 2, row: 0 }),
                tap_pos: (120, 30),
                hold: true,
            },
        }
    );
    let text = r#"{"event":"dialRotate","action":"a","context":"c","device":"d","payload":{"settings":{},"ticks":-3,"pressed":false}}"#;
    assert_eq!(
        decode(text),
        Event::DialRotate {
            action: "a".to_string(),
            context: "c".to_string(),
            device: "d".to_string(),
            payload: DialRotatePayload {
                settings: json("{}"),
                coordinates: None,
                ticks: -3,
                pressed: false,
            },
        }
    );
}

#[test]
fn tap_position_has_exactly_two_bytes() {
    let with = |pos: &str| {
        format!(
            r#"{{"event":"touchTap","action":"a","context":"c","device":"d","payload":{{"settings":{{}},"tapPos":{},"hold":false}}}}"#,
            pos
        )
    };
    assert_eq!(field_error(&with("[1]")), DecodeError::Invalid("tapPos"));
    assert_eq!(field_error(&with("[1,2,3]")), DecodeError::Invalid("tapPos"));
    assert_eq!(field_error(&with("[1,256]")), DecodeError::Invalid("tapPos"));
    assert_eq!(field_error(&with("7")), DecodeError::Invalid("tapPos"));
    assert!(Event::decode(&with("[0,255]")).is_ok());
}

#[test]
fn ticks_cover_the_whole_of_i64() {
    let with = |ticks: &str| {
        format!(
            r#"{{"event":"dialRotate","action":"a","context":"c","device":"d","payload":{{"settings":{{}},"ticks":{},"pressed":true}}}}"#,
            ticks
        )
    };
    match decode(&with("-9223372036854775808")) {
        Event::DialRotate { payload, .. } => assert_eq!(payload.ticks, i64::MIN),
        other => panic!("unexpected {:?}", other),
    }
    match decode(&with("9223372036854775807")) {
        Event::DialRotate { payload, .. } => assert_eq!(payload.ticks, i64::MAX),
        other => panic!("unexpected {:?}", other),
    }
    assert_eq!(field_error(&with("9223372036854775808")), DecodeError::Invalid("ticks"));
    assert_eq!(field_error(&with("1.0")), DecodeError::Invalid("ticks"));
}

#[test]
fn events_are_read_back_from_their_own_text() {
    let events = vec![
        decode(KEY_DOWN),
        Event::SystemDidWakeUp,
        Event::Unknown,
        Event::DeviceDidDisconnect { device: "d".to_string() },
        Event::WillAppear {
            action: "a".to_string(),
            context: "c".to_string(),
            device: None,
            payload: VisibilityPayload { settings: json("[1,2]"), coordinates: None, state: Some(9) },
        },
    ];
    for event in events {
        let text = event.encode().expect("event encodes");
        assert_eq!(decode(&text), event);
    }
}

#[test]
fn event_text_has_the_tag_first() {
    assert_eq!(Event::SystemDidWakeUp.encode().unwrap(), r#"{"event":"systemDidWakeUp"}"#);
    assert_eq!(Event::Unknown.encode().unwrap(), r#"{"event":"unknown"}"#);
    assert_eq!(
        Event::DeviceDidDisconnect { device: "d".to_string() }.encode().unwrap(),
        r#"{"event":"deviceDidDisconnect","device":"d"}"#
    );
    assert_eq!(decode(KEY_DOWN).encode().unwrap(), r#"{"event":"keyDown","action":"com.example.counter","context":"ctx1","device":"dev1","payload":{"settings":{"count":3},"coordinates":{"column":3,"row":1},"state":0,"userDesiredState":1}}"#);
}

#[test]
fn event_tags_are_camel_case() {
    assert_eq!(Event::SystemDidWakeUp.tag(), "systemDidWakeUp");
    assert_eq!(Event::Unknown.tag(), "unknown");
    assert_eq!(Event::DeviceDidDisconnect { device: String::new() }.tag(), "deviceDidDisconnect");
}
