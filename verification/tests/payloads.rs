use serde_json::Value;
use streamdeck_rs::json::DecodeError;
use streamdeck_rs::payload::{
    Alignment, Coordinates, DeviceInfo, DeviceSize, DeviceType, KeyPayload, TitlePayload, Target,
};
use streamdeck_rs::property_inspector::{
    Message as InspectorMessage, MessageOut as InspectorCommand, RegistrationActionInfo,
    RegistrationActionInfoPayload,
};
use streamdeck_rs::payload::{
    DialRotatePayload, GlobalSettingsPayload, LogMessagePayload, TitleParameters,
    TouchTapPayload, UrlPayload,
};

fn value(text: &str) -> Value {
    serde_json::from_str(text).expect("test input is JSON")
}

#[test]
fn coordinates_round_trip() {
    let at = Coordinates { column: 4, row: 255 };
    assert_eq!(at.to_value(), value(r#"{"column":4,"row":255}"#));
    assert_eq!(Coordinates::from_json(&at.to_value()), Ok(at));
    assert_eq!(
        Coordinates::from_json(&value(r#"{"row":1,"column":0,"z":9}"#)),
        Ok(Coordinates { column: 0, row: 1 })
    );
}

#[test]
fn coordinates_faults() {
    assert_eq!(Coordinates::from_json(&value("[1,2]")), Err(DecodeError::NotAnObject));
    assert_eq!(Coordinates::from_json(&value(r#"{"row":1}"#)), Err(DecodeError::Missing("column")));
    assert_eq!(
        Coordinates::from_json(&value(r#"{"column":1,"row":null}"#)),
        Err(DecodeError::Invalid("row"))
    );
    assert_eq!(
        Coordinates::from_json(&value(r#"{"column":"1","row":1}"#)),
        Err(DecodeError::Invalid("column"))
    );
}

#[test]
fn title_state_is_left_out_when_absent() {
    let payload = TitlePayload { title: None, target: Target::Both, state: None };
    assert_eq!(
        serde_json::to_string(&payload.to_value()).unwrap(),
        r#"{"title":null,"target":0}"#
    );
    let payload = TitlePayload { title: Some(String::new()), target: Target::Both, state: Some(255) };
    assert_eq!(
        serde_json::to_string(&payload.to_value()).unwrap(),
        r#"{"title":"","target":0,"state":255}"#
    );
    assert_eq!(TitlePayload::from_json(&payload.to_value()), Ok(payload));
}

#[test]
fn null_and_absent_options_read_the_same() {
    let a = KeyPayload::<Value>::from_json(&value(r#"{"settings":0,"state":null,"coordinates":null}"#));
    let b = KeyPayload::<Value>::from_json(&value(r#"{"settings":0}"#));
    assert_eq!(a, b);
    assert_eq!(
        a,
        Ok(KeyPayload {
            settings: value("0"),
            coordinates: None,
            state: None,
            user_desired_state: None
        })
    );
}

#[test]
fn settings_are_carried_untouched() {
    let settings = value(r#"{"z":[1,{"y":null}],"a":"b","n":1e300}"#);
    let payload = KeyPayload {
        settings: settings.clone(),
        coordinates: None,
        state: None,
        user_desired_state: None,
    };
    let document = payload.to_value();
    assert_eq!(document.get("settings"), Some(&settings));
    assert_eq!(KeyPayload::<Value>::from_json(&document), Ok(payload));
}

#[test]
fn alignment_words() {
    for (text, alignment) in
        [("top", Alignment::Top), ("middle", Alignment::Middle), ("bottom", Alignment::Bottom)]
    {
        assert_eq!(Alignment::from_text(text), Some(alignment));
        assert_eq!(alignment.as_text(), text);
        assert_eq!(alignment.to_value(), Value::from(text));
        assert_eq!(Alignment::from_json(&Value::from(text)), Some(alignment));
    }
    assert_eq!(Alignment::from_text("Top"), None);
    assert_eq!(Alignment::from_json(&Value::from(0u64)), None);
}

#[test]
fn device_info_key_is_type() {
    let info = DeviceInfo {
        name: None,
        size: DeviceSize { columns: 4, rows: 2 },
        _type: Some(DeviceType::StreamDeckPlus),
    };
    assert_eq!(
        serde_json::to_string(&info.to_value()).unwrap(),
        r#"{"name":null,"size":{"columns":4,"rows":2},"type":7}"#
    );
    assert_eq!(DeviceInfo::from_json(&info.to_value()), Ok(info));
    assert_eq!(
        DeviceInfo::from_json(&value(r#"{"size":{"columns":4,"rows":2},"type":"7"}"#)),
        Err(DecodeError::Invalid("type"))
    );
}

#[test]
fn inspector_registration_carries_its_name() {
    let info = RegistrationActionInfo {
        action: "a".to_string(),
        context: "c".to_string(),
        device: "d".to_string(),
        payload: RegistrationActionInfoPayload {
            settings: value("{}"),
            coordinates: Coordinates { column: 1, row: 1 },
        },
    };
    assert_eq!(
        serde_json::to_string(&info.to_value()).unwrap(),
        r#"{"event":"RegistrationActionInfo","action":"a","context":"c","device":"d","payload":{"event":"RegistrationActionInfoPayload","settings":{},"coordinates":{"column":1,"row":1}}}"#
    );
    assert_eq!(RegistrationActionInfo::<Value>::from_json(&info.to_value()), Ok(info));
    let bare = value(r#"{"action":"a","context":"c","device":"d","payload":{"settings":1,"coordinates":{"column":0,"row":0}}}"#);
    assert!(RegistrationActionInfo::<Value>::from_json(&bare).is_ok());
}

#[test]
fn inspector_messages_decode() {
    type Event = InspectorMessage<Value, Value, Value>;
    assert_eq!(
        Event::decode(r#"{"event":"didReceiveGlobalSettings","payload":{"settings":[]}}"#).unwrap(),
        Event::DidReceiveGlobalSettings { payload: GlobalSettingsPayload { settings: value("[]") } }
    );
    assert_eq!(
        Event::decode(r#"{"event":"sendToPropertyInspector","action":"a","context":"c","payload":1}"#)
            .unwrap(),
        Event::SendToPropertyInspector {
            action: "a".to_string(),
            context: "c".to_string(),
            payload: value("1")
        }
    );
    assert_eq!(
        Event::from_json(&value(r#"{"event":"keyDown"}"#)),
        Err(DecodeError::Invalid("event"))
    );
    assert_eq!(
        Event::from_json(&value(r#"{"event":"didReceiveSettings","action":"a"}"#)),
        Err(DecodeError::Missing("context"))
    );
}

#[test]
fn inspector_commands_round_trip() {
    type Command = InspectorCommand<Value, Value, Value>;
    let commands = vec![
        (Command::GetSettings { context: "c".to_string() }, r#"{"event":"getSettings","context":"c"}"#),
        (
            Command::SetSettings { context: "c".to_string(), payload: value(r#"{"a":1}"#) },
            r#"{"event":"setSettings","context":"c","payload":{"a":1}}"#,
        ),
        (
            Command::OpenUrl { payload: UrlPayload { url: "u".to_string() } },
            r#"{"event":"openUrl","payload":{"url":"u"}}"#,
        ),
        (
            Command::GetGlobalSettings { context: "c".to_string() },
            r#"{"event":"getGlobalSettings","context":"c"}"#,
        ),
        (
            Command::SetGlobalSettings { context: "c".to_string(), payload: value("null") },
            r#"{"event":"setGlobalSettings","context":"c","payload":null}"#,
        ),
        (
            Command::LogMessage { payload: LogMessagePayload { message: "m".to_string() } },
            r#"{"event":"logMessage","payload":{"message":"m"}}"#,
        ),
        (
            Command::SendToPlugin {
                action: "a".to_string(),
                context: "c".to_string(),
                payload: value("[]"),
            },
            r#"{"event":"sendToPlugin","action":"a","context":"c","payload":[]}"#,
        ),
    ];
    for (command, text) in commands {
        assert_eq!(command.encode().unwrap(), text);
        assert_eq!(Command::decode(text).unwrap(), command);
    }
}

#[test]
fn touch_tap_payload_text() {
    let payload = TouchTapPayload {
        settings: value(r#"{"a":false}"#),
        coordinates: Some(Coordinates { column: 2, row: 0 }),
        tap_pos: (200, 7),
        hold: true,
    };
    assert_eq!(
        serde_json::to_string(&payload.to_value()).unwrap(),
        r#"{"settings":{"a":false},"coordinates":{"column":2,"row":0},"tapPos":[200,7],"hold":true}"#
    );
    assert_eq!(TouchTapPayload::<Value>::from_json(&payload.to_value()), Ok(payload));
}

#[test]
fn dial_rotate_payload_text() {
    let payload = DialRotatePayload {
        settings: Value::Null,
        coordinates: None,
        ticks: -12,
        pressed: false,
    };
    assert_eq!(
        serde_json::to_string(&payload.to_value()).unwrap(),
        r#"{"settings":null,"coordinates":null,"ticks":-12,"pressed":false}"#
    );
    assert_eq!(DialRotatePayload::<Value>::from_json(&payload.to_value()), Ok(payload));
    let payload = DialRotatePayload { settings: Value::Null, coordinates: None, ticks: i64::MAX, pressed: true };
    assert_eq!(
        serde_json::to_string(&payload.to_value()).unwrap(),
        r#"{"settings":null,"coordinates":null,"ticks":9223372036854775807,"pressed":true}"#
    );
}

#[test]
fn title_parameters_text() {
    let parameters = TitleParameters {
        font_family: "Arial".to_string(),
        font_size: 9,
        font_style: "Regular".to_string(),
        font_underline: true,
        show_title: false,
        title_alignment: Alignment::Bottom,
        title_color: "#000000".to_string(),
    };
    assert_eq!(
        serde_json::to_string(&parameters.to_value()).unwrap(),
        r##"{"fontFamily":"Arial","fontSize":9,"fontStyle":"Regular","fontUnderline":true,"showTitle":false,"titleAlignment":"bottom","titleColor":"#000000"}"##
    );
    assert_eq!(TitleParameters::from_json(&parameters.to_value()), Ok(parameters));
    let mut document = value(r#"{"fontFamily":"Arial","fontSize":9,"fontStyle":"Regular","fontUnderline":1,"showTitle":false,"titleAlignment":"bottom","titleColor":"x"}"#);
    assert_eq!(TitleParameters::from_json(&document), Err(DecodeError::Invalid("fontUnderline")));
    document["fontUnderline"] = Value::Bool(false);
    assert!(TitleParameters::from_json(&document).is_ok());
}

#[test]
fn a_member_that_comes_twice_counts_once() {
    let document = value(r#"{"column":1,"row":2,"column":3}"#);
    assert_eq!(Coordinates::from_json(&document), Ok(Coordinates { column: 3, row: 2 }));
}
