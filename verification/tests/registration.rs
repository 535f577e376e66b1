use serde_json::Value;
use streamdeck_rs::color::Color;
use streamdeck_rs::json::{BadMessage, DecodeError};
use streamdeck_rs::payload::{DeviceSize, DeviceType};
use streamdeck_rs::registration::{
    Language, Platform, RegistrationInfoApplication, RegistrationInfoDevice,
    RegistrationInfoPlugin, RegistrationParams, RegistrationParamsError, UserColors,
};
use streamdeck_rs::RegistrationInfo;

const INFO: &str = r##"{"application":{"language":"en","platform":"mac","version":"6.0.0"},"plugin":{"version":"1.2.3","uuid":"com.example.plugin"},"devicePixelRatio":2,"devices":[{"id":"55F16B35884A859CCE4FFA1FC8D3DE5B","name":"Desk","size":{"columns":5,"rows":3},"type":0},{"id":"X","size":{"columns":3,"rows":2},"type":1}],"colors":{"buttonPressedBackgroundColor":"#303030FF","buttonPressedBorderColor":"#646464FF","buttonPressedTextColor":"#969696FF","disabledColor":"#F7821B59","highlightColor":"#F7821BFF","mouseDownColor":"#CF6304"}}"##;

fn info() -> RegistrationInfo {
    RegistrationInfo {
        application: RegistrationInfoApplication {
            language: Language::English,
            platform: Platform::Mac,
            version: "6.0.0".to_string(),
        },
        plugin: RegistrationInfoPlugin {
            version: "1.2.3".to_string(),
            uuid: "com.example.plugin".to_string(),
        },
        device_pixel_ratio: 2,
        devices: vec![
            RegistrationInfoDevice {
                id: "55F16B35884A859CCE4FFA1FC8D3DE5B".to_string(),
                name: Some("Desk".to_string()),
                size: DeviceSize { columns: 5, rows: 3 },
                _type: Some(DeviceType::StreamDeck),
            },
            RegistrationInfoDevice {
                id: "X".to_string(),
                name: None,
                size: DeviceSize { columns: 3, rows: 2 },
                _type: Some(DeviceType::StreamDeckMini),
            },
        ],
        colors: UserColors {
            button_pressed_background_color: Some(Color::Rgba { r: 0x30, g: 0x30, b: 0x30, a: 0xff }),
            button_pressed_border_color: Some(Color::Rgba { r: 0x64, g: 0x64, b: 0x64, a: 0xff }),
            button_pressed_text_color: Some(Color::Rgba { r: 0x96, g: 0x96, b: 0x96, a: 0xff }),
            disabled_color: Some(Color::Rgba { r: 0xf7, g: 0x82, b: 0x1b, a: 0x59 }),
            highlight_color: Some(Color::Rgba { r: 0xf7, g: 0x82, b: 0x1b, a: 0xff }),
            mouse_down_color: Some(Color::Rgb { r: 0xcf, g: 0x63, b: 0x04 }),
        },
    }
}

fn args(list: &[&str]) -> Vec<String> {
    list.iter().map(|s| s.to_string()).collect()
}

#[test]
fn registration_info_decodes() {
    assert_eq!(RegistrationInfo::decode(INFO).unwrap(), info());
}

#[test]
fn registration_info_encodes_colors_in_lower_case() {
    let text = info().encode().unwrap();
    assert_eq!(text, r##"{"application":{"language":"en","platform":"mac","version":"6.0.0"},"plugin":{"version":"1.2.3","uuid":"com.example.plugin"},"devicePixelRatio":2,"devices":[{"id":"55F16B35884A859CCE4FFA1FC8D3DE5B","name":"Desk","size":{"columns":5,"rows":3},"type":0},{"id":"X","name":null,"size":{"columns":3,"rows":2},"type":1}],"colors":{"buttonPressedBackgroundColor":"#303030ff","buttonPressedBorderColor":"#646464ff","buttonPressedTextColor":"#969696ff","disabledColor":"#f7821b59","highlightColor":"#f7821bff","mouseDownColor":"#cf6304"}}"##);
    assert_eq!(RegistrationInfo::decode(&text).unwrap(), info());
}

#[test]
fn registration_info_without_devices() {
    let text = r#"{"application":{"language":"xx","platform":"linux","version":"1"},"plugin":{"version":"1","uuid":"u"},"devicePixelRatio":1,"devices":[],"colors":{}}"#;
    let info = RegistrationInfo::decode(text).unwrap();
    assert_eq!(info.application.language, Language::Unknown("xx".to_string()));
    assert_eq!(info.application.platform, Platform::Unknown("linux".to_string()));
    assert!(info.devices.is_empty());
    assert_eq!(info.colors, UserColors::default());
}

#[test]
fn registration_info_faults() {
    let fault = |text: &str| match RegistrationInfo::decode(text) {
        Err(BadMessage::Field(e)) => e,
        other => panic!("unexpected {:?}", other),
    };
    assert_eq!(fault("[]"), DecodeError::NotAnObject);
    assert_eq!(fault("{}"), DecodeError::Missing("application"));
    let text = r#"{"application":{"language":"en","platform":"mac","version":"6"},"plugin":{"version":"1","uuid":"u"},"devicePixelRatio":1,"devices":{},"colors":{}}"#;
    assert_eq!(fault(text), DecodeError::Invalid("devices"));
    let text = r#"{"application":{"language":"en","platform":"mac","version":"6"},"plugin":{"version":"1","uuid":"u"},"devicePixelRatio":1,"devices":[{"id":"a","size":{"columns":1,"rows":1}},{"id":"b"}],"colors":{}}"#;
    assert_eq!(fault(text), DecodeError::Missing("size"));
    let text = r#"{"application":{"language":"en","platform":"mac","version":"6"},"plugin":{"version":"1","uuid":"u"},"devicePixelRatio":1,"devices":[],"colors":{"highlightColor":"red"}}"#;
    assert_eq!(fault(text), DecodeError::Invalid("highlightColor"));
    let text = r#"{"application":{"language":"en","platform":"mac","version":"6"},"plugin":{"version":"1","uuid":"u"},"devicePixelRatio":1,"devices":[]}"#;
    assert_eq!(fault(text), DecodeError::Missing("colors"));
    assert!(matches!(RegistrationInfo::decode("{"), Err(BadMessage::Syntax(_))));
}

#[test]
fn languages_and_platforms() {
    let languages = [
        ("en", Language::English),
        ("fr", Language::French),
        ("de", Language::German),
        ("es", Language::Spanish),
        ("ja", Language::Japanese),
        ("zh_cn", Language::ChineseChina),
        ("ko", Language::Unknown("ko".to_string())),
        ("EN", Language::Unknown("EN".to_string())),
    ];
    for (text, language) in languages {
        assert_eq!(Language::from_text(text), language);
        assert_eq!(language.as_text(), text);
        assert_eq!(Language::from_json(&Value::from(text)), Some(language));
    }
    let platforms = [
        ("mac", Platform::Mac),
        ("windows", Platform::Windows),
        ("linux", Platform::Unknown("linux".to_string())),
    ];
    for (text, platform) in platforms {
        assert_eq!(Platform::from_text(text), platform);
        assert_eq!(platform.as_text(), text);
        assert_eq!(platform.to_value(), Value::from(text));
    }
    assert_eq!(Language::from_json(&Value::from(1u64)), None);
    assert_eq!(Platform::from_json(&Value::Null), None);
}

#[test]
fn device_types_by_number() {
    let kinds = [
        (0, DeviceType::StreamDeck),
        (1, DeviceType::StreamDeckMini),
        (2, DeviceType::StreamDeckXl),
        (3, DeviceType::StreamDeckMobile),
        (4, DeviceType::CorsairGKeys),
        (5, DeviceType::StreamDeckPedal),
        (6, DeviceType::CorsairVoyager),
        (7, DeviceType::StreamDeckPlus),
        (8, DeviceType::Unknown(8)),
        (u64::MAX, DeviceType::Unknown(u64::MAX)),
    ];
    for (code, kind) in kinds {
        assert_eq!(DeviceType::from_code(code), kind);
        assert_eq!(kind.to_code(), code);
        assert_eq!(DeviceType::from_json(&Value::from(code)), Some(kind));
        assert_eq!(kind.to_value(), Value::from(code));
    }
    assert_eq!(DeviceType::Unknown(3).to_code(), 3);
    assert_eq!(DeviceType::from_json(&Value::from(-1i64)), None);
    assert_eq!(DeviceType::from_json(&Value::from("0")), None);
}

#[test]
fn params_from_a_command_line() {
    let line = args(&[
        "plugin.exe",
        "-port",
        "28196",
        "-pluginUUID",
        "abc-123",
        "-registerEvent",
        "registerPlugin",
        "-info",
        INFO,
    ]);
    let params = RegistrationParams::from_args(&line).unwrap();
    assert_eq!(
        params,
        RegistrationParams {
            port: 28196,
            uuid: "abc-123".to_string(),
            event: "registerPlugin".to_string(),
            info: info(),
        }
    );
}

#[test]
fn params_in_any_order_and_the_later_counts() {
    let line = args(&[
        "-info", "{", "-registerEvent", "first", "ignored", "-port", "1", "-info", INFO,
        "-pluginUUID", "u", "-port", "65535", "-registerEvent", "second",
    ]);
    let params = RegistrationParams::from_args(&line).unwrap();
    assert_eq!(params.port, 65535);
    assert_eq!(params.event, "second");
    assert_eq!(params.uuid, "u");
}

#[test]
fn an_option_takes_what_stands_behind_it() {
    let line = args(&["-pluginUUID", "-port", "8000", "-registerEvent", "e", "-info", INFO]);
    assert!(matches!(
        RegistrationParams::from_args(&line),
        Err(RegistrationParamsError::NoPort)
    ));
    let line = args(&["-port", "8000", "-pluginUUID", "u", "-registerEvent", "e", "-info", INFO, "-port"]);
    assert!(matches!(
        RegistrationParams::from_args(&line),
        Err(RegistrationParamsError::NoPort)
    ));
}

#[test]
fn params_errors_in_their_order() {
    let from = |list: &[&str]| RegistrationParams::from_args(&args(list));
    assert!(matches!(from(&[]), Err(RegistrationParamsError::NoPort)));
    assert!(matches!(
        from(&["-pluginUUID", "u", "-registerEvent", "e", "-info", INFO]),
        Err(RegistrationParamsError::NoPort)
    ));
    assert!(matches!(from(&["-port", "65536"]), Err(RegistrationParamsError::BadPort(_))));
    assert!(matches!(from(&["-port", "-1"]), Err(RegistrationParamsError::BadPort(_))));
    assert!(matches!(from(&["-port", ""]), Err(RegistrationParamsError::BadPort(_))));
    assert!(matches!(from(&["-port", "80 "]), Err(RegistrationParamsError::BadPort(_))));
    assert!(matches!(from(&["-port", "80"]), Err(RegistrationParamsError::NoUuid)));
    assert!(matches!(
        from(&["-port", "80", "-pluginUUID", "u"]),
        Err(RegistrationParamsError::NoEvent)
    ));
    assert!(matches!(
        from(&["-port", "80", "-pluginUUID", "u", "-registerEvent", "e"]),
        Err(RegistrationParamsError::NoInfo)
    ));
    assert!(matches!(
        from(&["-port", "80", "-pluginUUID", "u", "-registerEvent", "e", "-info", "{"]),
        Err(RegistrationParamsError::BadInfo(BadMessage::Syntax(_)))
    ));
    assert!(matches!(
        from(&["-port", "80", "-pluginUUID", "u", "-registerEvent", "e", "-info", "{}"]),
        Err(RegistrationParamsError::BadInfo(BadMessage::Field(DecodeError::Missing(
            "application"
        ))))
    ));
}

#[test]
fn port_is_read_as_a_number() {
    let line = args(&["-port", "+0080", "-pluginUUID", "u", "-registerEvent", "e", "-info", INFO]);
    assert_eq!(RegistrationParams::from_args(&line).unwrap().port, 80);
}
