//! The messages that a property inspector exchanges with the host software.

use crate::json::{
    any_field, decoded, field, json_parse, json_text, leaf, lemma_get_empty, lemma_get_with, member,
    node, object_insert, parse_value, print_value, text_field, value_clone, value_is_object,
    value_object, value_str, value_view, BadMessage, DecodeError, JsonValue,
};
use crate::payload::{
    lemma_coordinates_round_trip, lemma_global_settings_payload_round_trip,
    lemma_key_payload_round_trip, lemma_log_message_payload_round_trip,
    lemma_url_payload_round_trip, Coordinates, GlobalSettingsPayload, GlobalSettingsPayloadView,
    KeyPayload, KeyPayloadView, LogMessagePayload, LogMessagePayloadView, UrlPayload,
    UrlPayloadView,
};
use serde_json::Value;
use vstd::prelude::*;

verus! {

/// The settings and the place of the action that a property inspector is opened
/// for.
#[derive(Debug, PartialEq)]
pub struct RegistrationActionInfoPayload<S> {
    /// The stored settings of the action instance.
    pub settings: S,
    /// The place of the action.
    pub coordinates: Coordinates,
}

/// The mathematical value of a [`RegistrationActionInfoPayload`].
pub struct RegistrationActionInfoPayloadView {
    pub settings: JsonValue,
    pub coordinates: Coordinates,
}

impl View for RegistrationActionInfoPayload<Value> {
    type V = RegistrationActionInfoPayloadView;

    open spec fn view(&self) -> RegistrationActionInfoPayloadView {
        RegistrationActionInfoPayloadView {
            settings: value_view(self.settings),
            coordinates: self.coordinates,
        }
    }
}

impl RegistrationActionInfoPayloadView {
    /// The value that a JSON document denotes: an object whose members are read
    /// by name, the first member at fault deciding the error.
    pub open spec fn of_json(j: JsonValue) -> Result<
        RegistrationActionInfoPayloadView,
        DecodeError,
    > {
        let settings = field(j, "settings");
        let coordinates = node(j, "coordinates", |m: JsonValue| Coordinates::of_json(m));
        if !(j is Object) {
            Err(DecodeError::NotAnObject)
        } else if settings is Err {
            Err(settings->Err_0)
        } else if coordinates is Err {
            Err(coordinates->Err_0)
        } else {
            Ok(
                RegistrationActionInfoPayloadView {
                    settings: settings->Ok_0,
                    coordinates: coordinates->Ok_0,
                },
            )
        }
    }

    /// The JSON document of the value.
    pub open spec fn to_json(self) -> JsonValue {
        let j = JsonValue::object();
        let j = j.with("event"@, JsonValue::Str("RegistrationActionInfoPayload"@));
        let j = j.with("settings"@, self.settings);
        let j = j.with("coordinates"@, self.coordinates.to_json());
        j
    }
}

impl RegistrationActionInfoPayload<Value> {
    /// Reads the value from a JSON document.
    pub fn from_json(v: &Value) -> (r: Result<Self, DecodeError>)
        ensures
            decoded(r) == RegistrationActionInfoPayloadView::of_json(value_view(*v)),
    {
        if !value_is_object(v) {
            return Err(DecodeError::NotAnObject);
        }
        let settings = any_field(v, "settings")?;
        let coordinates = Coordinates::from_json(member(v, "coordinates")?)?;
        Ok(RegistrationActionInfoPayload { settings, coordinates })
    }

    /// Writes the value as a JSON document.
    pub fn to_value(&self) -> (v: Value)
        ensures
            value_view(v) == self@.to_json(),
    {
        let mut obj = value_object();
        object_insert(&mut obj, "event", value_str("RegistrationActionInfoPayload"));
        object_insert(&mut obj, "settings", value_clone(&self.settings));
        object_insert(&mut obj, "coordinates", self.coordinates.to_value());
        obj
    }
}

/// A value is read back from its own document as it was.
pub proof fn lemma_registration_action_info_payload_round_trip(x: RegistrationActionInfoPayloadView)
    ensures
        RegistrationActionInfoPayloadView::of_json(x.to_json()) == Ok::<
            RegistrationActionInfoPayloadView,
            DecodeError,
        >(x),
{
    broadcast use {lemma_get_with, lemma_get_empty};

    reveal_strlit("event");
    assert("event"@.len() == 5);
    reveal_strlit("settings");
    assert("settings"@.len() == 8);
    reveal_strlit("coordinates");
    assert("coordinates"@.len() == 11);
    lemma_coordinates_round_trip(x.coordinates);
}

/// The action that a property inspector is opened for.
#[derive(Debug, PartialEq)]
pub struct RegistrationActionInfo<S> {
    /// The uuid of the action.
    pub action: String,
    /// The instance of the action.
    pub context: String,
    /// The device of the action.
    pub device: String,
    /// The settings and the place of the action.
    pub payload: RegistrationActionInfoPayload<S>,
}

/// The mathematical value of a [`RegistrationActionInfo`].
pub struct RegistrationActionInfoView {
    pub action: Seq<char>,
    pub context: Seq<char>,
    pub device: Seq<char>,
    pub payload: RegistrationActionInfoPayloadView,
}

impl View for RegistrationActionInfo<Value> {
    type V = RegistrationActionInfoView;

    open spec fn view(&self) -> RegistrationActionInfoView {
        RegistrationActionInfoView {
            action: self.action@,
            context: self.context@,
            device: self.device@,
            payload: self.payload@,
        }
    }
}

impl RegistrationActionInfoView {
    /// The value that a JSON document denotes: an object whose members are read
    /// by name, the first member at fault deciding the error.
    pub open spec fn of_json(j: JsonValue) -> Result<RegistrationActionInfoView, DecodeError> {
        let action = leaf(j, "action", |m: JsonValue| m.as_text());
        let context = leaf(j, "context", |m: JsonValue| m.as_text());
        let device = leaf(j, "device", |m: JsonValue| m.as_text());
        let payload = node(
            j,
            "payload",
            |m: JsonValue| RegistrationActionInfoPayloadView::of_json(m),
        );
        if !(j is Object) {
            Err(DecodeError::NotAnObject)
        } else if action is Err {
            Err(action->Err_0)
        } else if context is Err {
            Err(context->Err_0)
        } else if device is Err {
            Err(device->Err_0)
        } else if payload is Err {
            Err(payload->Err_0)
        } else {
            Ok(
                RegistrationActionInfoView {
                    action: action->Ok_0,
                    context: context->Ok_0,
                    device: device->Ok_0,
                    payload: payload->Ok_0,
                },
            )
        }
    }

    /// The JSON document of the value.
    pub open spec fn to_json(self) -> JsonValue {
        let j = JsonValue::object();
        let j = j.with("event"@, JsonValue::Str("RegistrationActionInfo"@));
        let j = j.with("action"@, JsonValue::Str(self.action));
        let j = j.with("context"@, JsonValue::Str(self.context));
        let j = j.with("device"@, JsonValue::Str(self.device));
        let j = j.with("payload"@, self.payload.to_json());
        j
    }
}

impl RegistrationActionInfo<Value> {
    /// Reads the value from a JSON document.
    pub fn from_json(v: &Value) -> (r: Result<Self, DecodeError>)
        ensures
            decoded(r) == RegistrationActionInfoView::of_json(value_view(*v)),
    {
        if !value_is_object(v) {
            return Err(DecodeError::NotAnObject);
        }
        let action = text_field(v, "action")?;
        let context = text_field(v, "context")?;
        let device = text_field(v, "device")?;
        let payload = RegistrationActionInfoPayload::<Value>::from_json(member(v, "payload")?)?;
        Ok(RegistrationActionInfo { action, context, device, payload })
    }

    /// Writes the value as a JSON document.
    pub fn to_value(&self) -> (v: Value)
        ensures
            value_view(v) == self@.to_json(),
    {
        let mut obj = value_object();
        object_insert(&mut obj, "event", value_str("RegistrationActionInfo"));
        object_insert(&mut obj, "action", value_str(self.action.as_str()));
        object_insert(&mut obj, "context", value_str(self.context.as_str()));
        object_insert(&mut obj, "device", value_str(self.device.as_str()));
        object_insert(&mut obj, "payload", self.payload.to_value());
        obj
    }
}

/// A value is read back from its own document as it was.
pub proof fn lemma_registration_action_info_round_trip(x: RegistrationActionInfoView)
    ensures
        RegistrationActionInfoView::of_json(x.to_json()) == Ok::<
            RegistrationActionInfoView,
            DecodeError,
        >(x),
{
    broadcast use {lemma_get_with, lemma_get_empty};

    reveal_strlit("event");
    assert("event"@.len() == 5);
    reveal_strlit("action");
    assert("action"@.len() == 6);
    reveal_strlit("context");
    assert("context"@.len() == 7);
    reveal_strlit("device");
    assert("device"@.len() == 6);
    reveal_strlit("payload");
    assert("payload"@.len() == 7);
    assert("action"@[0] != "device"@[0]);
    assert("context"@[0] != "payload"@[0]);
    lemma_registration_action_info_payload_round_trip(x.payload);
}

/// An event from the host software for a property inspector. `G` is the type of
/// the global settings, `S` that of the settings of an action, `M` that of the
/// messages from the plugin.
#[derive(Debug, PartialEq)]
pub enum Message<G, S, M> {
    /// The settings of the action arrived, as asked for or after the plugin
    /// changed them.
    DidReceiveSettings {
        /// The uuid of the action.
        action: String,
        /// The instance of the action.
        context: String,
        /// The device of the action.
        device: String,
        /// The settings.
        payload: KeyPayload<S>,
    },
    /// The settings of the plugin arrived, as asked for or after the plugin
    /// changed them.
    DidReceiveGlobalSettings {
        /// The settings.
        payload: GlobalSettingsPayload<G>,
    },
    /// The plugin sent data.
    SendToPropertyInspector {
        /// The uuid of the action.
        action: String,
        /// The instance of the action.
        context: String,
        /// The data.
        payload: M,
    },
}

/// The mathematical value of a [`Message`].
pub enum MessageView {
    DidReceiveSettings {
        action: Seq<char>,
        context: Seq<char>,
        device: Seq<char>,
        payload: KeyPayloadView,
    },
    DidReceiveGlobalSettings {
        payload: GlobalSettingsPayloadView,
    },
    SendToPropertyInspector {
        action: Seq<char>,
        context: Seq<char>,
        payload: JsonValue,
    },
}

impl View for Message<Value, Value, Value> {
    type V = MessageView;

    open spec fn view(&self) -> MessageView {
        match *self {
            Message::DidReceiveSettings {
                action,
                context,
                device,
                payload,
            } => MessageView::DidReceiveSettings {
                action: action@,
                context: context@,
                device: device@,
                payload: payload@,
            },
            Message::DidReceiveGlobalSettings { payload } => MessageView::DidReceiveGlobalSettings {
                payload: payload@,
            },
            Message::SendToPropertyInspector {
                action,
                context,
                payload,
            } => MessageView::SendToPropertyInspector {
                action: action@,
                context: context@,
                payload: value_view(payload),
            },
        }
    }
}

impl MessageView {
    /// Whether `tag` names one of the kinds that this catalogue knows.
    pub open spec fn recognized(tag: Seq<char>) -> bool {
        tag == "didReceiveSettings"@
            || tag == "didReceiveGlobalSettings"@
            || tag == "sendToPropertyInspector"@
    }

    /// What a document tagged `didReceiveSettings` denotes.
    pub open spec fn did_receive_settings_of_json(j: JsonValue) -> Result<
        MessageView,
        DecodeError,
    > {
        let action = leaf(j, "action", |m: JsonValue| m.as_text());
        let context = leaf(j, "context", |m: JsonValue| m.as_text());
        let device = leaf(j, "device", |m: JsonValue| m.as_text());
        let payload = node(j, "payload", |m: JsonValue| KeyPayloadView::of_json(m));
        if action is Err {
            Err(action->Err_0)
        } else if context is Err {
            Err(context->Err_0)
        } else if device is Err {
            Err(device->Err_0)
        } else if payload is Err {
            Err(payload->Err_0)
        } else {
            Ok(
                MessageView::DidReceiveSettings {
                    action: action->Ok_0,
                    context: context->Ok_0,
                    device: device->Ok_0,
                    payload: payload->Ok_0,
                },
            )
        }
    }

    /// What a document tagged `didReceiveGlobalSettings` denotes.
    pub open spec fn did_receive_global_settings_of_json(j: JsonValue) -> Result<
        MessageView,
        DecodeError,
    > {
        let payload = node(j, "payload", |m: JsonValue| GlobalSettingsPayloadView::of_json(m));
        if payload is Err {
            Err(payload->Err_0)
        } else {
            Ok(MessageView::DidReceiveGlobalSettings { payload: payload->Ok_0 })
        }
    }

    /// What a document tagged `sendToPropertyInspector` denotes.
    pub open spec fn send_to_property_inspector_of_json(j: JsonValue) -> Result<
        MessageView,
        DecodeError,
    > {
        let action = leaf(j, "action", |m: JsonValue| m.as_text());
        let context = leaf(j, "context", |m: JsonValue| m.as_text());
        let payload = field(j, "payload");
        if action is Err {
            Err(action->Err_0)
        } else if context is Err {
            Err(context->Err_0)
        } else if payload is Err {
            Err(payload->Err_0)
        } else {
            Ok(
                MessageView::SendToPropertyInspector {
                    action: action->Ok_0,
                    context: context->Ok_0,
                    payload: payload->Ok_0,
                },
            )
        }
    }

    /// The value that a JSON document denotes. The document has to be an object
    /// whose member `event` is a string, the tag; a recognized tag decides how
    /// the other members are read, and an unrecognized tag is an invalid
    /// `event`.
    pub open spec fn of_json(j: JsonValue) -> Result<MessageView, DecodeError> {
        let tag = leaf(j, "event", |m: JsonValue| m.as_text());
        if !(j is Object) {
            Err(DecodeError::NotAnObject)
        } else if tag is Err {
            Err(tag->Err_0)
        } else if tag->Ok_0 == "didReceiveSettings"@ {
            Self::did_receive_settings_of_json(j)
        } else if tag->Ok_0 == "didReceiveGlobalSettings"@ {
            Self::did_receive_global_settings_of_json(j)
        } else if tag->Ok_0 == "sendToPropertyInspector"@ {
            Self::send_to_property_inspector_of_json(j)
        } else {
            Err(DecodeError::Invalid("event"))
        }
    }

    /// Whether a document with this tag has to have this member.
    pub open spec fn requires_member(tag: Seq<char>, key: Seq<char>) -> bool {
        ||| tag == "didReceiveSettings"@ && (key == "action"@
            || key == "context"@
            || key == "device"@
            || key == "payload"@)
        ||| tag == "didReceiveGlobalSettings"@ && key == "payload"@
        ||| tag == "sendToPropertyInspector"@ && (key == "action"@
            || key == "context"@
            || key == "payload"@)
    }

    /// The tag under which the value travels.
    pub open spec fn tag(self) -> Seq<char> {
        match self {
            MessageView::DidReceiveSettings { .. } => "didReceiveSettings"@,
            MessageView::DidReceiveGlobalSettings { .. } => "didReceiveGlobalSettings"@,
            MessageView::SendToPropertyInspector { .. } => "sendToPropertyInspector"@,
        }
    }

    /// The JSON document of the value: the tag under `event`, then the fields.
    pub open spec fn to_json(self) -> JsonValue {
        let j = JsonValue::object().with("event"@, JsonValue::Str(self.tag()));
        match self {
            MessageView::DidReceiveSettings { action, context, device, payload } => {
                let j = j.with("action"@, JsonValue::Str(action));
                let j = j.with("context"@, JsonValue::Str(context));
                let j = j.with("device"@, JsonValue::Str(device));
                let j = j.with("payload"@, payload.to_json());
                j
            },
            MessageView::DidReceiveGlobalSettings { payload } => {
                let j = j.with("payload"@, payload.to_json());
                j
            },
            MessageView::SendToPropertyInspector { action, context, payload } => {
                let j = j.with("action"@, JsonValue::Str(action));
                let j = j.with("context"@, JsonValue::Str(context));
                let j = j.with("payload"@, payload);
                j
            },
        }
    }
}

impl Message<Value, Value, Value> {
    fn did_receive_settings_from_json(v: &Value) -> (r: Result<Self, DecodeError>)
        ensures
            decoded(r) == MessageView::did_receive_settings_of_json(value_view(*v)),
    {
        let action = text_field(v, "action")?;
        let context = text_field(v, "context")?;
        let device = text_field(v, "device")?;
        let payload = KeyPayload::<Value>::from_json(member(v, "payload")?)?;
        Ok(Message::DidReceiveSettings { action, context, device, payload })
    }

    fn did_receive_global_settings_from_json(v: &Value) -> (r: Result<Self, DecodeError>)
        ensures
            decoded(r) == MessageView::did_receive_global_settings_of_json(value_view(*v)),
    {
        let payload = GlobalSettingsPayload::<Value>::from_json(member(v, "payload")?)?;
        Ok(Message::DidReceiveGlobalSettings { payload })
    }

    fn send_to_property_inspector_from_json(v: &Value) -> (r: Result<Self, DecodeError>)
        ensures
            decoded(r) == MessageView::send_to_property_inspector_of_json(value_view(*v)),
    {
        let action = text_field(v, "action")?;
        let context = text_field(v, "context")?;
        let payload = any_field(v, "payload")?;
        Ok(Message::SendToPropertyInspector { action, context, payload })
    }

    /// Reads the value from a JSON document.
    pub fn from_json(v: &Value) -> (r: Result<Self, DecodeError>)
        ensures
            decoded(r) == MessageView::of_json(value_view(*v)),
    {
        if !value_is_object(v) {
            return Err(DecodeError::NotAnObject);
        }
        let tag = text_field(v, "event")?;
        let tag = tag.as_str();
        if tag.eq("didReceiveSettings") {
            Self::did_receive_settings_from_json(v)
        } else if tag.eq("didReceiveGlobalSettings") {
            Self::did_receive_global_settings_from_json(v)
        } else if tag.eq("sendToPropertyInspector") {
            Self::send_to_property_inspector_from_json(v)
        } else {
            Err(DecodeError::Invalid("event"))
        }
    }

    /// The tag under which the value travels.
    pub fn tag(&self) -> (s: &'static str)
        ensures
            s@ == self@.tag(),
    {
        match self {
            Message::DidReceiveSettings { .. } => "didReceiveSettings",
            Message::DidReceiveGlobalSettings { .. } => "didReceiveGlobalSettings",
            Message::SendToPropertyInspector { .. } => "sendToPropertyInspector",
        }
    }

    /// Writes the value as a JSON document.
    pub fn to_value(&self) -> (v: Value)
        ensures
            value_view(v) == self@.to_json(),
    {
        let mut obj = value_object();
        object_insert(&mut obj, "event", value_str(self.tag()));
        match self {
            Message::DidReceiveSettings { action, context, device, payload } => {
                object_insert(&mut obj, "action", value_str(action.as_str()));
                object_insert(&mut obj, "context", value_str(context.as_str()));
                object_insert(&mut obj, "device", value_str(device.as_str()));
                object_insert(&mut obj, "payload", payload.to_value());
            },
            Message::DidReceiveGlobalSettings { payload } => {
                object_insert(&mut obj, "payload", payload.to_value());
            },
            Message::SendToPropertyInspector { action, context, payload } => {
                object_insert(&mut obj, "action", value_str(action.as_str()));
                object_insert(&mut obj, "context", value_str(context.as_str()));
                object_insert(&mut obj, "payload", value_clone(payload));
            },
        }
        obj
    }

    /// Reads the value from the text of a frame: the text has to be JSON, and
    /// the document the wire form of a value.
    pub fn decode(text: &str) -> (r: Result<Self, BadMessage>)
        ensures
            match r {
                Ok(x) => json_parse(text@) matches Some(j) && MessageView::of_json(j) == Ok::<
                    MessageView,
                    DecodeError,
                >(x@),
                Err(BadMessage::Syntax(_)) => json_parse(text@) is None,
                Err(BadMessage::Field(e)) => json_parse(text@) matches Some(j) && MessageView::of_json(
                    j,
                ) == Err::<MessageView, DecodeError>(e),
                Err(BadMessage::Print(_)) => false,
            },
    {
        match parse_value(text) {
            Ok(v) => match Self::from_json(&v) {
                Ok(x) => Ok(x),
                Err(e) => Err(BadMessage::Field(e)),
            },
            Err(e) => Err(BadMessage::Syntax(e)),
        }
    }

    /// Writes the value as the text of one frame.
    pub fn encode(&self) -> (r: Result<String, BadMessage>)
        ensures
            match r {
                Ok(text) => json_text(self@.to_json()) == Some(text@),
                Err(BadMessage::Print(_)) => json_text(self@.to_json()) is None,
                Err(_) => false,
            },
    {
        match print_value(&self.to_value()) {
            Ok(text) => Ok(text),
            Err(e) => Err(BadMessage::Print(e)),
        }
    }
}

/// A document that lacks a member which its tag requires is an error: it is
/// read neither as that kind of value nor as any other.
pub proof fn lemma_message_missing_member(j: JsonValue, tag: Seq<char>, key: Seq<char>)
    requires
        j.get("event"@) == Some(JsonValue::Str(tag)),
        MessageView::requires_member(tag, key),
        j.get(key) is None,
    ensures
        MessageView::of_json(j) is Err,
{
    reveal_strlit("didReceiveSettings");
    assert("didReceiveSettings"@.len() == 18);
    reveal_strlit("didReceiveGlobalSettings");
    assert("didReceiveGlobalSettings"@.len() == 24);
    reveal_strlit("sendToPropertyInspector");
    assert("sendToPropertyInspector"@.len() == 23);
}

proof fn lemma_message_did_receive_settings(x: MessageView)
    requires
        x is DidReceiveSettings,
    ensures
        MessageView::of_json(x.to_json()) == Ok::<MessageView, DecodeError>(x),
{
    broadcast use {lemma_get_with, lemma_get_empty};

    reveal_strlit("event");
    assert("event"@.len() == 5);
    reveal_strlit("action");
    assert("action"@.len() == 6);
    reveal_strlit("context");
    assert("context"@.len() == 7);
    reveal_strlit("device");
    assert("device"@.len() == 6);
    reveal_strlit("payload");
    assert("payload"@.len() == 7);
    reveal_strlit("didReceiveSettings");
    assert("didReceiveSettings"@.len() == 18);
    assert("action"@[0] != "device"@[0]);
    assert("context"@[0] != "payload"@[0]);
    match x {
        MessageView::DidReceiveSettings { action, context, device, payload } => {
            lemma_key_payload_round_trip(payload);
        },
        _ => {},
    }
}

proof fn lemma_message_did_receive_global_settings(x: MessageView)
    requires
        x is DidReceiveGlobalSettings,
    ensures
        MessageView::of_json(x.to_json()) == Ok::<MessageView, DecodeError>(x),
{
    broadcast use {lemma_get_with, lemma_get_empty};

    reveal_strlit("event");
    assert("event"@.len() == 5);
    reveal_strlit("payload");
    assert("payload"@.len() == 7);
    reveal_strlit("didReceiveGlobalSettings");
    assert("didReceiveGlobalSettings"@.len() == 24);
    reveal_strlit("didReceiveSettings");
    assert("didReceiveSettings"@.len() == 18);
    match x {
        MessageView::DidReceiveGlobalSettings { payload } => {
            lemma_global_settings_payload_round_trip(payload);
        },
        _ => {},
    }
}

proof fn lemma_message_send_to_property_inspector(x: MessageView)
    requires
        x is SendToPropertyInspector,
    ensures
        MessageView::of_json(x.to_json()) == Ok::<MessageView, DecodeError>(x),
{
    broadcast use {lemma_get_with, lemma_get_empty};

    reveal_strlit("event");
    assert("event"@.len() == 5);
    reveal_strlit("action");
    assert("action"@.len() == 6);
    reveal_strlit("context");
    assert("context"@.len() == 7);
    reveal_strlit("payload");
    assert("payload"@.len() == 7);
    reveal_strlit("sendToPropertyInspector");
    assert("sendToPropertyInspector"@.len() == 23);
    reveal_strlit("didReceiveSettings");
    assert("didReceiveSettings"@.len() == 18);
    reveal_strlit("didReceiveGlobalSettings");
    assert("didReceiveGlobalSettings"@.len() == 24);
    assert("context"@[0] != "payload"@[0]);
}

/// A value is read back from its own document as it was.
pub proof fn lemma_message_round_trip(x: MessageView)
    ensures
        MessageView::of_json(x.to_json()) == Ok::<MessageView, DecodeError>(x),
{
    match x {
        MessageView::DidReceiveSettings { .. } => lemma_message_did_receive_settings(x),
        MessageView::DidReceiveGlobalSettings { .. } => {
            lemma_message_did_receive_global_settings(x);
        },
        MessageView::SendToPropertyInspector { .. } => lemma_message_send_to_property_inspector(x),
    }
}

/// A command of a property inspector for the host software. `G` is the type of
/// the global settings, `S` that of the settings of an action, `M` that of the
/// messages for the plugin.
#[derive(Debug, PartialEq)]
pub enum MessageOut<G, S, M> {
    /// Ask for the settings of the action.
    GetSettings {
        /// The instance of the action.
        context: String,
    },
    /// Store the settings of the action.
    SetSettings {
        /// The instance of the action.
        context: String,
        /// The settings to store.
        payload: S,
    },
    /// Open a URL in the default browser.
    OpenUrl {
        /// The URL to open.
        payload: UrlPayload,
    },
    /// Ask for the settings of the plugin.
    GetGlobalSettings {
        /// The instance of the action.
        context: String,
    },
    /// Store the settings of the plugin.
    SetGlobalSettings {
        /// The instance of the action.
        context: String,
        /// The settings to store.
        payload: G,
    },
    /// Write a line to the log.
    LogMessage {
        /// The line to write.
        payload: LogMessagePayload,
    },
    /// Send data to the plugin.
    SendToPlugin {
        /// The uuid of the action.
        action: String,
        /// The instance of the action.
        context: String,
        /// The data to send.
        payload: M,
    },
}

/// The mathematical value of a [`MessageOut`].
pub enum MessageOutView {
    GetSettings {
        context: Seq<char>,
    },
    SetSettings {
        context: Seq<char>,
        payload: JsonValue,
    },
    OpenUrl {
        payload: UrlPayloadView,
    },
    GetGlobalSettings {
        context: Seq<char>,
    },
    SetGlobalSettings {
        context: Seq<char>,
        payload: JsonValue,
    },
    LogMessage {
        payload: LogMessagePayloadView,
    },
    SendToPlugin {
        action: Seq<char>,
        context: Seq<char>,
        payload: JsonValue,
    },
}

impl View for MessageOut<Value, Value, Value> {
    type V = MessageOutView;

    open spec fn view(&self) -> MessageOutView {
        match *self {
            MessageOut::GetSettings { context } => MessageOutView::GetSettings {
                context: context@,
            },
            MessageOut::SetSettings { context, payload } => MessageOutView::SetSettings {
                context: context@,
                payload: value_view(payload),
            },
            MessageOut::OpenUrl { payload } => MessageOutView::OpenUrl {
                payload: payload@,
            },
            MessageOut::GetGlobalSettings { context } => MessageOutView::GetGlobalSettings {
                context: context@,
            },
            MessageOut::SetGlobalSettings {
                context,
                payload,
            } => MessageOutView::SetGlobalSettings {
                context: context@,
                payload: value_view(payload),
            },
            MessageOut::LogMessage { payload } => MessageOutView::LogMessage {
                payload: payload@,
            },
            MessageOut::SendToPlugin { action, context, payload } => MessageOutView::SendToPlugin {
                action: action@,
                context: context@,
                payload: value_view(payload),
            },
        }
    }
}

impl MessageOutView {
    /// Whether `tag` names one of the kinds that this catalogue knows.
    pub open spec fn recognized(tag: Seq<char>) -> bool {
        tag == "getSettings"@
            || tag == "setSettings"@
            || tag == "openUrl"@
            || tag == "getGlobalSettings"@
            || tag == "setGlobalSettings"@
            || tag == "logMessage"@
            || tag == "sendToPlugin"@
    }

    /// What a document tagged `getSettings` denotes.
    pub open spec fn get_settings_of_json(j: JsonValue) -> Result<MessageOutView, DecodeError> {
        let context = leaf(j, "context", |m: JsonValue| m.as_text());
        if context is Err {
            Err(context->Err_0)
        } else {
            Ok(MessageOutView::GetSettings { context: context->Ok_0 })
        }
    }

    /// What a document tagged `setSettings` denotes.
    pub open spec fn set_settings_of_json(j: JsonValue) -> Result<MessageOutView, DecodeError> {
        let context = leaf(j, "context", |m: JsonValue| m.as_text());
        let payload = field(j, "payload");
        if context is Err {
            Err(context->Err_0)
        } else if payload is Err {
            Err(payload->Err_0)
        } else {
            Ok(MessageOutView::SetSettings { context: context->Ok_0, payload: payload->Ok_0 })
        }
    }

    /// What a document tagged `openUrl` denotes.
    pub open spec fn open_url_of_json(j: JsonValue) -> Result<MessageOutView, DecodeError> {
        let payload = node(j, "payload", |m: JsonValue| UrlPayloadView::of_json(m));
        if payload is Err {
            Err(payload->Err_0)
        } else {
            Ok(MessageOutView::OpenUrl { payload: payload->Ok_0 })
        }
    }

    /// What a document tagged `getGlobalSettings` denotes.
    pub open spec fn get_global_settings_of_json(j: JsonValue) -> Result<
        MessageOutView,
        DecodeError,
    > {
        let context = leaf(j, "context", |m: JsonValue| m.as_text());
        if context is Err {
            Err(context->Err_0)
        } else {
            Ok(MessageOutView::GetGlobalSettings { context: context->Ok_0 })
        }
    }

    /// What a document tagged `setGlobalSettings` denotes.
    pub open spec fn set_global_settings_of_json(j: JsonValue) -> Result<
        MessageOutView,
        DecodeError,
    > {
        let context = leaf(j, "context", |m: JsonValue| m.as_text());
        let payload = field(j, "payload");
        if context is Err {
            Err(context->Err_0)
        } else if payload is Err {
            Err(payload->Err_0)
        } else {
            Ok(MessageOutView::SetGlobalSettings { context: context->Ok_0, payload: payload->Ok_0 })
        }
    }

    /// What a document tagged `logMessage` denotes.
    pub open spec fn log_message_of_json(j: JsonValue) -> Result<MessageOutView, DecodeError> {
        let payload = node(j, "payload", |m: JsonValue| LogMessagePayloadView::of_json(m));
        if payload is Err {
            Err(payload->Err_0)
        } else {
            Ok(MessageOutView::LogMessage { payload: payload->Ok_0 })
        }
    }

    /// What a document tagged `sendToPlugin` denotes.
    pub open spec fn send_to_plugin_of_json(j: JsonValue) -> Result<MessageOutView, DecodeError> {
        let action = leaf(j, "action", |m: JsonValue| m.as_text());
        let context = leaf(j, "context", |m: JsonValue| m.as_text());
        let payload = field(j, "payload");
        if action is Err {
            Err(action->Err_0)
        } else if context is Err {
            Err(context->Err_0)
        } else if payload is Err {
            Err(payload->Err_0)
        } else {
            Ok(
                MessageOutView::SendToPlugin {
                    action: action->Ok_0,
                    context: context->Ok_0,
                    payload: payload->Ok_0,
                },
            )
        }
    }

    /// The value that a JSON document denotes. The document has to be an object
    /// whose member `event` is a string, the tag; a recognized tag decides how
    /// the other members are read, and an unrecognized tag is an invalid
    /// `event`.
    pub open spec fn of_json(j: JsonValue) -> Result<MessageOutView, DecodeError> {
        let tag = leaf(j, "event", |m: JsonValue| m.as_text());
        if !(j is Object) {
            Err(DecodeError::NotAnObject)
        } else if tag is Err {
            Err(tag->Err_0)
        } else if tag->Ok_0 == "getSettings"@ {
            Self::get_settings_of_json(j)
        } else if tag->Ok_0 == "setSettings"@ {
            Self::set_settings_of_json(j)
        } else if tag->Ok_0 == "openUrl"@ {
            Self::open_url_of_json(j)
        } else if tag->Ok_0 == "getGlobalSettings"@ {
            Self::get_global_settings_of_json(j)
        } else if tag->Ok_0 == "setGlobalSettings"@ {
            Self::set_global_settings_of_json(j)
        } else if tag->Ok_0 == "logMessage"@ {
            Self::log_message_of_json(j)
        } else if tag->Ok_0 == "sendToPlugin"@ {
            Self::send_to_plugin_of_json(j)
        } else {
            Err(DecodeError::Invalid("event"))
        }
    }

    /// Whether a document with this tag has to have this member.
    pub open spec fn requires_member(tag: Seq<char>, key: Seq<char>) -> bool {
        ||| tag == "getSettings"@ && key == "context"@
        ||| tag == "setSettings"@ && (key == "context"@ || key == "payload"@)
        ||| tag == "openUrl"@ && key == "payload"@
        ||| tag == "getGlobalSettings"@ && key == "context"@
        ||| tag == "setGlobalSettings"@ && (key == "context"@ || key == "payload"@)
        ||| tag == "logMessage"@ && key == "payload"@
        ||| tag == "sendToPlugin"@ && (key == "action"@ || key == "context"@ || key == "payload"@)
    }

    /// The tag under which the value travels.
    pub open spec fn tag(self) -> Seq<char> {
        match self {
            MessageOutView::GetSettings { .. } => "getSettings"@,
            MessageOutView::SetSettings { .. } => "setSettings"@,
            MessageOutView::OpenUrl { .. } => "openUrl"@,
            MessageOutView::GetGlobalSettings { .. } => "getGlobalSettings"@,
            MessageOutView::SetGlobalSettings { .. } => "setGlobalSettings"@,
            MessageOutView::LogMessage { .. } => "logMessage"@,
            MessageOutView::SendToPlugin { .. } => "sendToPlugin"@,
        }
    }

    /// The JSON document of the value: the tag under `event`, then the fields.
    pub open spec fn to_json(self) -> JsonValue {
        let j = JsonValue::object().with("event"@, JsonValue::Str(self.tag()));
        match self {
            MessageOutView::GetSettings { context } => {
                let j = j.with("context"@, JsonValue::Str(context));
                j
            },
            MessageOutView::SetSettings { context, payload } => {
                let j = j.with("context"@, JsonValue::Str(context));
                let j = j.with("payload"@, payload);
                j
            },
            MessageOutView::OpenUrl { payload } => {
                let j = j.with("payload"@, payload.to_json());
                j
            },
            MessageOutView::GetGlobalSettings { context } => {
                let j = j.with("context"@, JsonValue::Str(context));
                j
            },
            MessageOutView::SetGlobalSettings { context, payload } => {
                let j = j.with("context"@, JsonValue::Str(context));
                let j = j.with("payload"@, payload);
                j
            },
            MessageOutView::LogMessage { payload } => {
                let j = j.with("payload"@, payload.to_json());
                j
            },
            MessageOutView::SendToPlugin { action, context, payload } => {
                let j = j.with("action"@, JsonValue::Str(action));
                let j = j.with("context"@, JsonValue::Str(context));
                let j = j.with("payload"@, payload);
                j
            },
        }
    }
}

impl MessageOut<Value, Value, Value> {
    fn get_settings_from_json(v: &Value) -> (r: Result<Self, DecodeError>)
        ensures
            decoded(r) == MessageOutView::get_settings_of_json(value_view(*v)),
    {
        let context = text_field(v, "context")?;
        Ok(MessageOut::GetSettings { context })
    }

    fn set_settings_from_json(v: &Value) -> (r: Result<Self, DecodeError>)
        ensures
            decoded(r) == MessageOutView::set_settings_of_json(value_view(*v)),
    {
        let context = text_field(v, "context")?;
        let payload = any_field(v, "payload")?;
        Ok(MessageOut::SetSettings { context, payload })
    }

    fn open_url_from_json(v: &Value) -> (r: Result<Self, DecodeError>)
        ensures
            decoded(r) == MessageOutView::open_url_of_json(value_view(*v)),
    {
        let payload = UrlPayload::from_json(member(v, "payload")?)?;
        Ok(MessageOut::OpenUrl { payload })
    }

    fn get_global_settings_from_json(v: &Value) -> (r: Result<Self, DecodeError>)
        ensures
            decoded(r) == MessageOutView::get_global_settings_of_json(value_view(*v)),
    {
        let context = text_field(v, "context")?;
        Ok(MessageOut::GetGlobalSettings { context })
    }

    fn set_global_settings_from_json(v: &Value) -> (r: Result<Self, DecodeError>)
        ensures
            decoded(r) == MessageOutView::set_global_settings_of_json(value_view(*v)),
    {
        let context = text_field(v, "context")?;
        let payload = any_field(v, "payload")?;
        Ok(MessageOut::SetGlobalSettings { context, payload })
    }

    fn log_message_from_json(v: &Value) -> (r: Result<Self, DecodeError>)
        ensures
            decoded(r) == MessageOutView::log_message_of_json(value_view(*v)),
    {
        let payload = LogMessagePayload::from_json(member(v, "payload")?)?;
        Ok(MessageOut::LogMessage { payload })
    }

    fn send_to_plugin_from_json(v: &Value) -> (r: Result<Self, DecodeError>)
        ensures
            decoded(r) == MessageOutView::send_to_plugin_of_json(value_view(*v)),
    {
        let action = text_field(v, "action")?;
        let context = text_field(v, "context")?;
        let payload = any_field(v, "payload")?;
        Ok(MessageOut::SendToPlugin { action, context, payload })
    }

    /// Reads the value from a JSON document.
    pub fn from_json(v: &Value) -> (r: Result<Self, DecodeError>)
        ensures
            decoded(r) == MessageOutView::of_json(value_view(*v)),
    {
        if !value_is_object(v) {
            return Err(DecodeError::NotAnObject);
        }
        let tag = text_field(v, "event")?;
        let tag = tag.as_str();
        if tag.eq("getSettings") {
            Self::get_settings_from_json(v)
        } else if tag.eq("setSettings") {
            Self::set_settings_from_json(v)
        } else if tag.eq("openUrl") {
            Self::open_url_from_json(v)
        } else if tag.eq("getGlobalSettings") {
            Self::get_global_settings_from_json(v)
        } else if tag.eq("setGlobalSettings") {
            Self::set_global_settings_from_json(v)
        } else if tag.eq("logMessage") {
            Self::log_message_from_json(v)
        } else if tag.eq("sendToPlugin") {
            Self::send_to_plugin_from_json(v)
        } else {
            Err(DecodeError::Invalid("event"))
        }
    }

    /// The tag under which the value travels.
    pub fn tag(&self) -> (s: &'static str)
        ensures
            s@ == self@.tag(),
    {
        match self {
            MessageOut::GetSettings { .. } => "getSettings",
            MessageOut::SetSettings { .. } => "setSettings",
            MessageOut::OpenUrl { .. } => "openUrl",
            MessageOut::GetGlobalSettings { .. } => "getGlobalSettings",
            MessageOut::SetGlobalSettings { .. } => "setGlobalSettings",
            MessageOut::LogMessage { .. } => "logMessage",
            MessageOut::SendToPlugin { .. } => "sendToPlugin",
        }
    }

    /// Writes the value as a JSON document.
    pub fn to_value(&self) -> (v: Value)
        ensures
            value_view(v) == self@.to_json(),
    {
        let mut obj = value_object();
        object_insert(&mut obj, "event", value_str(self.tag()));
        match self {
            MessageOut::GetSettings { context } => {
                object_insert(&mut obj, "context", value_str(context.as_str()));
            },
            MessageOut::SetSettings { context, payload } => {
                object_insert(&mut obj, "context", value_str(context.as_str()));
                object_insert(&mut obj, "payload", value_clone(payload));
            },
            MessageOut::OpenUrl { payload } => {
                object_insert(&mut obj, "payload", payload.to_value());
            },
            MessageOut::GetGlobalSettings { context } => {
                object_insert(&mut obj, "context", value_str(context.as_str()));
            },
            MessageOut::SetGlobalSettings { context, payload } => {
                object_insert(&mut obj, "context", value_str(context.as_str()));
                object_insert(&mut obj, "payload", value_clone(payload));
            },
            MessageOut::LogMessage { payload } => {
                object_insert(&mut obj, "payload", payload.to_value());
            },
            MessageOut::SendToPlugin { action, context, payload } => {
                object_insert(&mut obj, "action", value_str(action.as_str()));
                object_insert(&mut obj, "context", value_str(context.as_str()));
                object_insert(&mut obj, "payload", value_clone(payload));
            },
        }
        obj
    }

    /// Reads the value from the text of a frame: the text has to be JSON, and
    /// the document the wire form of a value.
    pub fn decode(text: &str) -> (r: Result<Self, BadMessage>)
        ensures
            match r {
                Ok(x) => json_parse(text@) matches Some(j) && MessageOutView::of_json(j) == Ok::<
                    MessageOutView,
                    DecodeError,
                >(x@),
                Err(BadMessage::Syntax(_)) => json_parse(text@) is None,
                Err(BadMessage::Field(e)) => json_parse(text@) matches Some(j) && MessageOutView::of_json(
                    j,
                ) == Err::<MessageOutView, DecodeError>(e),
                Err(BadMessage::Print(_)) => false,
            },
    {
        match parse_value(text) {
            Ok(v) => match Self::from_json(&v) {
                Ok(x) => Ok(x),
                Err(e) => Err(BadMessage::Field(e)),
            },
            Err(e) => Err(BadMessage::Syntax(e)),
        }
    }

    /// Writes the value as the text of one frame.
    pub fn encode(&self) -> (r: Result<String, BadMessage>)
        ensures
            match r {
                Ok(text) => json_text(self@.to_json()) == Some(text@),
                Err(BadMessage::Print(_)) => json_text(self@.to_json()) is None,
                Err(_) => false,
            },
    {
        match print_value(&self.to_value()) {
            Ok(text) => Ok(text),
            Err(e) => Err(BadMessage::Print(e)),
        }
    }
}

/// A document that lacks a member which its tag requires is an error: it is
/// read neither as that kind of value nor as any other.
pub proof fn lemma_message_out_missing_member(j: JsonValue, tag: Seq<char>, key: Seq<char>)
    requires
        j.get("event"@) == Some(JsonValue::Str(tag)),
        MessageOutView::requires_member(tag, key),
        j.get(key) is None,
    ensures
        MessageOutView::of_json(j) is Err,
{
    reveal_strlit("getSettings");
    assert("getSettings"@.len() == 11);
    reveal_strlit("setSettings");
    assert("setSettings"@.len() == 11);
    reveal_strlit("openUrl");
    assert("openUrl"@.len() == 7);
    reveal_strlit("getGlobalSettings");
    assert("getGlobalSettings"@.len() == 17);
    reveal_strlit("setGlobalSettings");
    assert("setGlobalSettings"@.len() == 17);
    reveal_strlit("logMessage");
    assert("logMessage"@.len() == 10);
    reveal_strlit("sendToPlugin");
    assert("sendToPlugin"@.len() == 12);
    assert("getSettings"@[0] != "setSettings"@[0]);
    assert("getGlobalSettings"@[0] != "setGlobalSettings"@[0]);
}

proof fn lemma_message_out_get_settings(x: MessageOutView)
    requires
        x is GetSettings,
    ensures
        MessageOutView::of_json(x.to_json()) == Ok::<MessageOutView, DecodeError>(x),
{
    broadcast use {lemma_get_with, lemma_get_empty};

    reveal_strlit("event");
    assert("event"@.len() == 5);
    reveal_strlit("context");
    assert("context"@.len() == 7);
    reveal_strlit("getSettings");
    assert("getSettings"@.len() == 11);
}

proof fn lemma_message_out_set_settings(x: MessageOutView)
    requires
        x is SetSettings,
    ensures
        MessageOutView::of_json(x.to_json()) == Ok::<MessageOutView, DecodeError>(x),
{
    broadcast use {lemma_get_with, lemma_get_empty};

    reveal_strlit("event");
    assert("event"@.len() == 5);
    reveal_strlit("context");
    assert("context"@.len() == 7);
    reveal_strlit("payload");
    assert("payload"@.len() == 7);
    reveal_strlit("setSettings");
    assert("setSettings"@.len() == 11);
    reveal_strlit("getSettings");
    assert("getSettings"@.len() == 11);
    assert("context"@[0] != "payload"@[0]);
    assert("setSettings"@[0] != "getSettings"@[0]);
}

proof fn lemma_message_out_open_url(x: MessageOutView)
    requires
        x is OpenUrl,
    ensures
        MessageOutView::of_json(x.to_json()) == Ok::<MessageOutView, DecodeError>(x),
{
    broadcast use {lemma_get_with, lemma_get_empty};

    reveal_strlit("event");
    assert("event"@.len() == 5);
    reveal_strlit("payload");
    assert("payload"@.len() == 7);
    reveal_strlit("openUrl");
    assert("openUrl"@.len() == 7);
    reveal_strlit("getSettings");
    assert("getSettings"@.len() == 11);
    reveal_strlit("setSettings");
    assert("setSettings"@.len() == 11);
    match x {
        MessageOutView::OpenUrl { payload } => {
            lemma_url_payload_round_trip(payload);
        },
        _ => {},
    }
}

proof fn lemma_message_out_get_global_settings(x: MessageOutView)
    requires
        x is GetGlobalSettings,
    ensures
        MessageOutView::of_json(x.to_json()) == Ok::<MessageOutView, DecodeError>(x),
{
    broadcast use {lemma_get_with, lemma_get_empty};

    reveal_strlit("event");
    assert("event"@.len() == 5);
    reveal_strlit("context");
    assert("context"@.len() == 7);
    reveal_strlit("getGlobalSettings");
    assert("getGlobalSettings"@.len() == 17);
    reveal_strlit("getSettings");
    assert("getSettings"@.len() == 11);
    reveal_strlit("setSettings");
    assert("setSettings"@.len() == 11);
    reveal_strlit("openUrl");
    assert("openUrl"@.len() == 7);
}

proof fn lemma_message_out_set_global_settings(x: MessageOutView)
    requires
        x is SetGlobalSettings,
    ensures
        MessageOutView::of_json(x.to_json()) == Ok::<MessageOutView, DecodeError>(x),
{
    broadcast use {lemma_get_with, lemma_get_empty};

    reveal_strlit("event");
    assert("event"@.len() == 5);
    reveal_strlit("context");
    assert("context"@.len() == 7);
    reveal_strlit("payload");
    assert("payload"@.len() == 7);
    reveal_strlit("setGlobalSettings");
    assert("setGlobalSettings"@.len() == 17);
    reveal_strlit("getSettings");
    assert("getSettings"@.len() == 11);
    reveal_strlit("setSettings");
    assert("setSettings"@.len() == 11);
    reveal_strlit("openUrl");
    assert("openUrl"@.len() == 7);
    reveal_strlit("getGlobalSettings");
    assert("getGlobalSettings"@.len() == 17);
    assert("context"@[0] != "payload"@[0]);
    assert("setGlobalSettings"@[0] != "getGlobalSettings"@[0]);
}

proof fn lemma_message_out_log_message(x: MessageOutView)
    requires
        x is LogMessage,
    ensures
        MessageOutView::of_json(x.to_json()) == Ok::<MessageOutView, DecodeError>(x),
{
    broadcast use {lemma_get_with, lemma_get_empty};

    reveal_strlit("event");
    assert("event"@.len() == 5);
    reveal_strlit("payload");
    assert("payload"@.len() == 7);
    reveal_strlit("logMessage");
    assert("logMessage"@.len() == 10);
    reveal_strlit("getSettings");
    assert("getSettings"@.len() == 11);
    reveal_strlit("setSettings");
    assert("setSettings"@.len() == 11);
    reveal_strlit("openUrl");
    assert("openUrl"@.len() == 7);
    reveal_strlit("getGlobalSettings");
    assert("getGlobalSettings"@.len() == 17);
    reveal_strlit("setGlobalSettings");
    assert("setGlobalSettings"@.len() == 17);
    match x {
        MessageOutView::LogMessage { payload } => {
            lemma_log_message_payload_round_trip(payload);
        },
        _ => {},
    }
}

proof fn lemma_message_out_send_to_plugin(x: MessageOutView)
    requires
        x is SendToPlugin,
    ensures
        MessageOutView::of_json(x.to_json()) == Ok::<MessageOutView, DecodeError>(x),
{
    broadcast use {lemma_get_with, lemma_get_empty};

    reveal_strlit("event");
    assert("event"@.len() == 5);
    reveal_strlit("action");
    assert("action"@.len() == 6);
    reveal_strlit("context");
    assert("context"@.len() == 7);
    reveal_strlit("payload");
    assert("payload"@.len() == 7);
    reveal_strlit("sendToPlugin");
    assert("sendToPlugin"@.len() == 12);
    reveal_strlit("getSettings");
    assert("getSettings"@.len() == 11);
    reveal_strlit("setSettings");
    assert("setSettings"@.len() == 11);
    reveal_strlit("openUrl");
    assert("openUrl"@.len() == 7);
    reveal_strlit("getGlobalSettings");
    assert("getGlobalSettings"@.len() == 17);
    reveal_strlit("setGlobalSettings");
    assert("setGlobalSettings"@.len() == 17);
    reveal_strlit("logMessage");
    assert("logMessage"@.len() == 10);
    assert("context"@[0] != "payload"@[0]);
}

/// A value is read back from its own document as it was.
pub proof fn lemma_message_out_round_trip(x: MessageOutView)
    ensures
        MessageOutView::of_json(x.to_json()) == Ok::<MessageOutView, DecodeError>(x),
{
    match x {
        MessageOutView::GetSettings { .. } => lemma_message_out_get_settings(x),
        MessageOutView::SetSettings { .. } => lemma_message_out_set_settings(x),
        MessageOutView::OpenUrl { .. } => lemma_message_out_open_url(x),
        MessageOutView::GetGlobalSettings { .. } => lemma_message_out_get_global_settings(x),
        MessageOutView::SetGlobalSettings { .. } => lemma_message_out_set_global_settings(x),
        MessageOutView::LogMessage { .. } => lemma_message_out_log_message(x),
        MessageOutView::SendToPlugin { .. } => lemma_message_out_send_to_plugin(x),
    }
}

} // verus!
