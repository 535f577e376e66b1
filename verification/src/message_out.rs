//! The commands that a plugin sends to the host software.

use crate::json::{
    any_field, decoded, field, json_parse, json_text, leaf, lemma_get_empty, lemma_get_with, member,
    node, object_insert, parse_value, print_value, text_field, value_clone, value_is_object,
    value_object, value_str, value_view, BadMessage, DecodeError, JsonValue,
};
use crate::payload::{
    lemma_image_payload_round_trip, lemma_log_message_payload_round_trip,
    lemma_profile_payload_round_trip, lemma_set_feedback_layout_payload_round_trip,
    lemma_set_trigger_description_payload_round_trip, lemma_state_payload_round_trip,
    lemma_title_payload_round_trip, lemma_url_payload_round_trip, ImagePayload, ImagePayloadView,
    LogMessagePayload, LogMessagePayloadView, ProfilePayload, ProfilePayloadView,
    SetFeedbackLayoutPayload, SetFeedbackLayoutPayloadView, SetTriggerDescriptionPayload,
    SetTriggerDescriptionPayloadView, StatePayload, TitlePayload, TitlePayloadView, UrlPayload,
    UrlPayloadView,
};
use serde_json::Value;
use vstd::prelude::*;

verus! {

/// A command for the host software. `G` is the type of the global settings, `S`
/// that of the settings of an action, `M` that of the messages for the property
/// inspector; the codec works on commands that hold them as JSON documents.
#[derive(Debug, PartialEq)]
pub enum MessageOut<G, S, M> {
    /// Set the title of an action instance.
    SetTitle {
        /// The instance of the action.
        context: String,
        /// The title to set.
        payload: TitlePayload,
    },
    /// Set the image of an action instance.
    SetImage {
        /// The instance of the action.
        context: String,
        /// The image to set.
        payload: ImagePayload,
    },
    /// Show an alert icon on the key for a moment.
    ShowAlert {
        /// The instance of the action.
        context: String,
    },
    /// Show a checkmark on the key for a moment.
    ShowOk {
        /// The instance of the action.
        context: String,
    },
    /// Ask for the settings of an action instance.
    GetSettings {
        /// The instance of the action.
        context: String,
    },
    /// Store the settings of an action instance.
    SetSettings {
        /// The instance of the action.
        context: String,
        /// The settings to store.
        payload: S,
    },
    /// Set the state of an action instance.
    SetState {
        /// The instance of the action.
        context: String,
        /// The state to set.
        payload: StatePayload,
    },
    /// Send data to the property inspector.
    SendToPropertyInspector {
        /// The uuid of the action.
        action: String,
        /// The instance of the action.
        context: String,
        /// The message to send.
        payload: M,
    },
    /// Select another profile.
    SwitchToProfile {
        /// The instance of the action.
        context: String,
        /// The device whose profile changes.
        device: String,
        /// The profile to activate.
        payload: ProfilePayload,
    },
    /// Open a URL in the default browser.
    OpenUrl {
        /// The URL to open.
        payload: UrlPayload,
    },
    /// Ask for the settings of the plugin.
    GetGlobalSettings {
        /// The instance of the action.
        context: String,
    },
    /// Store the settings of the plugin.
    SetGlobalSettings {
        /// The instance of the action.
        context: String,
        /// The settings to store.
        payload: G,
    },
    /// Write a line to the log.
    LogMessage {
        /// The line to write.
        payload: LogMessagePayload,
    },
    /// Set what the touch display shows.
    SetFeedback {
        /// The instance of the action.
        context: String,
        /// The data for the display.
        payload: Value,
    },
    /// Set the layout of the touch display.
    SetFeedbackLayout {
        /// The instance of the action.
        context: String,
        /// The layout to show.
        payload: SetFeedbackLayoutPayload,
    },
    /// Describe the interactions with a dial.
    SetTriggerDescription {
        /// The instance of the action.
        context: String,
        /// The descriptions.
        payload: SetTriggerDescriptionPayload,
    },
}

/// The mathematical value of a [`MessageOut`].
pub enum MessageOutView {
    SetTitle {
        context: Seq<char>,
        payload: TitlePayloadView,
    },
    SetImage {
        context: Seq<char>,
        payload: ImagePayloadView,
    },
    ShowAlert {
        context: Seq<char>,
    },
    ShowOk {
        context: Seq<char>,
    },
    GetSettings {
        context: Seq<char>,
    },
    SetSettings {
        context: Seq<char>,
        payload: JsonValue,
    },
    SetState {
        context: Seq<char>,
        payload: StatePayload,
    },
    SendToPropertyInspector {
        action: Seq<char>,
        context: Seq<char>,
        payload: JsonValue,
    },
    SwitchToProfile {
        context: Seq<char>,
        device: Seq<char>,
        payload: ProfilePayloadView,
    },
    OpenUrl {
        payload: UrlPayloadView,
    },
    GetGlobalSettings {
        context: Seq<char>,
    },
    SetGlobalSettings {
        context: Seq<char>,
        payload: JsonValue,
    },
    LogMessage {
        payload: LogMessagePayloadView,
    },
    SetFeedback {
        context: Seq<char>,
        payload: JsonValue,
    },
    SetFeedbackLayout {
        context: Seq<char>,
        payload: SetFeedbackLayoutPayloadView,
    },
    SetTriggerDescription {
        context: Seq<char>,
        payload: SetTriggerDescriptionPayloadView,
    },
}

impl View for MessageOut<Value, Value, Value> {
    type V = MessageOutView;

    open spec fn view(&self) -> MessageOutView {
        match *self {
            MessageOut::SetTitle { context, payload } => MessageOutView::SetTitle {
                context: context@,
                payload: payload@,
            },
            MessageOut::SetImage { context, payload } => MessageOutView::SetImage {
                context: context@,
                payload: payload@,
            },
            MessageOut::ShowAlert { context } => MessageOutView::ShowAlert {
                context: context@,
            },
            MessageOut::ShowOk { context } => MessageOutView::ShowOk {
                context: context@,
            },
            MessageOut::GetSettings { context } => MessageOutView::GetSettings {
                context: context@,
            },
            MessageOut::SetSettings { context, payload } => MessageOutView::SetSettings {
                context: context@,
                payload: value_view(payload),
            },
            MessageOut::SetState { context, payload } => MessageOutView::SetState {
                context: context@,
                payload: payload,
            },
            MessageOut::SendToPropertyInspector {
                action,
                context,
                payload,
            } => MessageOutView::SendToPropertyInspector {
                action: action@,
                context: context@,
                payload: value_view(payload),
            },
            MessageOut::SwitchToProfile {
                context,
                device,
                payload,
            } => MessageOutView::SwitchToProfile {
                context: context@,
                device: device@,
                payload: payload@,
            },
            MessageOut::OpenUrl { payload } => MessageOutView::OpenUrl {
                payload: payload@,
            },
            MessageOut::GetGlobalSettings { context } => MessageOutView::GetGlobalSettings {
                context: context@,
            },
            MessageOut::SetGlobalSettings {
                context,
                payload,
            } => MessageOutView::SetGlobalSettings {
                context: context@,
                payload: value_view(payload),
            },
            MessageOut::LogMessage { payload } => MessageOutView::LogMessage {
                payload: payload@,
            },
            MessageOut::SetFeedback { context, payload } => MessageOutView::SetFeedback {
                context: context@,
                payload: value_view(payload),
            },
            MessageOut::SetFeedbackLayout {
                context,
                payload,
            } => MessageOutView::SetFeedbackLayout {
                context: context@,
                payload: payload@,
            },
            MessageOut::SetTriggerDescription {
                context,
                payload,
            } => MessageOutView::SetTriggerDescription {
                context: context@,
                payload: payload@,
            },
        }
    }
}

impl MessageOutView {
    /// Whether `tag` names one of the kinds that this catalogue knows.
    pub open spec fn recognized(tag: Seq<char>) -> bool {
        tag == "setTitle"@
            || tag == "setImage"@
            || tag == "showAlert"@
            || tag == "showOk"@
            || tag == "getSettings"@
            || tag == "setSettings"@
            || tag == "setState"@
            || tag == "sendToPropertyInspector"@
            || tag == "switchToProfile"@
            || tag == "openUrl"@
            || tag == "getGlobalSettings"@
            || tag == "setGlobalSettings"@
            || tag == "logMessage"@
            || tag == "setFeedback"@
            || tag == "setFeedbackLayout"@
            || tag == "setTriggerDescription"@
    }

    /// What a document tagged `setTitle` denotes.
    pub open spec fn set_title_of_json(j: JsonValue) -> Result<MessageOutView, DecodeError> {
        let context = leaf(j, "context", |m: JsonValue| m.as_text());
        let payload = node(j, "payload", |m: JsonValue| TitlePayloadView::of_json(m));
        if context is Err {
            Err(context->Err_0)
        } else if payload is Err {
            Err(payload->Err_0)
        } else {
            Ok(MessageOutView::SetTitle { context: context->Ok_0, payload: payload->Ok_0 })
        }
    }

    /// What a document tagged `setImage` denotes.
    pub open spec fn set_image_of_json(j: JsonValue) -> Result<MessageOutView, DecodeError> {
        let context = leaf(j, "context", |m: JsonValue| m.as_text());
        let payload = node(j, "payload", |m: JsonValue| ImagePayloadView::of_json(m));
        if context is Err {
            Err(context->Err_0)
        } else if payload is Err {
            Err(payload->Err_0)
        } else {
            Ok(MessageOutView::SetImage { context: context->Ok_0, payload: payload->Ok_0 })
        }
    }

    /// What a document tagged `showAlert` denotes.
    pub open spec fn show_alert_of_json(j: JsonValue) -> Result<MessageOutView, DecodeError> {
        let context = leaf(j, "context", |m: JsonValue| m.as_text());
        if context is Err {
            Err(context->Err_0)
        } else {
            Ok(MessageOutView::ShowAlert { context: context->Ok_0 })
        }
    }

    /// What a document tagged `showOk` denotes.
    pub open spec fn show_ok_of_json(j: JsonValue) -> Result<MessageOutView, DecodeError> {
        let context = leaf(j, "context", |m: JsonValue| m.as_text());
        if context is Err {
            Err(context->Err_0)
        } else {
            Ok(MessageOutView::ShowOk { context: context->Ok_0 })
        }
    }

    /// What a document tagged `getSettings` denotes.
    pub open spec fn get_settings_of_json(j: JsonValue) -> Result<MessageOutView, DecodeError> {
        let context = leaf(j, "context", |m: JsonValue| m.as_text());
        if context is Err {
            Err(context->Err_0)
        } else {
            Ok(MessageOutView::GetSettings { context: context->Ok_0 })
        }
    }

    /// What a document tagged `setSettings` denotes.
    pub open spec fn set_settings_of_json(j: JsonValue) -> Result<MessageOutView, DecodeError> {
        let context = leaf(j, "context", |m: JsonValue| m.as_text());
        let payload = field(j, "payload");
        if context is Err {
            Err(context->Err_0)
        } else if payload is Err {
            Err(payload->Err_0)
        } else {
            Ok(MessageOutView::SetSettings { context: context->Ok_0, payload: payload->Ok_0 })
        }
    }

    /// What a document tagged `setState` denotes.
    pub open spec fn set_state_of_json(j: JsonValue) -> Result<MessageOutView, DecodeError> {
        let context = leaf(j, "context", |m: JsonValue| m.as_text());
        let payload = node(j, "payload", |m: JsonValue| StatePayload::of_json(m));
        if context is Err {
            Err(context->Err_0)
        } else if payload is Err {
            Err(payload->Err_0)
        } else {
            Ok(MessageOutView::SetState { context: context->Ok_0, payload: payload->Ok_0 })
        }
    }

    /// What a document tagged `sendToPropertyInspector` denotes.
    pub open spec fn send_to_property_inspector_of_json(j: JsonValue) -> Result<
        MessageOutView,
        DecodeError,
    > {
        let action = leaf(j, "action", |m: JsonValue| m.as_text());
        let context = leaf(j, "context", |m: JsonValue| m.as_text());
        let payload = field(j, "payload");
        if action is Err {
            Err(action->Err_0)
        } else if context is Err {
            Err(context->Err_0)
        } else if payload is Err {
            Err(payload->Err_0)
        } else {
            Ok(
                MessageOutView::SendToPropertyInspector {
                    action: action->Ok_0,
                    context: context->Ok_0,
                    payload: payload->Ok_0,
                },
            )
        }
    }

    /// What a document tagged `switchToProfile` denotes.
    pub open spec fn switch_to_profile_of_json(j: JsonValue) -> Result<
        MessageOutView,
        DecodeError,
    > {
        let context = leaf(j, "context", |m: JsonValue| m.as_text());
        let device = leaf(j, "device", |m: JsonValue| m.as_text());
        let payload = node(j, "payload", |m: JsonValue| ProfilePayloadView::of_json(m));
        if context is Err {
            Err(context->Err_0)
        } else if device is Err {
            Err(device->Err_0)
        } else if payload is Err {
            Err(payload->Err_0)
        } else {
            Ok(
                MessageOutView::SwitchToProfile {
                    context: context->Ok_0,
                    device: device->Ok_0,
                    payload: payload->Ok_0,
                },
            )
        }
    }

    /// What a document tagged `openUrl` denotes.
    pub open spec fn open_url_of_json(j: JsonValue) -> Result<MessageOutView, DecodeError> {
        let payload = node(j, "payload", |m: JsonValue| UrlPayloadView::of_json(m));
        if payload is Err {
            Err(payload->Err_0)
        } else {
            Ok(MessageOutView::OpenUrl { payload: payload->Ok_0 })
        }
    }

    /// What a document tagged `getGlobalSettings` denotes.
    pub open spec fn get_global_settings_of_json(j: JsonValue) -> Result<
        MessageOutView,
        DecodeError,
    > {
        let context = leaf(j, "context", |m: JsonValue| m.as_text());
        if context is Err {
            Err(context->Err_0)
        } else {
            Ok(MessageOutView::GetGlobalSettings { context: context->Ok_0 })
        }
    }

    /// What a document tagged `setGlobalSettings` denotes.
    pub open spec fn set_global_settings_of_json(j: JsonValue) -> Result<
        MessageOutView,
        DecodeError,
    > {
        let context = leaf(j, "context", |m: JsonValue| m.as_text());
        let payload = field(j, "payload");
        if context is Err {
            Err(context->Err_0)
        } else if payload is Err {
            Err(payload->Err_0)
        } else {
            Ok(MessageOutView::SetGlobalSettings { context: context->Ok_0, payload: payload->Ok_0 })
        }
    }

    /// What a document tagged `logMessage` denotes.
    pub open spec fn log_message_of_json(j: JsonValue) -> Result<MessageOutView, DecodeError> {
        let payload = node(j, "payload", |m: JsonValue| LogMessagePayloadView::of_json(m));
        if payload is Err {
            Err(payload->Err_0)
        } else {
            Ok(MessageOutView::LogMessage { payload: payload->Ok_0 })
        }
    }

    /// What a document tagged `setFeedback` denotes.
    pub open spec fn set_feedback_of_json(j: JsonValue) -> Result<MessageOutView, DecodeError> {
        let context = leaf(j, "context", |m: JsonValue| m.as_text());
        let payload = field(j, "payload");
        if context is Err {
            Err(context->Err_0)
        } else if payload is Err {
            Err(payload->Err_0)
        } else {
            Ok(MessageOutView::SetFeedback { context: context->Ok_0, payload: payload->Ok_0 })
        }
    }

    /// What a document tagged `setFeedbackLayout` denotes.
    pub open spec fn set_feedback_layout_of_json(j: JsonValue) -> Result<
        MessageOutView,
        DecodeError,
    > {
        let context = leaf(j, "context", |m: JsonValue| m.as_text());
        let payload = node(j, "payload", |m: JsonValue| SetFeedbackLayoutPayloadView::of_json(m));
        if context is Err {
            Err(context->Err_0)
        } else if payload is Err {
            Err(payload->Err_0)
        } else {
            Ok(MessageOutView::SetFeedbackLayout { context: context->Ok_0, payload: payload->Ok_0 })
        }
    }

    /// What a document tagged `setTriggerDescription` denotes.
    pub open spec fn set_trigger_description_of_json(j: JsonValue) -> Result<
        MessageOutView,
        DecodeError,
    > {
        let context = leaf(j, "context", |m: JsonValue| m.as_text());
        let payload = node(
            j,
            "payload",
            |m: JsonValue| SetTriggerDescriptionPayloadView::of_json(m),
        );
        if context is Err {
            Err(context->Err_0)
        } else if payload is Err {
            Err(payload->Err_0)
        } else {
            Ok(
                MessageOutView::SetTriggerDescription {
                    context: context->Ok_0,
                    payload: payload->Ok_0,
                },
            )
        }
    }

    /// The value that a JSON document denotes. The document has to be an object
    /// whose member `event` is a string, the tag; a recognized tag decides how
    /// the other members are read, and an unrecognized tag is an invalid
    /// `event`.
    pub open spec fn of_json(j: JsonValue) -> Result<MessageOutView, DecodeError> {
        let tag = leaf(j, "event", |m: JsonValue| m.as_text());
        if !(j is Object) {
            Err(DecodeError::NotAnObject)
        } else if tag is Err {
            Err(tag->Err_0)
        } else if tag->Ok_0 == "setTitle"@ {
            Self::set_title_of_json(j)
        } else if tag->Ok_0 == "setImage"@ {
            Self::set_image_of_json(j)
        } else if tag->Ok_0 == "showAlert"@ {
            Self::show_alert_of_json(j)
        } else if tag->Ok_0 == "showOk"@ {
            Self::show_ok_of_json(j)
        } else if tag->Ok_0 == "getSettings"@ {
            Self::get_settings_of_json(j)
        } else if tag->Ok_0 == "setSettings"@ {
            Self::set_settings_of_json(j)
        } else if tag->Ok_0 == "setState"@ {
            Self::set_state_of_json(j)
        } else if tag->Ok_0 == "sendToPropertyInspector"@ {
            Self::send_to_property_inspector_of_json(j)
        } else if tag->Ok_0 == "switchToProfile"@ {
            Self::switch_to_profile_of_json(j)
        } else if tag->Ok_0 == "openUrl"@ {
            Self::open_url_of_json(j)
        } else if tag->Ok_0 == "getGlobalSettings"@ {
            Self::get_global_settings_of_json(j)
        } else if tag->Ok_0 == "setGlobalSettings"@ {
            Self::set_global_settings_of_json(j)
        } else if tag->Ok_0 == "logMessage"@ {
            Self::log_message_of_json(j)
        } else if tag->Ok_0 == "setFeedback"@ {
            Self::set_feedback_of_json(j)
        } else if tag->Ok_0 == "setFeedbackLayout"@ {
            Self::set_feedback_layout_of_json(j)
        } else if tag->Ok_0 == "setTriggerDescription"@ {
            Self::set_trigger_description_of_json(j)
        } else {
            Err(DecodeError::Invalid("event"))
        }
    }

    /// Whether a document with this tag has to have this member.
    pub open spec fn requires_member(tag: Seq<char>, key: Seq<char>) -> bool {
        ||| tag == "setTitle"@ && (key == "context"@ || key == "payload"@)
        ||| tag == "setImage"@ && (key == "context"@ || key == "payload"@)
        ||| tag == "showAlert"@ && key == "context"@
        ||| tag == "showOk"@ && key == "context"@
        ||| tag == "getSettings"@ && key == "context"@
        ||| tag == "setSettings"@ && (key == "context"@ || key == "payload"@)
        ||| tag == "setState"@ && (key == "context"@ || key == "payload"@)
        ||| tag == "sendToPropertyInspector"@ && (key == "action"@
            || key == "context"@
            || key == "payload"@)
        ||| tag == "switchToProfile"@ && (key == "context"@
            || key == "device"@
            || key == "payload"@)
        ||| tag == "openUrl"@ && key == "payload"@
        ||| tag == "getGlobalSettings"@ && key == "context"@
        ||| tag == "setGlobalSettings"@ && (key == "context"@ || key == "payload"@)
        ||| tag == "logMessage"@ && key == "payload"@
        ||| tag == "setFeedback"@ && (key == "context"@ || key == "payload"@)
        ||| tag == "setFeedbackLayout"@ && (key == "context"@ || key == "payload"@)
        ||| tag == "setTriggerDescription"@ && (key == "context"@ || key == "payload"@)
    }

    /// The tag under which the value travels.
    pub open spec fn tag(self) -> Seq<char> {
        match self {
            MessageOutView::SetTitle { .. } => "setTitle"@,
            MessageOutView::SetImage { .. } => "setImage"@,
            MessageOutView::ShowAlert { .. } => "showAlert"@,
            MessageOutView::ShowOk { .. } => "showOk"@,
            MessageOutView::GetSettings { .. } => "getSettings"@,
            MessageOutView::SetSettings { .. } => "setSettings"@,
            MessageOutView::SetState { .. } => "setState"@,
            MessageOutView::SendToPropertyInspector { .. } => "sendToPropertyInspector"@,
            MessageOutView::SwitchToProfile { .. } => "switchToProfile"@,
            MessageOutView::OpenUrl { .. } => "openUrl"@,
            MessageOutView::GetGlobalSettings { .. } => "getGlobalSettings"@,
            MessageOutView::SetGlobalSettings { .. } => "setGlobalSettings"@,
            MessageOutView::LogMessage { .. } => "logMessage"@,
            MessageOutView::SetFeedback { .. } => "setFeedback"@,
            MessageOutView::SetFeedbackLayout { .. } => "setFeedbackLayout"@,
            MessageOutView::SetTriggerDescription { .. } => "setTriggerDescription"@,
        }
    }

    /// The JSON document of the value: the tag under `event`, then the fields.
    pub open spec fn to_json(self) -> JsonValue {
        let j = JsonValue::object().with("event"@, JsonValue::Str(self.tag()));
        match self {
            MessageOutView::SetTitle { context, payload } => {
                let j = j.with("context"@, JsonValue::Str(context));
                let j = j.with("payload"@, payload.to_json());
                j
            },
            MessageOutView::SetImage { context, payload } => {
                let j = j.with("context"@, JsonValue::Str(context));
                let j = j.with("payload"@, payload.to_json());
                j
            },
            MessageOutView::ShowAlert { context } => {
                let j = j.with("context"@, JsonValue::Str(context));
                j
            },
            MessageOutView::ShowOk { context } => {
                let j = j.with("context"@, JsonValue::Str(context));
                j
            },
            MessageOutView::GetSettings { context } => {
                let j = j.with("context"@, JsonValue::Str(context));
                j
            },
            MessageOutView::SetSettings { context, payload } => {
                let j = j.with("context"@, JsonValue::Str(context));
                let j = j.with("payload"@, payload);
                j
            },
            MessageOutView::SetState { context, payload } => {
                let j = j.with("context"@, JsonValue::Str(context));
                let j = j.with("payload"@, payload.to_json());
                j
            },
            MessageOutView::SendToPropertyInspector { action, context, payload } => {
                let j = j.with("action"@, JsonValue::Str(action));
                let j = j.with("context"@, JsonValue::Str(context));
                let j = j.with("payload"@, payload);
                j
            },
            MessageOutView::SwitchToProfile { context, device, payload } => {
                let j = j.with("context"@, JsonValue::Str(context));
                let j = j.with("device"@, JsonValue::Str(device));
                let j = j.with("payload"@, payload.to_json());
                j
            },
            MessageOutView::OpenUrl { payload } => {
                let j = j.with("payload"@, payload.to_json());
                j
            },
            MessageOutView::GetGlobalSettings { context } => {
                let j = j.with("context"@, JsonValue::Str(context));
                j
            },
            MessageOutView::SetGlobalSettings { context, payload } => {
                let j = j.with("context"@, JsonValue::Str(context));
                let j = j.with("payload"@, payload);
                j
            },
            MessageOutView::LogMessage { payload } => {
                let j = j.with("payload"@, payload.to_json());
                j
            },
            MessageOutView::SetFeedback { context, payload } => {
                let j = j.with("context"@, JsonValue::Str(context));
                let j = j.with("payload"@, payload);
                j
            },
            MessageOutView::SetFeedbackLayout { context, payload } => {
                let j = j.with("context"@, JsonValue::Str(context));
                let j = j.with("payload"@, payload.to_json());
                j
            },
            MessageOutView::SetTriggerDescription { context, payload } => {
                let j = j.with("context"@, JsonValue::Str(context));
                let j = j.with("payload"@, payload.to_json());
                j
            },
        }
    }
}

impl MessageOut<Value, Value, Value> {
    fn set_title_from_json(v: &Value) -> (r: Result<Self, DecodeError>)
        ensures
            decoded(r) == MessageOutView::set_title_of_json(value_view(*v)),
    {
        let context = text_field(v, "context")?;
        let payload = TitlePayload::from_json(member(v, "payload")?)?;
        Ok(MessageOut::SetTitle { context, payload })
    }

    fn set_image_from_json(v: &Value) -> (r: Result<Self, DecodeError>)
        ensures
            decoded(r) == MessageOutView::set_image_of_json(value_view(*v)),
    {
        let context = text_field(v, "context")?;
        let payload = ImagePayload::from_json(member(v, "payload")?)?;
        Ok(MessageOut::SetImage { context, payload })
    }

    fn show_alert_from_json(v: &Value) -> (r: Result<Self, DecodeError>)
        ensures
            decoded(r) == MessageOutView::show_alert_of_json(value_view(*v)),
    {
        let context = text_field(v, "context")?;
        Ok(MessageOut::ShowAlert { context })
    }

    fn show_ok_from_json(v: &Value) -> (r: Result<Self, DecodeError>)
        ensures
            decoded(r) == MessageOutView::show_ok_of_json(value_view(*v)),
    {
        let context = text_field(v, "context")?;
        Ok(MessageOut::ShowOk { context })
    }

    fn get_settings_from_json(v: &Value) -> (r: Result<Self, DecodeError>)
        ensures
            decoded(r) == MessageOutView::get_settings_of_json(value_view(*v)),
    {
        let context = text_field(v, "context")?;
        Ok(MessageOut::GetSettings { context })
    }

    fn set_settings_from_json(v: &Value) -> (r: Result<Self, DecodeError>)
        ensures
            decoded(r) == MessageOutView::set_settings_of_json(value_view(*v)),
    {
        let context = text_field(v, "context")?;
        let payload = any_field(v, "payload")?;
        Ok(MessageOut::SetSettings { context, payload })
    }

    fn set_state_from_json(v: &Value) -> (r: Result<Self, DecodeError>)
        ensures
            decoded(r) == MessageOutView::set_state_of_json(value_view(*v)),
    {
        let context = text_field(v, "context")?;
        let payload = StatePayload::from_json(member(v, "payload")?)?;
        Ok(MessageOut::SetState { context, payload })
    }

    fn send_to_property_inspector_from_json(v: &Value) -> (r: Result<Self, DecodeError>)
        ensures
            decoded(r) == MessageOutView::send_to_property_inspector_of_json(value_view(*v)),
    {
        let action = text_field(v, "action")?;
        let context = text_field(v, "context")?;
        let payload = any_field(v, "payload")?;
        Ok(MessageOut::SendToPropertyInspector { action, context, payload })
    }

    fn switch_to_profile_from_json(v: &Value) -> (r: Result<Self, DecodeError>)
        ensures
            decoded(r) == MessageOutView::switch_to_profile_of_json(value_view(*v)),
    {
        let context = text_field(v, "context")?;
        let device = text_field(v, "device")?;
        let payload = ProfilePayload::from_json(member(v, "payload")?)?;
        Ok(MessageOut::SwitchToProfile { context, device, payload })
    }

    fn open_url_from_json(v: &Value) -> (r: Result<Self, DecodeError>)
        ensures
            decoded(r) == MessageOutView::open_url_of_json(value_view(*v)),
    {
        let payload = UrlPayload::from_json(member(v, "payload")?)?;
        Ok(MessageOut::OpenUrl { payload })
    }

    fn get_global_settings_from_json(v: &Value) -> (r: Result<Self, DecodeError>)
        ensures
            decoded(r) == MessageOutView::get_global_settings_of_json(value_view(*v)),
    {
        let context = text_field(v, "context")?;
        Ok(MessageOut::GetGlobalSettings { context })
    }

    fn set_global_settings_from_json(v: &Value) -> (r: Result<Self, DecodeError>)
        ensures
            decoded(r) == MessageOutView::set_global_settings_of_json(value_view(*v)),
    {
        let context = text_field(v, "context")?;
        let payload = any_field(v, "payload")?;
        Ok(MessageOut::SetGlobalSettings { context, payload })
    }

    fn log_message_from_json(v: &Value) -> (r: Result<Self, DecodeError>)
        ensures
            decoded(r) == MessageOutView::log_message_of_json(value_view(*v)),
    {
        let payload = LogMessagePayload::from_json(member(v, "payload")?)?;
        Ok(MessageOut::LogMessage { payload })
    }

    fn set_feedback_from_json(v: &Value) -> (r: Result<Self, DecodeError>)
        ensures
            decoded(r) == MessageOutView::set_feedback_of_json(value_view(*v)),
    {
        let context = text_field(v, "context")?;
        let payload = any_field(v, "payload")?;
        Ok(MessageOut::SetFeedback { context, payload })
    }

    fn set_feedback_layout_from_json(v: &Value) -> (r: Result<Self, DecodeError>)
        ensures
            decoded(r) == MessageOutView::set_feedback_layout_of_json(value_view(*v)),
    {
        let context = text_field(v, "context")?;
        let payload = SetFeedbackLayoutPayload::from_json(member(v, "payload")?)?;
        Ok(MessageOut::SetFeedbackLayout { context, payload })
    }

    fn set_trigger_description_from_json(v: &Value) -> (r: Result<Self, DecodeError>)
        ensures
            decoded(r) == MessageOutView::set_trigger_description_of_json(value_view(*v)),
    {
        let context = text_field(v, "context")?;
        let payload = SetTriggerDescriptionPayload::from_json(member(v, "payload")?)?;
        Ok(MessageOut::SetTriggerDescription { context, payload })
    }

    /// Reads the value from a JSON document.
    pub fn from_json(v: &Value) -> (r: Result<Self, DecodeError>)
        ensures
            decoded(r) == MessageOutView::of_json(value_view(*v)),
    {
        if !value_is_object(v) {
            return Err(DecodeError::NotAnObject);
        }
        let tag = text_field(v, "event")?;
        let tag = tag.as_str();
        if tag.eq("setTitle") {
            Self::set_title_from_json(v)
        } else if tag.eq("setImage") {
            Self::set_image_from_json(v)
        } else if tag.eq("showAlert") {
            Self::show_alert_from_json(v)
        } else if tag.eq("showOk") {
            Self::show_ok_from_json(v)
        } else if tag.eq("getSettings") {
            Self::get_settings_from_json(v)
        } else if tag.eq("setSettings") {
            Self::set_settings_from_json(v)
        } else if tag.eq("setState") {
            Self::set_state_from_json(v)
        } else if tag.eq("sendToPropertyInspector") {
            Self::send_to_property_inspector_from_json(v)
        } else if tag.eq("switchToProfile") {
            Self::switch_to_profile_from_json(v)
        } else if tag.eq("openUrl") {
            Self::open_url_from_json(v)
        } else if tag.eq("getGlobalSettings") {
            Self::get_global_settings_from_json(v)
        } else if tag.eq("setGlobalSettings") {
            Self::set_global_settings_from_json(v)
        } else if tag.eq("logMessage") {
            Self::log_message_from_json(v)
        } else if tag.eq("setFeedback") {
            Self::set_feedback_from_json(v)
        } else if tag.eq("setFeedbackLayout") {
            Self::set_feedback_layout_from_json(v)
        } else if tag.eq("setTriggerDescription") {
            Self::set_trigger_description_from_json(v)
        } else {
            Err(DecodeError::Invalid("event"))
        }
    }

    /// The tag under which the value travels.
    pub fn tag(&self) -> (s: &'static str)
        ensures
            s@ == self@.tag(),
    {
        match self {
            MessageOut::SetTitle { .. } => "setTitle",
            MessageOut::SetImage { .. } => "setImage",
            MessageOut::ShowAlert { .. } => "showAlert",
            MessageOut::ShowOk { .. } => "showOk",
            MessageOut::GetSettings { .. } => "getSettings",
            MessageOut::SetSettings { .. } => "setSettings",
            MessageOut::SetState { .. } => "setState",
            MessageOut::SendToPropertyInspector { .. } => "sendToPropertyInspector",
            MessageOut::SwitchToProfile { .. } => "switchToProfile",
            MessageOut::OpenUrl { .. } => "openUrl",
            MessageOut::GetGlobalSettings { .. } => "getGlobalSettings",
            MessageOut::SetGlobalSettings { .. } => "setGlobalSettings",
            MessageOut::LogMessage { .. } => "logMessage",
            MessageOut::SetFeedback { .. } => "setFeedback",
            MessageOut::SetFeedbackLayout { .. } => "setFeedbackLayout",
            MessageOut::SetTriggerDescription { .. } => "setTriggerDescription",
        }
    }

    /// Writes the value as a JSON document.
    pub fn to_value(&self) -> (v: Value)
        ensures
            value_view(v) == self@.to_json(),
    {
        let mut obj = value_object();
        object_insert(&mut obj, "event", value_str(self.tag()));
        match self {
            MessageOut::SetTitle { context, payload } => {
                object_insert(&mut obj, "context", value_str(context.as_str()));
                object_insert(&mut obj, "payload", payload.to_value());
            },
            MessageOut::SetImage { context, payload } => {
                object_insert(&mut obj, "context", value_str(context.as_str()));
                object_insert(&mut obj, "payload", payload.to_value());
            },
            MessageOut::ShowAlert { context } => {
                object_insert(&mut obj, "context", value_str(context.as_str()));
            },
            MessageOut::ShowOk { context } => {
                object_insert(&mut obj, "context", value_str(context.as_str()));
            },
            MessageOut::GetSettings { context } => {
                object_insert(&mut obj, "context", value_str(context.as_str()));
            },
            MessageOut::SetSettings { context, payload } => {
                object_insert(&mut obj, "context", value_str(context.as_str()));
                object_insert(&mut obj, "payload", value_clone(payload));
            },
            MessageOut::SetState { context, payload } => {
                object_insert(&mut obj, "context", value_str(context.as_str()));
                object_insert(&mut obj, "payload", payload.to_value());
            },
            MessageOut::SendToPropertyInspector { action, context, payload } => {
                object_insert(&mut obj, "action", value_str(action.as_str()));
                object_insert(&mut obj, "context", value_str(context.as_str()));
                object_insert(&mut obj, "payload", value_clone(payload));
            },
            MessageOut::SwitchToProfile { context, device, payload } => {
                object_insert(&mut obj, "context", value_str(context.as_str()));
                object_insert(&mut obj, "device", value_str(device.as_str()));
                object_insert(&mut obj, "payload", payload.to_value());
            },
            MessageOut::OpenUrl { payload } => {
                object_insert(&mut obj, "payload", payload.to_value());
            },
            MessageOut::GetGlobalSettings { context } => {
                object_insert(&mut obj, "context", value_str(context.as_str()));
            },
            MessageOut::SetGlobalSettings { context, payload } => {
                object_insert(&mut obj, "context", value_str(context.as_str()));
                object_insert(&mut obj, "payload", value_clone(payload));
            },
            MessageOut::LogMessage { payload } => {
                object_insert(&mut obj, "payload", payload.to_value());
            },
            MessageOut::SetFeedback { context, payload } => {
                object_insert(&mut obj, "context", value_str(context.as_str()));
                object_insert(&mut obj, "payload", value_clone(payload));
            },
            MessageOut::SetFeedbackLayout { context, payload } => {
                object_insert(&mut obj, "context", value_str(context.as_str()));
                object_insert(&mut obj, "payload", payload.to_value());
            },
            MessageOut::SetTriggerDescription { context, payload } => {
                object_insert(&mut obj, "context", value_str(context.as_str()));
                object_insert(&mut obj, "payload", payload.to_value());
            },
        }
        obj
    }

    /// Reads the value from the text of a frame: the text has to be JSON, and
    /// the document the wire form of a value.
    pub fn decode(text: &str) -> (r: Result<Self, BadMessage>)
        ensures
            match r {
                Ok(x) => json_parse(text@) matches Some(j) && MessageOutView::of_json(j) == Ok::<
                    MessageOutView,
                    DecodeError,
                >(x@),
                Err(BadMessage::Syntax(_)) => json_parse(text@) is None,
                Err(BadMessage::Field(e)) => json_parse(text@) matches Some(j) && MessageOutView::of_json(
                    j,
                ) == Err::<MessageOutView, DecodeError>(e),
                Err(BadMessage::Print(_)) => false,
            },
    {
        match parse_value(text) {
            Ok(v) => match Self::from_json(&v) {
                Ok(x) => Ok(x),
                Err(e) => Err(BadMessage::Field(e)),
            },
            Err(e) => Err(BadMessage::Syntax(e)),
        }
    }

    /// Writes the value as the text of one frame.
    pub fn encode(&self) -> (r: Result<String, BadMessage>)
        ensures
            match r {
                Ok(text) => json_text(self@.to_json()) == Some(text@),
                Err(BadMessage::Print(_)) => json_text(self@.to_json()) is None,
                Err(_) => false,
            },
    {
        match print_value(&self.to_value()) {
            Ok(text) => Ok(text),
            Err(e) => Err(BadMessage::Print(e)),
        }
    }
}

/// A document that lacks a member which its tag requires is an error: it is
/// read neither as that kind of value nor as any other.
pub proof fn lemma_message_out_missing_member(j: JsonValue, tag: Seq<char>, key: Seq<char>)
    requires
        j.get("event"@) == Some(JsonValue::Str(tag)),
        MessageOutView::requires_member(tag, key),
        j.get(key) is None,
    ensures
        MessageOutView::of_json(j) is Err,
{
    reveal_strlit("setTitle");
    assert("setTitle"@.len() == 8);
    reveal_strlit("setImage");
    assert("setImage"@.len() == 8);
    reveal_strlit("showAlert");
    assert("showAlert"@.len() == 9);
    reveal_strlit("showOk");
    assert("showOk"@.len() == 6);
    reveal_strlit("getSettings");
    assert("getSettings"@.len() == 11);
    reveal_strlit("setSettings");
    assert("setSettings"@.len() == 11);
    reveal_strlit("setState");
    assert("setState"@.len() == 8);
    reveal_strlit("sendToPropertyInspector");
    assert("sendToPropertyInspector"@.len() == 23);
    reveal_strlit("switchToProfile");
    assert("switchToProfile"@.len() == 15);
    reveal_strlit("openUrl");
    assert("openUrl"@.len() == 7);
    reveal_strlit("getGlobalSettings");
    assert("getGlobalSettings"@.len() == 17);
    reveal_strlit("setGlobalSettings");
    assert("setGlobalSettings"@.len() == 17);
    reveal_strlit("logMessage");
    assert("logMessage"@.len() == 10);
    reveal_strlit("setFeedback");
    assert("setFeedback"@.len() == 11);
    reveal_strlit("setFeedbackLayout");
    assert("setFeedbackLayout"@.len() == 17);
    reveal_strlit("setTriggerDescription");
    assert("setTriggerDescription"@.len() == 21);
    assert("setTitle"@[3] != "setImage"@[3]);
    assert("setTitle"@[3] != "setState"@[3]);
    assert("setImage"@[3] != "setState"@[3]);
    assert("getSettings"@[0] != "setSettings"@[0]);
    assert("getSettings"@[0] != "setFeedback"@[0]);
    assert("setSettings"@[3] != "setFeedback"@[3]);
    assert("getGlobalSettings"@[0] != "setGlobalSettings"@[0]);
    assert("getGlobalSettings"@[0] != "setFeedbackLayout"@[0]);
    assert("setGlobalSettings"@[3] != "setFeedbackLayout"@[3]);
}

proof fn lemma_message_out_set_title(x: MessageOutView)
    requires
        x is SetTitle,
    ensures
        MessageOutView::of_json(x.to_json()) == Ok::<MessageOutView, DecodeError>(x),
{
    broadcast use {lemma_get_with, lemma_get_empty};

    reveal_strlit("event");
    assert("event"@.len() == 5);
    reveal_strlit("context");
    assert("context"@.len() == 7);
    reveal_strlit("payload");
    assert("payload"@.len() == 7);
    reveal_strlit("setTitle");
    assert("setTitle"@.len() == 8);
    assert("context"@[0] != "payload"@[0]);
    match x {
        MessageOutView::SetTitle { context, payload } => {
            lemma_title_payload_round_trip(payload);
        },
        _ => {},
    }
}

proof fn lemma_message_out_set_image(x: MessageOutView)
    requires
        x is SetImage,
    ensures
        MessageOutView::of_json(x.to_json()) == Ok::<MessageOutView, DecodeError>(x),
{
    broadcast use {lemma_get_with, lemma_get_empty};

    reveal_strlit("event");
    assert("event"@.len() == 5);
    reveal_strlit("context");
    assert("context"@.len() == 7);
    reveal_strlit("payload");
    assert("payload"@.len() == 7);
    reveal_strlit("setImage");
    assert("setImage"@.len() == 8);
    reveal_strlit("setTitle");
    assert("setTitle"@.len() == 8);
    assert("context"@[0] != "payload"@[0]);
    assert("setImage"@[3] != "setTitle"@[3]);
    match x {
        MessageOutView::SetImage { context, payload } => {
            lemma_image_payload_round_trip(payload);
        },
        _ => {},
    }
}

proof fn lemma_message_out_show_alert(x: MessageOutView)
    requires
        x is ShowAlert,
    ensures
        MessageOutView::of_json(x.to_json()) == Ok::<MessageOutView, DecodeError>(x),
{
    broadcast use {lemma_get_with, lemma_get_empty};

    reveal_strlit("event");
    assert("event"@.len() == 5);
    reveal_strlit("context");
    assert("context"@.len() == 7);
    reveal_strlit("showAlert");
    assert("showAlert"@.len() == 9);
    reveal_strlit("setTitle");
    assert("setTitle"@.len() == 8);
    reveal_strlit("setImage");
    assert("setImage"@.len() == 8);
}

proof fn lemma_message_out_show_ok(x: MessageOutView)
    requires
        x is ShowOk,
    ensures
        MessageOutView::of_json(x.to_json()) == Ok::<MessageOutView, DecodeError>(x),
{
    broadcast use {lemma_get_with, lemma_get_empty};

    reveal_strlit("event");
    assert("event"@.len() == 5);
    reveal_strlit("context");
    assert("context"@.len() == 7);
    reveal_strlit("showOk");
    assert("showOk"@.len() == 6);
    reveal_strlit("setTitle");
    assert("setTitle"@.len() == 8);
    reveal_strlit("setImage");
    assert("setImage"@.len() == 8);
    reveal_strlit("showAlert");
    assert("showAlert"@.len() == 9);
}

proof fn lemma_message_out_get_settings(x: MessageOutView)
    requires
        x is GetSettings,
    ensures
        MessageOutView::of_json(x.to_json()) == Ok::<MessageOutView, DecodeError>(x),
{
    broadcast use {lemma_get_with, lemma_get_empty};

    reveal_strlit("event");
    assert("event"@.len() == 5);
    reveal_strlit("context");
    assert("context"@.len() == 7);
    reveal_strlit("getSettings");
    assert("getSettings"@.len() == 11);
    reveal_strlit("setTitle");
    assert("setTitle"@.len() == 8);
    reveal_strlit("setImage");
    assert("setImage"@.len() == 8);
    reveal_strlit("showAlert");
    assert("showAlert"@.len() == 9);
    reveal_strlit("showOk");
    assert("showOk"@.len() == 6);
}

proof fn lemma_message_out_set_settings(x: MessageOutView)
    requires
        x is SetSettings,
    ensures
        MessageOutView::of_json(x.to_json()) == Ok::<MessageOutView, DecodeError>(x),
{
    broadcast use {lemma_get_with, lemma_get_empty};

    reveal_strlit("event");
    assert("event"@.len() == 5);
    reveal_strlit("context");
    assert("context"@.len() == 7);
    reveal_strlit("payload");
    assert("payload"@.len() == 7);
    reveal_strlit("setSettings");
    assert("setSettings"@.len() == 11);
    reveal_strlit("setTitle");
    assert("setTitle"@.len() == 8);
    reveal_strlit("setImage");
    assert("setImage"@.len() == 8);
    reveal_strlit("showAlert");
    assert("showAlert"@.len() == 9);
    reveal_strlit("showOk");
    assert("showOk"@.len() == 6);
    reveal_strlit("getSettings");
    assert("getSettings"@.len() == 11);
    assert("context"@[0] != "payload"@[0]);
    assert("setSettings"@[0] != "getSettings"@[0]);
}

proof fn lemma_message_out_set_state(x: MessageOutView)
    requires
        x is SetState,
    ensures
        MessageOutView::of_json(x.to_json()) == Ok::<MessageOutView, DecodeError>(x),
{
    broadcast use {lemma_get_with, lemma_get_empty};

    reveal_strlit("event");
    assert("event"@.len() == 5);
    reveal_strlit("context");
    assert("context"@.len() == 7);
    reveal_strlit("payload");
    assert("payload"@.len() == 7);
    reveal_strlit("setState");
    assert("setState"@.len() == 8);
    reveal_strlit("setTitle");
    assert("setTitle"@.len() == 8);
    reveal_strlit("setImage");
    assert("setImage"@.len() == 8);
    reveal_strlit("showAlert");
    assert("showAlert"@.len() == 9);
    reveal_strlit("showOk");
    assert("showOk"@.len() == 6);
    reveal_strlit("getSettings");
    assert("getSettings"@.len() == 11);
    reveal_strlit("setSettings");
    assert("setSettings"@.len() == 11);
    assert("context"@[0] != "payload"@[0]);
    assert("setState"@[3] != "setTitle"@[3]);
    assert("setState"@[3] != "setImage"@[3]);
    match x {
        MessageOutView::SetState { context, payload } => {
            lemma_state_payload_round_trip(payload);
        },
        _ => {},
    }
}

proof fn lemma_message_out_send_to_property_inspector(x: MessageOutView)
    requires
        x is SendToPropertyInspector,
    ensures
        MessageOutView::of_json(x.to_json()) == Ok::<MessageOutView, DecodeError>(x),
{
    broadcast use {lemma_get_with, lemma_get_empty};

    reveal_strlit("event");
    assert("event"@.len() == 5);
    reveal_strlit("action");
    assert("action"@.len() == 6);
    reveal_strlit("context");
    assert("context"@.len() == 7);
    reveal_strlit("payload");
    assert("payload"@.len() == 7);
    reveal_strlit("sendToPropertyInspector");
    assert("sendToPropertyInspector"@.len() == 23);
    reveal_strlit("setTitle");
    assert("setTitle"@.len() == 8);
    reveal_strlit("setImage");
    assert("setImage"@.len() == 8);
    reveal_strlit("showAlert");
    assert("showAlert"@.len() == 9);
    reveal_strlit("showOk");
    assert("showOk"@.len() == 6);
    reveal_strlit("getSettings");
    assert("getSettings"@.len() == 11);
    reveal_strlit("setSettings");
    assert("setSettings"@.len() == 11);
    reveal_strlit("setState");
    assert("setState"@.len() == 8);
    assert("context"@[0] != "payload"@[0]);
}

proof fn lemma_message_out_switch_to_profile(x: MessageOutView)
    requires
        x is SwitchToProfile,
    ensures
        MessageOutView::of_json(x.to_json()) == Ok::<MessageOutView, DecodeError>(x),
{
    broadcast use {lemma_get_with, lemma_get_empty};

    reveal_strlit("event");
    assert("event"@.len() == 5);
    reveal_strlit("context");
    assert("context"@.len() == 7);
    reveal_strlit("device");
    assert("device"@.len() == 6);
    reveal_strlit("payload");
    assert("payload"@.len() == 7);
    reveal_strlit("switchToProfile");
    assert("switchToProfile"@.len() == 15);
    reveal_strlit("setTitle");
    assert("setTitle"@.len() == 8);
    reveal_strlit("setImage");
    assert("setImage"@.len() == 8);
    reveal_strlit("showAlert");
    assert("showAlert"@.len() == 9);
    reveal_strlit("showOk");
    assert("showOk"@.len() == 6);
    reveal_strlit("getSettings");
    assert("getSettings"@.len() == 11);
    reveal_strlit("setSettings");
    assert("setSettings"@.len() == 11);
    reveal_strlit("setState");
    assert("setState"@.len() == 8);
    reveal_strlit("sendToPropertyInspector");
    assert("sendToPropertyInspector"@.len() == 23);
    assert("context"@[0] != "payload"@[0]);
    match x {
        MessageOutView::SwitchToProfile { context, device, payload } => {
            lemma_profile_payload_round_trip(payload);
        },
        _ => {},
    }
}

proof fn lemma_message_out_open_url(x: MessageOutView)
    requires
        x is OpenUrl,
    ensures
        MessageOutView::of_json(x.to_json()) == Ok::<MessageOutView, DecodeError>(x),
{
    broadcast use {lemma_get_with, lemma_get_empty};

    reveal_strlit("event");
    assert("event"@.len() == 5);
    reveal_strlit("payload");
    assert("payload"@.len() == 7);
    reveal_strlit("openUrl");
    assert("openUrl"@.len() == 7);
    reveal_strlit("setTitle");
    assert("setTitle"@.len() == 8);
    reveal_strlit("setImage");
    assert("setImage"@.len() == 8);
    reveal_strlit("showAlert");
    assert("showAlert"@.len() == 9);
    reveal_strlit("showOk");
    assert("showOk"@.len() == 6);
    reveal_strlit("getSettings");
    assert("getSettings"@.len() == 11);
    reveal_strlit("setSettings");
    assert("setSettings"@.len() == 11);
    reveal_strlit("setState");
    assert("setState"@.len() == 8);
    reveal_strlit("sendToPropertyInspector");
    assert("sendToPropertyInspector"@.len() == 23);
    reveal_strlit("switchToProfile");
    assert("switchToProfile"@.len() == 15);
    match x {
        MessageOutView::OpenUrl { payload } => {
            lemma_url_payload_round_trip(payload);
        },
        _ => {},
    }
}

proof fn lemma_message_out_get_global_settings(x: MessageOutView)
    requires
        x is GetGlobalSettings,
    ensures
        MessageOutView::of_json(x.to_json()) == Ok::<MessageOutView, DecodeError>(x),
{
    broadcast use {lemma_get_with, lemma_get_empty};

    reveal_strlit("event");
    assert("event"@.len() == 5);
    reveal_strlit("context");
    assert("context"@.len() == 7);
    reveal_strlit("getGlobalSettings");
    assert("getGlobalSettings"@.len() == 17);
    reveal_strlit("setTitle");
    assert("setTitle"@.len() == 8);
    reveal_strlit("setImage");
    assert("setImage"@.len() == 8);
    reveal_strlit("showAlert");
    assert("showAlert"@.len() == 9);
    reveal_strlit("showOk");
    assert("showOk"@.len() == 6);
    reveal_strlit("getSettings");
    assert("getSettings"@.len() == 11);
    reveal_strlit("setSettings");
    assert("setSettings"@.len() == 11);
    reveal_strlit("setState");
    assert("setState"@.len() == 8);
    reveal_strlit("sendToPropertyInspector");
    assert("sendToPropertyInspector"@.len() == 23);
    reveal_strlit("switchToProfile");
    assert("switchToProfile"@.len() == 15);
    reveal_strlit("openUrl");
    assert("openUrl"@.len() == 7);
}

proof fn lemma_message_out_set_global_settings(x: MessageOutView)
    requires
        x is SetGlobalSettings,
    ensures
        MessageOutView::of_json(x.to_json()) == Ok::<MessageOutView, DecodeError>(x),
{
    broadcast use {lemma_get_with, lemma_get_empty};

    reveal_strlit("event");
    assert("event"@.len() == 5);
    reveal_strlit("context");
    assert("context"@.len() == 7);
    reveal_strlit("payload");
    assert("payload"@.len() == 7);
    reveal_strlit("setGlobalSettings");
    assert("setGlobalSettings"@.len() == 17);
    reveal_strlit("setTitle");
    assert("setTitle"@.len() == 8);
    reveal_strlit("setImage");
    assert("setImage"@.len() == 8);
    reveal_strlit("showAlert");
    assert("showAlert"@.len() == 9);
    reveal_strlit("showOk");
    assert("showOk"@.len() == 6);
    reveal_strlit("getSettings");
    assert("getSettings"@.len() == 11);
    reveal_strlit("setSettings");
    assert("setSettings"@.len() == 11);
    reveal_strlit("setState");
    assert("setState"@.len() == 8);
    reveal_strlit("sendToPropertyInspector");
    assert("sendToPropertyInspector"@.len() == 23);
    reveal_strlit("switchToProfile");
    assert("switchToProfile"@.len() == 15);
    reveal_strlit("openUrl");
    assert("openUrl"@.len() == 7);
    reveal_strlit("getGlobalSettings");
    assert("getGlobalSettings"@.len() == 17);
    assert("context"@[0] != "payload"@[0]);
    assert("setGlobalSettings"@[0] != "getGlobalSettings"@[0]);
}

proof fn lemma_message_out_log_message(x: MessageOutView)
    requires
        x is LogMessage,
    ensures
        MessageOutView::of_json(x.to_json()) == Ok::<MessageOutView, DecodeError>(x),
{
    broadcast use {lemma_get_with, lemma_get_empty};

    reveal_strlit("event");
    assert("event"@.len() == 5);
    reveal_strlit("payload");
    assert("payload"@.len() == 7);
    reveal_strlit("logMessage");
    assert("logMessage"@.len() == 10);
    reveal_strlit("setTitle");
    assert("setTitle"@.len() == 8);
    reveal_strlit("setImage");
    assert("setImage"@.len() == 8);
    reveal_strlit("showAlert");
    assert("showAlert"@.len() == 9);
    reveal_strlit("showOk");
    assert("showOk"@.len() == 6);
    reveal_strlit("getSettings");
    assert("getSettings"@.len() == 11);
    reveal_strlit("setSettings");
    assert("setSettings"@.len() == 11);
    reveal_strlit("setState");
    assert("setState"@.len() == 8);
    reveal_strlit("sendToPropertyInspector");
    assert("sendToPropertyInspector"@.len() == 23);
    reveal_strlit("switchToProfile");
    assert("switchToProfile"@.len() == 15);
    reveal_strlit("openUrl");
    assert("openUrl"@.len() == 7);
    reveal_strlit("getGlobalSettings");
    assert("getGlobalSettings"@.len() == 17);
    reveal_strlit("setGlobalSettings");
    assert("setGlobalSettings"@.len() == 17);
    match x {
        MessageOutView::LogMessage { payload } => {
            lemma_log_message_payload_round_trip(payload);
        },
        _ => {},
    }
}

proof fn lemma_message_out_set_feedback(x: MessageOutView)
    requires
        x is SetFeedback,
    ensures
        MessageOutView::of_json(x.to_json()) == Ok::<MessageOutView, DecodeError>(x),
{
    broadcast use {lemma_get_with, lemma_get_empty};

    reveal_strlit("event");
    assert("event"@.len() == 5);
    reveal_strlit("context");
    assert("context"@.len() == 7);
    reveal_strlit("payload");
    assert("payload"@.len() == 7);
    reveal_strlit("setFeedback");
    assert("setFeedback"@.len() == 11);
    reveal_strlit("setTitle");
    assert("setTitle"@.len() == 8);
    reveal_strlit("setImage");
    assert("setImage"@.len() == 8);
    reveal_strlit("showAlert");
    assert("showAlert"@.len() == 9);
    reveal_strlit("showOk");
    assert("showOk"@.len() == 6);
    reveal_strlit("getSettings");
    assert("getSettings"@.len() == 11);
    reveal_strlit("setSettings");
    assert("setSettings"@.len() == 11);
    reveal_strlit("setState");
    assert("setState"@.len() == 8);
    reveal_strlit("sendToPropertyInspector");
    assert("sendToPropertyInspector"@.len() == 23);
    reveal_strlit("switchToProfile");
    assert("switchToProfile"@.len() == 15);
    reveal_strlit("openUrl");
    assert("openUrl"@.len() == 7);
    reveal_strlit("getGlobalSettings");
    assert("getGlobalSettings"@.len() == 17);
    reveal_strlit("setGlobalSettings");
    assert("setGlobalSettings"@.len() == 17);
    reveal_strlit("logMessage");
    assert("logMessage"@.len() == 10);
    assert("context"@[0] != "payload"@[0]);
    assert("setFeedback"@[0] != "getSettings"@[0]);
    assert("setFeedback"@[3] != "setSettings"@[3]);
}

proof fn lemma_message_out_set_feedback_layout(x: MessageOutView)
    requires
        x is SetFeedbackLayout,
    ensures
        MessageOutView::of_json(x.to_json()) == Ok::<MessageOutView, DecodeError>(x),
{
    broadcast use {lemma_get_with, lemma_get_empty};

    reveal_strlit("event");
    assert("event"@.len() == 5);
    reveal_strlit("context");
    assert("context"@.len() == 7);
    reveal_strlit("payload");
    assert("payload"@.len() == 7);
    reveal_strlit("setFeedbackLayout");
    assert("setFeedbackLayout"@.len() == 17);
    reveal_strlit("setTitle");
    assert("setTitle"@.len() == 8);
    reveal_strlit("setImage");
    assert("setImage"@.len() == 8);
    reveal_strlit("showAlert");
    assert("showAlert"@.len() == 9);
    reveal_strlit("showOk");
    assert("showOk"@.len() == 6);
    reveal_strlit("getSettings");
    assert("getSettings"@.len() == 11);
    reveal_strlit("setSettings");
    assert("setSettings"@.len() == 11);
    reveal_strlit("setState");
    assert("setState"@.len() == 8);
    reveal_strlit("sendToPropertyInspector");
    assert("sendToPropertyInspector"@.len() == 23);
    reveal_strlit("switchToProfile");
    assert("switchToProfile"@.len() == 15);
    reveal_strlit("openUrl");
    assert("openUrl"@.len() == 7);
    reveal_strlit("getGlobalSettings");
    assert("getGlobalSettings"@.len() == 17);
    reveal_strlit("setGlobalSettings");
    assert("setGlobalSettings"@.len() == 17);
    reveal_strlit("logMessage");
    assert("logMessage"@.len() == 10);
    reveal_strlit("setFeedback");
    assert("setFeedback"@.len() == 11);
    assert("context"@[0] != "payload"@[0]);
    assert("setFeedbackLayout"@[0] != "getGlobalSettings"@[0]);
    assert("setFeedbackLayout"@[3] != "setGlobalSettings"@[3]);
    match x {
        MessageOutView::SetFeedbackLayout { context, payload } => {
            lemma_set_feedback_layout_payload_round_trip(payload);
        },
        _ => {},
    }
}

proof fn lemma_message_out_set_trigger_description(x: MessageOutView)
    requires
        x is SetTriggerDescription,
    ensures
        MessageOutView::of_json(x.to_json()) == Ok::<MessageOutView, DecodeError>(x),
{
    broadcast use {lemma_get_with, lemma_get_empty};

    reveal_strlit("event");
    assert("event"@.len() == 5);
    reveal_strlit("context");
    assert("context"@.len() == 7);
    reveal_strlit("payload");
    assert("payload"@.len() == 7);
    reveal_strlit("setTriggerDescription");
    assert("setTriggerDescription"@.len() == 21);
    reveal_strlit("setTitle");
    assert("setTitle"@.len() == 8);
    reveal_strlit("setImage");
    assert("setImage"@.len() == 8);
    reveal_strlit("showAlert");
    assert("showAlert"@.len() == 9);
    reveal_strlit("showOk");
    assert("showOk"@.len() == 6);
    reveal_strlit("getSettings");
    assert("getSettings"@.len() == 11);
    reveal_strlit("setSettings");
    assert("setSettings"@.len() == 11);
    reveal_strlit("setState");
    assert("setState"@.len() == 8);
    reveal_strlit("sendToPropertyInspector");
    assert("sendToPropertyInspector"@.len() == 23);
    reveal_strlit("switchToProfile");
    assert("switchToProfile"@.len() == 15);
    reveal_strlit("openUrl");
    assert("openUrl"@.len() == 7);
    reveal_strlit("getGlobalSettings");
    assert("getGlobalSettings"@.len() == 17);
    reveal_strlit("setGlobalSettings");
    assert("setGlobalSettings"@.len() == 17);
    reveal_strlit("logMessage");
    assert("logMessage"@.len() == 10);
    reveal_strlit("setFeedback");
    assert("setFeedback"@.len() == 11);
    reveal_strlit("setFeedbackLayout");
    assert("setFeedbackLayout"@.len() == 17);
    assert("context"@[0] != "payload"@[0]);
    match x {
        MessageOutView::SetTriggerDescription { context, payload } => {
            lemma_set_trigger_description_payload_round_trip(payload);
        },
        _ => {},
    }
}

/// A value is read back from its own document as it was.
pub proof fn lemma_message_out_round_trip(x: MessageOutView)
    ensures
        MessageOutView::of_json(x.to_json()) == Ok::<MessageOutView, DecodeError>(x),
{
    match x {
        MessageOutView::SetTitle { .. } => lemma_message_out_set_title(x),
        MessageOutView::SetImage { .. } => lemma_message_out_set_image(x),
        MessageOutView::ShowAlert { .. } => lemma_message_out_show_alert(x),
        MessageOutView::ShowOk { .. } => lemma_message_out_show_ok(x),
        MessageOutView::GetSettings { .. } => lemma_message_out_get_settings(x),
        MessageOutView::SetSettings { .. } => lemma_message_out_set_settings(x),
        MessageOutView::SetState { .. } => lemma_message_out_set_state(x),
        MessageOutView::SendToPropertyInspector { .. } => {
            lemma_message_out_send_to_property_inspector(x);
        },
        MessageOutView::SwitchToProfile { .. } => lemma_message_out_switch_to_profile(x),
        MessageOutView::OpenUrl { .. } => lemma_message_out_open_url(x),
        MessageOutView::GetGlobalSettings { .. } => lemma_message_out_get_global_settings(x),
        MessageOutView::SetGlobalSettings { .. } => lemma_message_out_set_global_settings(x),
        MessageOutView::LogMessage { .. } => lemma_message_out_log_message(x),
        MessageOutView::SetFeedback { .. } => lemma_message_out_set_feedback(x),
        MessageOutView::SetFeedbackLayout { .. } => lemma_message_out_set_feedback_layout(x),
        MessageOutView::SetTriggerDescription { .. } => {
            lemma_message_out_set_trigger_description(x);
        },
    }
}

} // verus!
