//! The events that the host software sends to a plugin.

use crate::json::{
    any_field, decoded, field, json_parse, json_text, leaf, lemma_get_empty, lemma_get_with, member,
    node, object_insert, optional_leaf, optional_text_field, parse_value, print_value, text_field,
    text_of, text_or_null, value_clone, value_is_object, value_object, value_str, value_view,
    BadMessage, DecodeError, JsonValue,
};
use crate::payload::{
    lemma_application_payload_round_trip, lemma_device_info_round_trip,
    lemma_dial_down_payload_round_trip, lemma_dial_rotate_payload_round_trip,
    lemma_dial_up_payload_round_trip, lemma_global_settings_payload_round_trip,
    lemma_key_payload_round_trip, lemma_title_parameters_payload_round_trip,
    lemma_touch_tap_payload_round_trip, lemma_visibility_payload_round_trip, ApplicationPayload,
    ApplicationPayloadView, DeviceInfo, DeviceInfoView, DialDownPayload, DialDownPayloadView,
    DialRotatePayload, DialRotatePayloadView, DialUpPayload, DialUpPayloadView,
    GlobalSettingsPayload, GlobalSettingsPayloadView, KeyPayload, KeyPayloadView,
    TitleParametersPayload, TitleParametersPayloadView, TouchTapPayload, TouchTapPayloadView,
    VisibilityPayload, VisibilityPayloadView,
};
use serde_json::Value;
use vstd::prelude::*;

verus! {

/// An event from the host software. `G` is the type of the global settings, `S`
/// that of the settings of an action, `M` that of the messages from the
/// property inspector; the codec works on events that hold them as JSON
/// documents.
#[derive(Debug, PartialEq)]
pub enum Message<G, S, M> {
    /// A key was pressed.
    KeyDown {
        /// The uuid of the action.
        action: String,
        /// The instance of the action.
        context: String,
        /// The device of the action.
        device: String,
        /// What is known of the key.
        payload: KeyPayload<S>,
    },
    /// A key was released.
    KeyUp {
        /// The uuid of the action.
        action: String,
        /// The instance of the action.
        context: String,
        /// The device of the action.
        device: String,
        /// What is known of the key.
        payload: KeyPayload<S>,
    },
    /// An instance of the action was put on the display.
    WillAppear {
        /// The uuid of the action.
        action: String,
        /// The instance of the action.
        context: String,
        /// The device of the action, or `None` where it is on none.
        device: Option<String>,
        /// What is known of the instance.
        payload: VisibilityPayload<S>,
    },
    /// An instance of the action was taken from the display.
    WillDisappear {
        /// The uuid of the action.
        action: String,
        /// The instance of the action.
        context: String,
        /// The device of the action, or `None` where it is on none.
        device: Option<String>,
        /// What is known of the instance.
        payload: VisibilityPayload<S>,
    },
    /// The title of an instance of the action was changed.
    TitleParametersDidChange {
        /// The uuid of the action.
        action: String,
        /// The instance of the action.
        context: String,
        /// The device of the action, or `None` where it is on none.
        device: Option<String>,
        /// The new title.
        payload: TitleParametersPayload<S>,
    },
    /// A device was connected.
    DeviceDidConnect {
        /// The device.
        device: String,
        /// What is known of the device.
        device_info: DeviceInfo,
    },
    /// A device was disconnected.
    DeviceDidDisconnect {
        /// The device.
        device: String,
    },
    /// A monitored application was launched.
    ApplicationDidLaunch {
        /// The application.
        payload: ApplicationPayload,
    },
    /// A monitored application has ended.
    ApplicationDidTerminate {
        /// The application.
        payload: ApplicationPayload,
    },
    /// The property inspector sent data.
    SendToPlugin {
        /// The uuid of the action.
        action: String,
        /// The instance of the action.
        context: String,
        /// The data.
        payload: M,
    },
    /// The settings of an action arrived, as asked for or after the property
    /// inspector changed them.
    DidReceiveSettings {
        /// The uuid of the action.
        action: String,
        /// The instance of the action.
        context: String,
        /// The device of the action.
        device: String,
        /// The settings.
        payload: KeyPayload<S>,
    },
    /// The property inspector of an action was opened.
    PropertyInspectorDidAppear {
        /// The uuid of the action.
        action: String,
        /// The instance of the action.
        context: String,
        /// The device of the action.
        device: String,
    },
    /// The property inspector of an action was closed.
    PropertyInspectorDidDisappear {
        /// The uuid of the action.
        action: String,
        /// The instance of the action.
        context: String,
        /// The device of the action.
        device: String,
    },
    /// The settings of the plugin arrived, as asked for or after the property
    /// inspector changed them.
    DidReceiveGlobalSettings {
        /// The settings.
        payload: GlobalSettingsPayload<G>,
    },
    /// The computer woke up from sleep.
    SystemDidWakeUp,
    /// The touch display was tapped.
    TouchTap {
        /// The uuid of the action.
        action: String,
        /// The instance of the action.
        context: String,
        /// The device of the action.
        device: String,
        /// What is known of the tap.
        payload: TouchTapPayload<S>,
    },
    /// A dial was pressed.
    DialDown {
        /// The uuid of the action.
        action: String,
        /// The instance of the action.
        context: String,
        /// The device of the action.
        device: String,
        /// What is known of the dial.
        payload: DialDownPayload<S>,
    },
    /// A dial was released.
    DialUp {
        /// The uuid of the action.
        action: String,
        /// The instance of the action.
        context: String,
        /// The device of the action.
        device: String,
        /// What is known of the dial.
        payload: DialUpPayload<S>,
    },
    /// A dial was turned.
    DialRotate {
        /// The uuid of the action.
        action: String,
        /// The instance of the action.
        context: String,
        /// The device of the action.
        device: String,
        /// What is known of the rotation.
        payload: DialRotatePayload<S>,
    },
    /// An event that this catalogue does not know, as newer host software may
    /// send it. It is safe to ignore.
    Unknown,
}

/// The mathematical value of a [`Message`].
pub enum MessageView {
    KeyDown {
        action: Seq<char>,
        context: Seq<char>,
        device: Seq<char>,
        payload: KeyPayloadView,
    },
    KeyUp {
        action: Seq<char>,
        context: Seq<char>,
        device: Seq<char>,
        payload: KeyPayloadView,
    },
    WillAppear {
        action: Seq<char>,
        context: Seq<char>,
        device: Option<Seq<char>>,
        payload: VisibilityPayloadView,
    },
    WillDisappear {
        action: Seq<char>,
        context: Seq<char>,
        device: Option<Seq<char>>,
        payload: VisibilityPayloadView,
    },
    TitleParametersDidChange {
        action: Seq<char>,
        context: Seq<char>,
        device: Option<Seq<char>>,
        payload: TitleParametersPayloadView,
    },
    DeviceDidConnect {
        device: Seq<char>,
        device_info: DeviceInfoView,
    },
    DeviceDidDisconnect {
        device: Seq<char>,
    },
    ApplicationDidLaunch {
        payload: ApplicationPayloadView,
    },
    ApplicationDidTerminate {
        payload: ApplicationPayloadView,
    },
    SendToPlugin {
        action: Seq<char>,
        context: Seq<char>,
        payload: JsonValue,
    },
    DidReceiveSettings {
        action: Seq<char>,
        context: Seq<char>,
        device: Seq<char>,
        payload: KeyPayloadView,
    },
    PropertyInspectorDidAppear {
        action: Seq<char>,
        context: Seq<char>,
        device: Seq<char>,
    },
    PropertyInspectorDidDisappear {
        action: Seq<char>,
        context: Seq<char>,
        device: Seq<char>,
    },
    DidReceiveGlobalSettings {
        payload: GlobalSettingsPayloadView,
    },
    SystemDidWakeUp,
    TouchTap {
        action: Seq<char>,
        context: Seq<char>,
        device: Seq<char>,
        payload: TouchTapPayloadView,
    },
    DialDown {
        action: Seq<char>,
        context: Seq<char>,
        device: Seq<char>,
        payload: DialDownPayloadView,
    },
    DialUp {
        action: Seq<char>,
        context: Seq<char>,
        device: Seq<char>,
        payload: DialUpPayloadView,
    },
    DialRotate {
        action: Seq<char>,
        context: Seq<char>,
        device: Seq<char>,
        payload: DialRotatePayloadView,
    },
    Unknown,
}

impl View for Message<Value, Value, Value> {
    type V = MessageView;

    open spec fn view(&self) -> MessageView {
        match *self {
            Message::KeyDown { action, context, device, payload } => MessageView::KeyDown {
                action: action@,
                context: context@,
                device: device@,
                payload: payload@,
            },
            Message::KeyUp { action, context, device, payload } => MessageView::KeyUp {
                action: action@,
                context: context@,
                device: device@,
                payload: payload@,
            },
            Message::WillAppear { action, context, device, payload } => MessageView::WillAppear {
                action: action@,
                context: context@,
                device: text_of(device),
                payload: payload@,
            },
            Message::WillDisappear {
                action,
                context,
                device,
                payload,
            } => MessageView::WillDisappear {
                action: action@,
                context: context@,
                device: text_of(device),
                payload: payload@,
            },
            Message::TitleParametersDidChange {
                action,
                context,
                device,
                payload,
            } => MessageView::TitleParametersDidChange {
                action: action@,
                context: context@,
                device: text_of(device),
                payload: payload@,
            },
            Message::DeviceDidConnect { device, device_info } => MessageView::DeviceDidConnect {
                device: device@,
                device_info: device_info@,
            },
            Message::DeviceDidDisconnect { device } => MessageView::DeviceDidDisconnect {
                device: device@,
            },
            Message::ApplicationDidLaunch { payload } => MessageView::ApplicationDidLaunch {
                payload: payload@,
            },
            Message::ApplicationDidTerminate { payload } => MessageView::ApplicationDidTerminate {
                payload: payload@,
            },
            Message::SendToPlugin { action, context, payload } => MessageView::SendToPlugin {
                action: action@,
                context: context@,
                payload: value_view(payload),
            },
            Message::DidReceiveSettings {
                action,
                context,
                device,
                payload,
            } => MessageView::DidReceiveSettings {
                action: action@,
                context: context@,
                device: device@,
                payload: payload@,
            },
            Message::PropertyInspectorDidAppear {
                action,
                context,
                device,
            } => MessageView::PropertyInspectorDidAppear {
                action: action@,
                context: context@,
                device: device@,
            },
            Message::PropertyInspectorDidDisappear {
                action,
                context,
                device,
            } => MessageView::PropertyInspectorDidDisappear {
                action: action@,
                context: context@,
                device: device@,
            },
            Message::DidReceiveGlobalSettings { payload } => MessageView::DidReceiveGlobalSettings {
                payload: payload@,
            },
            Message::SystemDidWakeUp => MessageView::SystemDidWakeUp,
            Message::TouchTap { action, context, device, payload } => MessageView::TouchTap {
                action: action@,
                context: context@,
                device: device@,
                payload: payload@,
            },
            Message::DialDown { action, context, device, payload } => MessageView::DialDown {
                action: action@,
                context: context@,
                device: device@,
                payload: payload@,
            },
            Message::DialUp { action, context, device, payload } => MessageView::DialUp {
                action: action@,
                context: context@,
                device: device@,
                payload: payload@,
            },
            Message::DialRotate { action, context, device, payload } => MessageView::DialRotate {
                action: action@,
                context: context@,
                device: device@,
                payload: payload@,
            },
            Message::Unknown => MessageView::Unknown,
        }
    }
}

impl MessageView {
    /// Whether `tag` names one of the kinds that this catalogue knows.
    pub open spec fn recognized(tag: Seq<char>) -> bool {
        tag == "keyDown"@
            || tag == "keyUp"@
            || tag == "willAppear"@
            || tag == "willDisappear"@
            || tag == "titleParametersDidChange"@
            || tag == "deviceDidConnect"@
            || tag == "deviceDidDisconnect"@
            || tag == "applicationDidLaunch"@
            || tag == "applicationDidTerminate"@
            || tag == "sendToPlugin"@
            || tag == "didReceiveSettings"@
            || tag == "propertyInspectorDidAppear"@
            || tag == "propertyInspectorDidDisappear"@
            || tag == "didReceiveGlobalSettings"@
            || tag == "systemDidWakeUp"@
            || tag == "touchTap"@
            || tag == "dialDown"@
            || tag == "dialUp"@
            || tag == "dialRotate"@
    }

    /// What a document tagged `keyDown` denotes.
    pub open spec fn key_down_of_json(j: JsonValue) -> Result<MessageView, DecodeError> {
        let action = leaf(j, "action", |m: JsonValue| m.as_text());
        let context = leaf(j, "context", |m: JsonValue| m.as_text());
        let device = leaf(j, "device", |m: JsonValue| m.as_text());
        let payload = node(j, "payload", |m: JsonValue| KeyPayloadView::of_json(m));
        if action is Err {
            Err(action->Err_0)
        } else if context is Err {
            Err(context->Err_0)
        } else if device is Err {
            Err(device->Err_0)
        } else if payload is Err {
            Err(payload->Err_0)
        } else {
            Ok(
                MessageView::KeyDown {
                    action: action->Ok_0,
                    context: context->Ok_0,
                    device: device->Ok_0,
                    payload: payload->Ok_0,
                },
            )
        }
    }

    /// What a document tagged `keyUp` denotes.
    pub open spec fn key_up_of_json(j: JsonValue) -> Result<MessageView, DecodeError> {
        let action = leaf(j, "action", |m: JsonValue| m.as_text());
        let context = leaf(j, "context", |m: JsonValue| m.as_text());
        let device = leaf(j, "device", |m: JsonValue| m.as_text());
        let payload = node(j, "payload", |m: JsonValue| KeyPayloadView::of_json(m));
        if action is Err {
            Err(action->Err_0)
        } else if context is Err {
            Err(context->Err_0)
        } else if device is Err {
            Err(device->Err_0)
        } else if payload is Err {
            Err(payload->Err_0)
        } else {
            Ok(
                MessageView::KeyUp {
                    action: action->Ok_0,
                    context: context->Ok_0,
                    device: device->Ok_0,
                    payload: payload->Ok_0,
                },
            )
        }
    }

    /// What a document tagged `willAppear` denotes.
    pub open spec fn will_appear_of_json(j: JsonValue) -> Result<MessageView, DecodeError> {
        let action = leaf(j, "action", |m: JsonValue| m.as_text());
        let context = leaf(j, "context", |m: JsonValue| m.as_text());
        let device = optional_leaf(j, "device", |m: JsonValue| m.as_text());
        let payload = node(j, "payload", |m: JsonValue| VisibilityPayloadView::of_json(m));
        if action is Err {
            Err(action->Err_0)
        } else if context is Err {
            Err(context->Err_0)
        } else if device is Err {
            Err(device->Err_0)
        } else if payload is Err {
            Err(payload->Err_0)
        } else {
            Ok(
                MessageView::WillAppear {
                    action: action->Ok_0,
                    context: context->Ok_0,
                    device: device->Ok_0,
                    payload: payload->Ok_0,
                },
            )
        }
    }

    /// What a document tagged `willDisappear` denotes.
    pub open spec fn will_disappear_of_json(j: JsonValue) -> Result<MessageView, DecodeError> {
        let action = leaf(j, "action", |m: JsonValue| m.as_text());
        let context = leaf(j, "context", |m: JsonValue| m.as_text());
        let device = optional_leaf(j, "device", |m: JsonValue| m.as_text());
        let payload = node(j, "payload", |m: JsonValue| VisibilityPayloadView::of_json(m));
        if action is Err {
            Err(action->Err_0)
        } else if context is Err {
            Err(context->Err_0)
        } else if device is Err {
            Err(device->Err_0)
        } else if payload is Err {
            Err(payload->Err_0)
        } else {
            Ok(
                MessageView::WillDisappear {
                    action: action->Ok_0,
                    context: context->Ok_0,
                    device: device->Ok_0,
                    payload: payload->Ok_0,
                },
            )
        }
    }

    /// What a document tagged `titleParametersDidChange` denotes.
    pub open spec fn title_parameters_did_change_of_json(j: JsonValue) -> Result<
        MessageView,
        DecodeError,
    > {
        let action = leaf(j, "action", |m: JsonValue| m.as_text());
        let context = leaf(j, "context", |m: JsonValue| m.as_text());
        let device = optional_leaf(j, "device", |m: JsonValue| m.as_text());
        let payload = node(j, "payload", |m: JsonValue| TitleParametersPayloadView::of_json(m));
        if action is Err {
            Err(action->Err_0)
        } else if context is Err {
            Err(context->Err_0)
        } else if device is Err {
            Err(device->Err_0)
        } else if payload is Err {
            Err(payload->Err_0)
        } else {
            Ok(
                MessageView::TitleParametersDidChange {
                    action: action->Ok_0,
                    context: context->Ok_0,
                    device: device->Ok_0,
                    payload: payload->Ok_0,
                },
            )
        }
    }

    /// What a document tagged `deviceDidConnect` denotes.
    pub open spec fn device_did_connect_of_json(j: JsonValue) -> Result<MessageView, DecodeError> {
        let device = leaf(j, "device", |m: JsonValue| m.as_text());
        let device_info = node(j, "deviceInfo", |m: JsonValue| DeviceInfoView::of_json(m));
        if device is Err {
            Err(device->Err_0)
        } else if device_info is Err {
            Err(device_info->Err_0)
        } else {
            Ok(
                MessageView::DeviceDidConnect {
                    device: device->Ok_0,
                    device_info: device_info->Ok_0,
                },
            )
        }
    }

    /// What a document tagged `deviceDidDisconnect` denotes.
    pub open spec fn device_did_disconnect_of_json(j: JsonValue) -> Result<
        MessageView,
        DecodeError,
    > {
        let device = leaf(j, "device", |m: JsonValue| m.as_text());
        if device is Err {
            Err(device->Err_0)
        } else {
            Ok(MessageView::DeviceDidDisconnect { device: device->Ok_0 })
        }
    }

    /// What a document tagged `applicationDidLaunch` denotes.
    pub open spec fn application_did_launch_of_json(j: JsonValue) -> Result<
        MessageView,
        DecodeError,
    > {
        let payload = node(j, "payload", |m: JsonValue| ApplicationPayloadView::of_json(m));
        if payload is Err {
            Err(payload->Err_0)
        } else {
            Ok(MessageView::ApplicationDidLaunch { payload: payload->Ok_0 })
        }
    }

    /// What a document tagged `applicationDidTerminate` denotes.
    pub open spec fn application_did_terminate_of_json(j: JsonValue) -> Result<
        MessageView,
        DecodeError,
    > {
        let payload = node(j, "payload", |m: JsonValue| ApplicationPayloadView::of_json(m));
        if payload is Err {
            Err(payload->Err_0)
        } else {
            Ok(MessageView::ApplicationDidTerminate { payload: payload->Ok_0 })
        }
    }

    /// What a document tagged `sendToPlugin` denotes.
    pub open spec fn send_to_plugin_of_json(j: JsonValue) -> Result<MessageView, DecodeError> {
        let action = leaf(j, "action", |m: JsonValue| m.as_text());
        let context = leaf(j, "context", |m: JsonValue| m.as_text());
        let payload = field(j, "payload");
        if action is Err {
            Err(action->Err_0)
        } else if context is Err {
            Err(context->Err_0)
        } else if payload is Err {
            Err(payload->Err_0)
        } else {
            Ok(
                MessageView::SendToPlugin {
                    action: action->Ok_0,
                    context: context->Ok_0,
                    payload: payload->Ok_0,
                },
            )
        }
    }

    /// What a document tagged `didReceiveSettings` denotes.
    pub open spec fn did_receive_settings_of_json(j: JsonValue) -> Result<
        MessageView,
        DecodeError,
    > {
        let action = leaf(j, "action", |m: JsonValue| m.as_text());
        let context = leaf(j, "context", |m: JsonValue| m.as_text());
        let device = leaf(j, "device", |m: JsonValue| m.as_text());
        let payload = node(j, "payload", |m: JsonValue| KeyPayloadView::of_json(m));
        if action is Err {
            Err(action->Err_0)
        } else if context is Err {
            Err(context->Err_0)
        } else if device is Err {
            Err(device->Err_0)
        } else if payload is Err {
            Err(payload->Err_0)
        } else {
            Ok(
                MessageView::DidReceiveSettings {
                    action: action->Ok_0,
                    context: context->Ok_0,
                    device: device->Ok_0,
                    payload: payload->Ok_0,
                },
            )
        }
    }

    /// What a document tagged `propertyInspectorDidAppear` denotes.
    pub open spec fn property_inspector_did_appear_of_json(j: JsonValue) -> Result<
        MessageView,
        DecodeError,
    > {
        let action = leaf(j, "action", |m: JsonValue| m.as_text());
        let context = leaf(j, "context", |m: JsonValue| m.as_text());
        let device = leaf(j, "device", |m: JsonValue| m.as_text());
        if action is Err {
            Err(action->Err_0)
        } else if context is Err {
            Err(context->Err_0)
        } else if device is Err {
            Err(device->Err_0)
        } else {
            Ok(
                MessageView::PropertyInspectorDidAppear {
                    action: action->Ok_0,
                    context: context->Ok_0,
                    device: device->Ok_0,
                },
            )
        }
    }

    /// What a document tagged `propertyInspectorDidDisappear` denotes.
    pub open spec fn property_inspector_did_disappear_of_json(j: JsonValue) -> Result<
        MessageView,
        DecodeError,
    > {
        let action = leaf(j, "action", |m: JsonValue| m.as_text());
        let context = leaf(j, "context", |m: JsonValue| m.as_text());
        let device = leaf(j, "device", |m: JsonValue| m.as_text());
        if action is Err {
            Err(action->Err_0)
        } else if context is Err {
            Err(context->Err_0)
        } else if device is Err {
            Err(device->Err_0)
        } else {
            Ok(
                MessageView::PropertyInspectorDidDisappear {
                    action: action->Ok_0,
                    context: context->Ok_0,
                    device: device->Ok_0,
                },
            )
        }
    }

    /// What a document tagged `didReceiveGlobalSettings` denotes.
    pub open spec fn did_receive_global_settings_of_json(j: JsonValue) -> Result<
        MessageView,
        DecodeError,
    > {
        let payload = node(j, "payload", |m: JsonValue| GlobalSettingsPayloadView::of_json(m));
        if payload is Err {
            Err(payload->Err_0)
        } else {
            Ok(MessageView::DidReceiveGlobalSettings { payload: payload->Ok_0 })
        }
    }

    /// What a document tagged `systemDidWakeUp` denotes.
    pub open spec fn system_did_wake_up_of_json(j: JsonValue) -> Result<MessageView, DecodeError> {
        Ok(MessageView::SystemDidWakeUp)
    }

    /// What a document tagged `touchTap` denotes.
    pub open spec fn touch_tap_of_json(j: JsonValue) -> Result<MessageView, DecodeError> {
        let action = leaf(j, "action", |m: JsonValue| m.as_text());
        let context = leaf(j, "context", |m: JsonValue| m.as_text());
        let device = leaf(j, "device", |m: JsonValue| m.as_text());
        let payload = node(j, "payload", |m: JsonValue| TouchTapPayloadView::of_json(m));
        if action is Err {
            Err(action->Err_0)
        } else if context is Err {
            Err(context->Err_0)
        } else if device is Err {
            Err(device->Err_0)
        } else if payload is Err {
            Err(payload->Err_0)
        } else {
            Ok(
                MessageView::TouchTap {
                    action: action->Ok_0,
                    context: context->Ok_0,
                    device: device->Ok_0,
                    payload: payload->Ok_0,
                },
            )
        }
    }

    /// What a document tagged `dialDown` denotes.
    pub open spec fn dial_down_of_json(j: JsonValue) -> Result<MessageView, DecodeError> {
        let action = leaf(j, "action", |m: JsonValue| m.as_text());
        let context = leaf(j, "context", |m: JsonValue| m.as_text());
        let device = leaf(j, "device", |m: JsonValue| m.as_text());
        let payload = node(j, "payload", |m: JsonValue| DialDownPayloadView::of_json(m));
        if action is Err {
            Err(action->Err_0)
        } else if context is Err {
            Err(context->Err_0)
        } else if device is Err {
            Err(device->Err_0)
        } else if payload is Err {
            Err(payload->Err_0)
        } else {
            Ok(
                MessageView::DialDown {
                    action: action->Ok_0,
                    context: context->Ok_0,
                    device: device->Ok_0,
                    payload: payload->Ok_0,
                },
            )
        }
    }

    /// What a document tagged `dialUp` denotes.
    pub open spec fn dial_up_of_json(j: JsonValue) -> Result<MessageView, DecodeError> {
        let action = leaf(j, "action", |m: JsonValue| m.as_text());
        let context = leaf(j, "context", |m: JsonValue| m.as_text());
        let device = leaf(j, "device", |m: JsonValue| m.as_text());
        let payload = node(j, "payload", |m: JsonValue| DialUpPayloadView::of_json(m));
        if action is Err {
            Err(action->Err_0)
        } else if context is Err {
            Err(context->Err_0)
        } else if device is Err {
            Err(device->Err_0)
        } else if payload is Err {
            Err(payload->Err_0)
        } else {
            Ok(
                MessageView::DialUp {
                    action: action->Ok_0,
                    context: context->Ok_0,
                    device: device->Ok_0,
                    payload: payload->Ok_0,
                },
            )
        }
    }

    /// What a document tagged `dialRotate` denotes.
    pub open spec fn dial_rotate_of_json(j: JsonValue) -> Result<MessageView, DecodeError> {
        let action = leaf(j, "action", |m: JsonValue| m.as_text());
        let context = leaf(j, "context", |m: JsonValue| m.as_text());
        let device = leaf(j, "device", |m: JsonValue| m.as_text());
        let payload = node(j, "payload", |m: JsonValue| DialRotatePayloadView::of_json(m));
        if action is Err {
            Err(action->Err_0)
        } else if context is Err {
            Err(context->Err_0)
        } else if device is Err {
            Err(device->Err_0)
        } else if payload is Err {
            Err(payload->Err_0)
        } else {
            Ok(
                MessageView::DialRotate {
                    action: action->Ok_0,
                    context: context->Ok_0,
                    device: device->Ok_0,
                    payload: payload->Ok_0,
                },
            )
        }
    }

    /// The value that a JSON document denotes. The document has to be an object
    /// whose member `event` is a string, the tag; a recognized tag decides how
    /// the other members are read, and an unrecognized tag gives `Unknown`
    /// whatever else the object holds.
    pub open spec fn of_json(j: JsonValue) -> Result<MessageView, DecodeError> {
        let tag = leaf(j, "event", |m: JsonValue| m.as_text());
        if !(j is Object) {
            Err(DecodeError::NotAnObject)
        } else if tag is Err {
            Err(tag->Err_0)
        } else if tag->Ok_0 == "keyDown"@ {
            Self::key_down_of_json(j)
        } else if tag->Ok_0 == "keyUp"@ {
            Self::key_up_of_json(j)
        } else if tag->Ok_0 == "willAppear"@ {
            Self::will_appear_of_json(j)
        } else if tag->Ok_0 == "willDisappear"@ {
            Self::will_disappear_of_json(j)
        } else if tag->Ok_0 == "titleParametersDidChange"@ {
            Self::title_parameters_did_change_of_json(j)
        } else if tag->Ok_0 == "deviceDidConnect"@ {
            Self::device_did_connect_of_json(j)
        } else if tag->Ok_0 == "deviceDidDisconnect"@ {
            Self::device_did_disconnect_of_json(j)
        } else if tag->Ok_0 == "applicationDidLaunch"@ {
            Self::application_did_launch_of_json(j)
        } else if tag->Ok_0 == "applicationDidTerminate"@ {
            Self::application_did_terminate_of_json(j)
        } else if tag->Ok_0 == "sendToPlugin"@ {
            Self::send_to_plugin_of_json(j)
        } else if tag->Ok_0 == "didReceiveSettings"@ {
            Self::did_receive_settings_of_json(j)
        } else if tag->Ok_0 == "propertyInspectorDidAppear"@ {
            Self::property_inspector_did_appear_of_json(j)
        } else if tag->Ok_0 == "propertyInspectorDidDisappear"@ {
            Self::property_inspector_did_disappear_of_json(j)
        } else if tag->Ok_0 == "didReceiveGlobalSettings"@ {
            Self::did_receive_global_settings_of_json(j)
        } else if tag->Ok_0 == "systemDidWakeUp"@ {
            Self::system_did_wake_up_of_json(j)
        } else if tag->Ok_0 == "touchTap"@ {
            Self::touch_tap_of_json(j)
        } else if tag->Ok_0 == "dialDown"@ {
            Self::dial_down_of_json(j)
        } else if tag->Ok_0 == "dialUp"@ {
            Self::dial_up_of_json(j)
        } else if tag->Ok_0 == "dialRotate"@ {
            Self::dial_rotate_of_json(j)
        } else {
            Ok(MessageView::Unknown)
        }
    }

    /// Whether a document with this tag has to have this member.
    pub open spec fn requires_member(tag: Seq<char>, key: Seq<char>) -> bool {
        ||| tag == "keyDown"@ && (key == "action"@
            || key == "context"@
            || key == "device"@
            || key == "payload"@)
        ||| tag == "keyUp"@ && (key == "action"@
            || key == "context"@
            || key == "device"@
            || key == "payload"@)
        ||| tag == "willAppear"@ && (key == "action"@ || key == "context"@ || key == "payload"@)
        ||| tag == "willDisappear"@ && (key == "action"@ || key == "context"@ || key == "payload"@)
        ||| tag == "titleParametersDidChange"@ && (key == "action"@
            || key == "context"@
            || key == "payload"@)
        ||| tag == "deviceDidConnect"@ && (key == "device"@ || key == "deviceInfo"@)
        ||| tag == "deviceDidDisconnect"@ && key == "device"@
        ||| tag == "applicationDidLaunch"@ && key == "payload"@
        ||| tag == "applicationDidTerminate"@ && key == "payload"@
        ||| tag == "sendToPlugin"@ && (key == "action"@ || key == "context"@ || key == "payload"@)
        ||| tag == "didReceiveSettings"@ && (key == "action"@
            || key == "context"@
            || key == "device"@
            || key == "payload"@)
        ||| tag == "propertyInspectorDidAppear"@ && (key == "action"@
            || key == "context"@
            || key == "device"@)
        ||| tag == "propertyInspectorDidDisappear"@ && (key == "action"@
            || key == "context"@
            || key == "device"@)
        ||| tag == "didReceiveGlobalSettings"@ && key == "payload"@
        ||| tag == "touchTap"@ && (key == "action"@
            || key == "context"@
            || key == "device"@
            || key == "payload"@)
        ||| tag == "dialDown"@ && (key == "action"@
            || key == "context"@
            || key == "device"@
            || key == "payload"@)
        ||| tag == "dialUp"@ && (key == "action"@
            || key == "context"@
            || key == "device"@
            || key == "payload"@)
        ||| tag == "dialRotate"@ && (key == "action"@
            || key == "context"@
            || key == "device"@
            || key == "payload"@)
    }

    /// The tag under which the value travels.
    pub open spec fn tag(self) -> Seq<char> {
        match self {
            MessageView::KeyDown { .. } => "keyDown"@,
            MessageView::KeyUp { .. } => "keyUp"@,
            MessageView::WillAppear { .. } => "willAppear"@,
            MessageView::WillDisappear { .. } => "willDisappear"@,
            MessageView::TitleParametersDidChange { .. } => "titleParametersDidChange"@,
            MessageView::DeviceDidConnect { .. } => "deviceDidConnect"@,
            MessageView::DeviceDidDisconnect { .. } => "deviceDidDisconnect"@,
            MessageView::ApplicationDidLaunch { .. } => "applicationDidLaunch"@,
            MessageView::ApplicationDidTerminate { .. } => "applicationDidTerminate"@,
            MessageView::SendToPlugin { .. } => "sendToPlugin"@,
            MessageView::DidReceiveSettings { .. } => "didReceiveSettings"@,
            MessageView::PropertyInspectorDidAppear { .. } => "propertyInspectorDidAppear"@,
            MessageView::PropertyInspectorDidDisappear { .. } => "propertyInspectorDidDisappear"@,
            MessageView::DidReceiveGlobalSettings { .. } => "didReceiveGlobalSettings"@,
            MessageView::SystemDidWakeUp => "systemDidWakeUp"@,
            MessageView::TouchTap { .. } => "touchTap"@,
            MessageView::DialDown { .. } => "dialDown"@,
            MessageView::DialUp { .. } => "dialUp"@,
            MessageView::DialRotate { .. } => "dialRotate"@,
            MessageView::Unknown => "unknown"@,
        }
    }

    /// The JSON document of the value: the tag under `event`, then the fields.
    pub open spec fn to_json(self) -> JsonValue {
        let j = JsonValue::object().with("event"@, JsonValue::Str(self.tag()));
        match self {
            MessageView::KeyDown { action, context, device, payload } => {
                let j = j.with("action"@, JsonValue::Str(action));
                let j = j.with("context"@, JsonValue::Str(context));
                let j = j.with("device"@, JsonValue::Str(device));
                let j = j.with("payload"@, payload.to_json());
                j
            },
            MessageView::KeyUp { action, context, device, payload } => {
                let j = j.with("action"@, JsonValue::Str(action));
                let j = j.with("context"@, JsonValue::Str(context));
                let j = j.with("device"@, JsonValue::Str(device));
                let j = j.with("payload"@, payload.to_json());
                j
            },
            MessageView::WillAppear { action, context, device, payload } => {
                let j = j.with("action"@, JsonValue::Str(action));
                let j = j.with("context"@, JsonValue::Str(context));
                let j = j.with("device"@, JsonValue::text_or_null(device));
                let j = j.with("payload"@, payload.to_json());
                j
            },
            MessageView::WillDisappear { action, context, device, payload } => {
                let j = j.with("action"@, JsonValue::Str(action));
                let j = j.with("context"@, JsonValue::Str(context));
                let j = j.with("device"@, JsonValue::text_or_null(device));
                let j = j.with("payload"@, payload.to_json());
                j
            },
            MessageView::TitleParametersDidChange { action, context, device, payload } => {
                let j = j.with("action"@, JsonValue::Str(action));
                let j = j.with("context"@, JsonValue::Str(context));
                let j = j.with("device"@, JsonValue::text_or_null(device));
                let j = j.with("payload"@, payload.to_json());
                j
            },
            MessageView::DeviceDidConnect { device, device_info } => {
                let j = j.with("device"@, JsonValue::Str(device));
                let j = j.with("deviceInfo"@, device_info.to_json());
                j
            },
            MessageView::DeviceDidDisconnect { device } => {
                let j = j.with("device"@, JsonValue::Str(device));
                j
            },
            MessageView::ApplicationDidLaunch { payload } => {
                let j = j.with("payload"@, payload.to_json());
                j
            },
            MessageView::ApplicationDidTerminate { payload } => {
                let j = j.with("payload"@, payload.to_json());
                j
            },
            MessageView::SendToPlugin { action, context, payload } => {
                let j = j.with("action"@, JsonValue::Str(action));
                let j = j.with("context"@, JsonValue::Str(context));
                let j = j.with("payload"@, payload);
                j
            },
            MessageView::DidReceiveSettings { action, context, device, payload } => {
                let j = j.with("action"@, JsonValue::Str(action));
                let j = j.with("context"@, JsonValue::Str(context));
                let j = j.with("device"@, JsonValue::Str(device));
                let j = j.with("payload"@, payload.to_json());
                j
            },
            MessageView::PropertyInspectorDidAppear { action, context, device } => {
                let j = j.with("action"@, JsonValue::Str(action));
                let j = j.with("context"@, JsonValue::Str(context));
                let j = j.with("device"@, JsonValue::Str(device));
                j
            },
            MessageView::PropertyInspectorDidDisappear { action, context, device } => {
                let j = j.with("action"@, JsonValue::Str(action));
                let j = j.with("context"@, JsonValue::Str(context));
                let j = j.with("device"@, JsonValue::Str(device));
                j
            },
            MessageView::DidReceiveGlobalSettings { payload } => {
                let j = j.with("payload"@, payload.to_json());
                j
            },
            MessageView::SystemDidWakeUp => j,
            MessageView::TouchTap { action, context, device, payload } => {
                let j = j.with("action"@, JsonValue::Str(action));
                let j = j.with("context"@, JsonValue::Str(context));
                let j = j.with("device"@, JsonValue::Str(device));
                let j = j.with("payload"@, payload.to_json());
                j
            },
            MessageView::DialDown { action, context, device, payload } => {
                let j = j.with("action"@, JsonValue::Str(action));
                let j = j.with("context"@, JsonValue::Str(context));
                let j = j.with("device"@, JsonValue::Str(device));
                let j = j.with("payload"@, payload.to_json());
                j
            },
            MessageView::DialUp { action, context, device, payload } => {
                let j = j.with("action"@, JsonValue::Str(action));
                let j = j.with("context"@, JsonValue::Str(context));
                let j = j.with("device"@, JsonValue::Str(device));
                let j = j.with("payload"@, payload.to_json());
                j
            },
            MessageView::DialRotate { action, context, device, payload } => {
                let j = j.with("action"@, JsonValue::Str(action));
                let j = j.with("context"@, JsonValue::Str(context));
                let j = j.with("device"@, JsonValue::Str(device));
                let j = j.with("payload"@, payload.to_json());
                j
            },
            MessageView::Unknown => j,
        }
    }

    /// Whether the value is the one that its own document is read as.
    pub open spec fn canonical(self) -> bool {
        match self {
            MessageView::DeviceDidConnect { device, device_info } => device_info.canonical(),
            _ => true,
        }
    }
}

impl Message<Value, Value, Value> {
    fn key_down_from_json(v: &Value) -> (r: Result<Self, DecodeError>)
        ensures
            decoded(r) == MessageView::key_down_of_json(value_view(*v)),
    {
        let action = text_field(v, "action")?;
        let context = text_field(v, "context")?;
        let device = text_field(v, "device")?;
        let payload = KeyPayload::<Value>::from_json(member(v, "payload")?)?;
        Ok(Message::KeyDown { action, context, device, payload })
    }

    fn key_up_from_json(v: &Value) -> (r: Result<Self, DecodeError>)
        ensures
            decoded(r) == MessageView::key_up_of_json(value_view(*v)),
    {
        let action = text_field(v, "action")?;
        let context = text_field(v, "context")?;
        let device = text_field(v, "device")?;
        let payload = KeyPayload::<Value>::from_json(member(v, "payload")?)?;
        Ok(Message::KeyUp { action, context, device, payload })
    }

    fn will_appear_from_json(v: &Value) -> (r: Result<Self, DecodeError>)
        ensures
            decoded(r) == MessageView::will_appear_of_json(value_view(*v)),
    {
        let action = text_field(v, "action")?;
        let context = text_field(v, "context")?;
        let device = optional_text_field(v, "device")?;
        let payload = VisibilityPayload::<Value>::from_json(member(v, "payload")?)?;
        Ok(Message::WillAppear { action, context, device, payload })
    }

    fn will_disappear_from_json(v: &Value) -> (r: Result<Self, DecodeError>)
        ensures
            decoded(r) == MessageView::will_disappear_of_json(value_view(*v)),
    {
        let action = text_field(v, "action")?;
        let context = text_field(v, "context")?;
        let device = optional_text_field(v, "device")?;
        let payload = VisibilityPayload::<Value>::from_json(member(v, "payload")?)?;
        Ok(Message::WillDisappear { action, context, device, payload })
    }

    fn title_parameters_did_change_from_json(v: &Value) -> (r: Result<Self, DecodeError>)
        ensures
            decoded(r) == MessageView::title_parameters_did_change_of_json(value_view(*v)),
    {
        let action = text_field(v, "action")?;
        let context = text_field(v, "context")?;
        let device = optional_text_field(v, "device")?;
        let payload = TitleParametersPayload::<Value>::from_json(member(v, "payload")?)?;
        Ok(Message::TitleParametersDidChange { action, context, device, payload })
    }

    fn device_did_connect_from_json(v: &Value) -> (r: Result<Self, DecodeError>)
        ensures
            decoded(r) == MessageView::device_did_connect_of_json(value_view(*v)),
    {
        let device = text_field(v, "device")?;
        let device_info = DeviceInfo::from_json(member(v, "deviceInfo")?)?;
        Ok(Message::DeviceDidConnect { device, device_info })
    }

    fn device_did_disconnect_from_json(v: &Value) -> (r: Result<Self, DecodeError>)
        ensures
            decoded(r) == MessageView::device_did_disconnect_of_json(value_view(*v)),
    {
        let device = text_field(v, "device")?;
        Ok(Message::DeviceDidDisconnect { device })
    }

    fn application_did_launch_from_json(v: &Value) -> (r: Result<Self, DecodeError>)
        ensures
            decoded(r) == MessageView::application_did_launch_of_json(value_view(*v)),
    {
        let payload = ApplicationPayload::from_json(member(v, "payload")?)?;
        Ok(Message::ApplicationDidLaunch { payload })
    }

    fn application_did_terminate_from_json(v: &Value) -> (r: Result<Self, DecodeError>)
        ensures
            decoded(r) == MessageView::application_did_terminate_of_json(value_view(*v)),
    {
        let payload = ApplicationPayload::from_json(member(v, "payload")?)?;
        Ok(Message::ApplicationDidTerminate { payload })
    }

    fn send_to_plugin_from_json(v: &Value) -> (r: Result<Self, DecodeError>)
        ensures
            decoded(r) == MessageView::send_to_plugin_of_json(value_view(*v)),
    {
        let action = text_field(v, "action")?;
        let context = text_field(v, "context")?;
        let payload = any_field(v, "payload")?;
        Ok(Message::SendToPlugin { action, context, payload })
    }

    fn did_receive_settings_from_json(v: &Value) -> (r: Result<Self, DecodeError>)
        ensures
            decoded(r) == MessageView::did_receive_settings_of_json(value_view(*v)),
    {
        let action = text_field(v, "action")?;
        let context = text_field(v, "context")?;
        let device = text_field(v, "device")?;
        let payload = KeyPayload::<Value>::from_json(member(v, "payload")?)?;
        Ok(Message::DidReceiveSettings { action, context, device, payload })
    }

    fn property_inspector_did_appear_from_json(v: &Value) -> (r: Result<Self, DecodeError>)
        ensures
            decoded(r) == MessageView::property_inspector_did_appear_of_json(value_view(*v)),
    {
        let action = text_field(v, "action")?;
        let context = text_field(v, "context")?;
        let device = text_field(v, "device")?;
        Ok(Message::PropertyInspectorDidAppear { action, context, device })
    }

    fn property_inspector_did_disappear_from_json(v: &Value) -> (r: Result<Self, DecodeError>)
        ensures
            decoded(r) == MessageView::property_inspector_did_disappear_of_json(value_view(*v)),
    {
        let action = text_field(v, "action")?;
        let context = text_field(v, "context")?;
        let device = text_field(v, "device")?;
        Ok(Message::PropertyInspectorDidDisappear { action, context, device })
    }

    fn did_receive_global_settings_from_json(v: &Value) -> (r: Result<Self, DecodeError>)
        ensures
            decoded(r) == MessageView::did_receive_global_settings_of_json(value_view(*v)),
    {
        let payload = GlobalSettingsPayload::<Value>::from_json(member(v, "payload")?)?;
        Ok(Message::DidReceiveGlobalSettings { payload })
    }

    fn touch_tap_from_json(v: &Value) -> (r: Result<Self, DecodeError>)
        ensures
            decoded(r) == MessageView::touch_tap_of_json(value_view(*v)),
    {
        let action = text_field(v, "action")?;
        let context = text_field(v, "context")?;
        let device = text_field(v, "device")?;
        let payload = TouchTapPayload::<Value>::from_json(member(v, "payload")?)?;
        Ok(Message::TouchTap { action, context, device, payload })
    }

    fn dial_down_from_json(v: &Value) -> (r: Result<Self, DecodeError>)
        ensures
            decoded(r) == MessageView::dial_down_of_json(value_view(*v)),
    {
        let action = text_field(v, "action")?;
        let context = text_field(v, "context")?;
        let device = text_field(v, "device")?;
        let payload = DialDownPayload::<Value>::from_json(member(v, "payload")?)?;
        Ok(Message::DialDown { action, context, device, payload })
    }

    fn dial_up_from_json(v: &Value) -> (r: Result<Self, DecodeError>)
        ensures
            decoded(r) == MessageView::dial_up_of_json(value_view(*v)),
    {
        let action = text_field(v, "action")?;
        let context = text_field(v, "context")?;
        let device = text_field(v, "device")?;
        let payload = DialUpPayload::<Value>::from_json(member(v, "payload")?)?;
        Ok(Message::DialUp { action, context, device, payload })
    }

    fn dial_rotate_from_json(v: &Value) -> (r: Result<Self, DecodeError>)
        ensures
            decoded(r) == MessageView::dial_rotate_of_json(value_view(*v)),
    {
        let action = text_field(v, "action")?;
        let context = text_field(v, "context")?;
        let device = text_field(v, "device")?;
        let payload = DialRotatePayload::<Value>::from_json(member(v, "payload")?)?;
        Ok(Message::DialRotate { action, context, device, payload })
    }

    /// Reads the value from a JSON document.
    pub fn from_json(v: &Value) -> (r: Result<Self, DecodeError>)
        ensures
            decoded(r) == MessageView::of_json(value_view(*v)),
    {
        if !value_is_object(v) {
            return Err(DecodeError::NotAnObject);
        }
        let tag = text_field(v, "event")?;
        let tag = tag.as_str();
        if tag.eq("keyDown") {
            Self::key_down_from_json(v)
        } else if tag.eq("keyUp") {
            Self::key_up_from_json(v)
        } else if tag.eq("willAppear") {
            Self::will_appear_from_json(v)
        } else if tag.eq("willDisappear") {
            Self::will_disappear_from_json(v)
        } else if tag.eq("titleParametersDidChange") {
            Self::title_parameters_did_change_from_json(v)
        } else if tag.eq("deviceDidConnect") {
            Self::device_did_connect_from_json(v)
        } else if tag.eq("deviceDidDisconnect") {
            Self::device_did_disconnect_from_json(v)
        } else if tag.eq("applicationDidLaunch") {
            Self::application_did_launch_from_json(v)
        } else if tag.eq("applicationDidTerminate") {
            Self::application_did_terminate_from_json(v)
        } else if tag.eq("sendToPlugin") {
            Self::send_to_plugin_from_json(v)
        } else if tag.eq("didReceiveSettings") {
            Self::did_receive_settings_from_json(v)
        } else if tag.eq("propertyInspectorDidAppear") {
            Self::property_inspector_did_appear_from_json(v)
        } else if tag.eq("propertyInspectorDidDisappear") {
            Self::property_inspector_did_disappear_from_json(v)
        } else if tag.eq("didReceiveGlobalSettings") {
            Self::did_receive_global_settings_from_json(v)
        } else if tag.eq("systemDidWakeUp") {
            Ok(Message::SystemDidWakeUp)
        } else if tag.eq("touchTap") {
            Self::touch_tap_from_json(v)
        } else if tag.eq("dialDown") {
            Self::dial_down_from_json(v)
        } else if tag.eq("dialUp") {
            Self::dial_up_from_json(v)
        } else if tag.eq("dialRotate") {
            Self::dial_rotate_from_json(v)
        } else {
            Ok(Message::Unknown)
        }
    }

    /// The tag under which the value travels.
    pub fn tag(&self) -> (s: &'static str)
        ensures
            s@ == self@.tag(),
    {
        match self {
            Message::KeyDown { .. } => "keyDown",
            Message::KeyUp { .. } => "keyUp",
            Message::WillAppear { .. } => "willAppear",
            Message::WillDisappear { .. } => "willDisappear",
            Message::TitleParametersDidChange { .. } => "titleParametersDidChange",
            Message::DeviceDidConnect { .. } => "deviceDidConnect",
            Message::DeviceDidDisconnect { .. } => "deviceDidDisconnect",
            Message::ApplicationDidLaunch { .. } => "applicationDidLaunch",
            Message::ApplicationDidTerminate { .. } => "applicationDidTerminate",
            Message::SendToPlugin { .. } => "sendToPlugin",
            Message::DidReceiveSettings { .. } => "didReceiveSettings",
            Message::PropertyInspectorDidAppear { .. } => "propertyInspectorDidAppear",
            Message::PropertyInspectorDidDisappear { .. } => "propertyInspectorDidDisappear",
            Message::DidReceiveGlobalSettings { .. } => "didReceiveGlobalSettings",
            Message::SystemDidWakeUp => "systemDidWakeUp",
            Message::TouchTap { .. } => "touchTap",
            Message::DialDown { .. } => "dialDown",
            Message::DialUp { .. } => "dialUp",
            Message::DialRotate { .. } => "dialRotate",
            Message::Unknown => "unknown",
        }
    }

    /// Writes the value as a JSON document.
    pub fn to_value(&self) -> (v: Value)
        ensures
            value_view(v) == self@.to_json(),
    {
        let mut obj = value_object();
        object_insert(&mut obj, "event", value_str(self.tag()));
        match self {
            Message::KeyDown { action, context, device, payload } => {
                object_insert(&mut obj, "action", value_str(action.as_str()));
                object_insert(&mut obj, "context", value_str(context.as_str()));
                object_insert(&mut obj, "device", value_str(device.as_str()));
                object_insert(&mut obj, "payload", payload.to_value());
            },
            Message::KeyUp { action, context, device, payload } => {
                object_insert(&mut obj, "action", value_str(action.as_str()));
                object_insert(&mut obj, "context", value_str(context.as_str()));
                object_insert(&mut obj, "device", value_str(device.as_str()));
                object_insert(&mut obj, "payload", payload.to_value());
            },
            Message::WillAppear { action, context, device, payload } => {
                object_insert(&mut obj, "action", value_str(action.as_str()));
                object_insert(&mut obj, "context", value_str(context.as_str()));
                object_insert(&mut obj, "device", text_or_null(device));
                object_insert(&mut obj, "payload", payload.to_value());
            },
            Message::WillDisappear { action, context, device, payload } => {
                object_insert(&mut obj, "action", value_str(action.as_str()));
                object_insert(&mut obj, "context", value_str(context.as_str()));
                object_insert(&mut obj, "device", text_or_null(device));
                object_insert(&mut obj, "payload", payload.to_value());
            },
            Message::TitleParametersDidChange { action, context, device, payload } => {
                object_insert(&mut obj, "action", value_str(action.as_str()));
                object_insert(&mut obj, "context", value_str(context.as_str()));
                object_insert(&mut obj, "device", text_or_null(device));
                object_insert(&mut obj, "payload", payload.to_value());
            },
            Message::DeviceDidConnect { device, device_info } => {
                object_insert(&mut obj, "device", value_str(device.as_str()));
                object_insert(&mut obj, "deviceInfo", device_info.to_value());
            },
            Message::DeviceDidDisconnect { device } => {
                object_insert(&mut obj, "device", value_str(device.as_str()));
            },
            Message::ApplicationDidLaunch { payload } => {
                object_insert(&mut obj, "payload", payload.to_value());
            },
            Message::ApplicationDidTerminate { payload } => {
                object_insert(&mut obj, "payload", payload.to_value());
            },
            Message::SendToPlugin { action, context, payload } => {
                object_insert(&mut obj, "action", value_str(action.as_str()));
                object_insert(&mut obj, "context", value_str(context.as_str()));
                object_insert(&mut obj, "payload", value_clone(payload));
            },
            Message::DidReceiveSettings { action, context, device, payload } => {
                object_insert(&mut obj, "action", value_str(action.as_str()));
                object_insert(&mut obj, "context", value_str(context.as_str()));
                object_insert(&mut obj, "device", value_str(device.as_str()));
                object_insert(&mut obj, "payload", payload.to_value());
            },
            Message::PropertyInspectorDidAppear { action, context, device } => {
                object_insert(&mut obj, "action", value_str(action.as_str()));
                object_insert(&mut obj, "context", value_str(context.as_str()));
                object_insert(&mut obj, "device", value_str(device.as_str()));
            },
            Message::PropertyInspectorDidDisappear { action, context, device } => {
                object_insert(&mut obj, "action", value_str(action.as_str()));
                object_insert(&mut obj, "context", value_str(context.as_str()));
                object_insert(&mut obj, "device", value_str(device.as_str()));
            },
            Message::DidReceiveGlobalSettings { payload } => {
                object_insert(&mut obj, "payload", payload.to_value());
            },
            Message::SystemDidWakeUp => {},
            Message::TouchTap { action, context, device, payload } => {
                object_insert(&mut obj, "action", value_str(action.as_str()));
                object_insert(&mut obj, "context", value_str(context.as_str()));
                object_insert(&mut obj, "device", value_str(device.as_str()));
                object_insert(&mut obj, "payload", payload.to_value());
            },
            Message::DialDown { action, context, device, payload } => {
                object_insert(&mut obj, "action", value_str(action.as_str()));
                object_insert(&mut obj, "context", value_str(context.as_str()));
                object_insert(&mut obj, "device", value_str(device.as_str()));
                object_insert(&mut obj, "payload", payload.to_value());
            },
            Message::DialUp { action, context, device, payload } => {
                object_insert(&mut obj, "action", value_str(action.as_str()));
                object_insert(&mut obj, "context", value_str(context.as_str()));
                object_insert(&mut obj, "device", value_str(device.as_str()));
                object_insert(&mut obj, "payload", payload.to_value());
            },
            Message::DialRotate { action, context, device, payload } => {
                object_insert(&mut obj, "action", value_str(action.as_str()));
                object_insert(&mut obj, "context", value_str(context.as_str()));
                object_insert(&mut obj, "device", value_str(device.as_str()));
                object_insert(&mut obj, "payload", payload.to_value());
            },
            Message::Unknown => {},
        }
        obj
    }

    /// Reads the value from the text of a frame: the text has to be JSON, and
    /// the document the wire form of a value.
    pub fn decode(text: &str) -> (r: Result<Self, BadMessage>)
        ensures
            match r {
                Ok(x) => json_parse(text@) matches Some(j) && MessageView::of_json(j) == Ok::<
                    MessageView,
                    DecodeError,
                >(x@),
                Err(BadMessage::Syntax(_)) => json_parse(text@) is None,
                Err(BadMessage::Field(e)) => json_parse(text@) matches Some(j) && MessageView::of_json(
                    j,
                ) == Err::<MessageView, DecodeError>(e),
                Err(BadMessage::Print(_)) => false,
            },
    {
        match parse_value(text) {
            Ok(v) => match Self::from_json(&v) {
                Ok(x) => Ok(x),
                Err(e) => Err(BadMessage::Field(e)),
            },
            Err(e) => Err(BadMessage::Syntax(e)),
        }
    }

    /// Writes the value as the text of one frame.
    pub fn encode(&self) -> (r: Result<String, BadMessage>)
        ensures
            match r {
                Ok(text) => json_text(self@.to_json()) == Some(text@),
                Err(BadMessage::Print(_)) => json_text(self@.to_json()) is None,
                Err(_) => false,
            },
    {
        match print_value(&self.to_value()) {
            Ok(text) => Ok(text),
            Err(e) => Err(BadMessage::Print(e)),
        }
    }
}

/// A document that lacks a member which its tag requires is an error: it is
/// read neither as that kind of value nor as any other.
pub proof fn lemma_message_missing_member(j: JsonValue, tag: Seq<char>, key: Seq<char>)
    requires
        j.get("event"@) == Some(JsonValue::Str(tag)),
        MessageView::requires_member(tag, key),
        j.get(key) is None,
    ensures
        MessageView::of_json(j) is Err,
{
    reveal_strlit("keyDown");
    assert("keyDown"@.len() == 7);
    reveal_strlit("keyUp");
    assert("keyUp"@.len() == 5);
    reveal_strlit("willAppear");
    assert("willAppear"@.len() == 10);
    reveal_strlit("willDisappear");
    assert("willDisappear"@.len() == 13);
    reveal_strlit("titleParametersDidChange");
    assert("titleParametersDidChange"@.len() == 24);
    reveal_strlit("deviceDidConnect");
    assert("deviceDidConnect"@.len() == 16);
    reveal_strlit("deviceDidDisconnect");
    assert("deviceDidDisconnect"@.len() == 19);
    reveal_strlit("applicationDidLaunch");
    assert("applicationDidLaunch"@.len() == 20);
    reveal_strlit("applicationDidTerminate");
    assert("applicationDidTerminate"@.len() == 23);
    reveal_strlit("sendToPlugin");
    assert("sendToPlugin"@.len() == 12);
    reveal_strlit("didReceiveSettings");
    assert("didReceiveSettings"@.len() == 18);
    reveal_strlit("propertyInspectorDidAppear");
    assert("propertyInspectorDidAppear"@.len() == 26);
    reveal_strlit("propertyInspectorDidDisappear");
    assert("propertyInspectorDidDisappear"@.len() == 29);
    reveal_strlit("didReceiveGlobalSettings");
    assert("didReceiveGlobalSettings"@.len() == 24);
    reveal_strlit("systemDidWakeUp");
    assert("systemDidWakeUp"@.len() == 15);
    reveal_strlit("touchTap");
    assert("touchTap"@.len() == 8);
    reveal_strlit("dialDown");
    assert("dialDown"@.len() == 8);
    reveal_strlit("dialUp");
    assert("dialUp"@.len() == 6);
    reveal_strlit("dialRotate");
    assert("dialRotate"@.len() == 10);
    assert("willAppear"@[0] != "dialRotate"@[0]);
    assert("titleParametersDidChange"@[0] != "didReceiveGlobalSettings"@[0]);
    assert("touchTap"@[0] != "dialDown"@[0]);
}

proof fn lemma_message_key_down(x: MessageView)
    requires
        x is KeyDown,
    ensures
        MessageView::of_json(x.to_json()) == Ok::<MessageView, DecodeError>(x),
{
    broadcast use {lemma_get_with, lemma_get_empty};

    reveal_strlit("event");
    assert("event"@.len() == 5);
    reveal_strlit("action");
    assert("action"@.len() == 6);
    reveal_strlit("context");
    assert("context"@.len() == 7);
    reveal_strlit("device");
    assert("device"@.len() == 6);
    reveal_strlit("payload");
    assert("payload"@.len() == 7);
    reveal_strlit("keyDown");
    assert("keyDown"@.len() == 7);
    assert("action"@[0] != "device"@[0]);
    assert("context"@[0] != "payload"@[0]);
    match x {
        MessageView::KeyDown { action, context, device, payload } => {
            lemma_key_payload_round_trip(payload);
        },
        _ => {},
    }
}

proof fn lemma_message_key_up(x: MessageView)
    requires
        x is KeyUp,
    ensures
        MessageView::of_json(x.to_json()) == Ok::<MessageView, DecodeError>(x),
{
    broadcast use {lemma_get_with, lemma_get_empty};

    reveal_strlit("event");
    assert("event"@.len() == 5);
    reveal_strlit("action");
    assert("action"@.len() == 6);
    reveal_strlit("context");
    assert("context"@.len() == 7);
    reveal_strlit("device");
    assert("device"@.len() == 6);
    reveal_strlit("payload");
    assert("payload"@.len() == 7);
    reveal_strlit("keyUp");
    assert("keyUp"@.len() == 5);
    reveal_strlit("keyDown");
    assert("keyDown"@.len() == 7);
    assert("action"@[0] != "device"@[0]);
    assert("context"@[0] != "payload"@[0]);
    match x {
        MessageView::KeyUp { action, context, device, payload } => {
            lemma_key_payload_round_trip(payload);
        },
        _ => {},
    }
}

proof fn lemma_message_will_appear(x: MessageView)
    requires
        x is WillAppear,
    ensures
        MessageView::of_json(x.to_json()) == Ok::<MessageView, DecodeError>(x),
{
    broadcast use {lemma_get_with, lemma_get_empty};

    reveal_strlit("event");
    assert("event"@.len() == 5);
    reveal_strlit("action");
    assert("action"@.len() == 6);
    reveal_strlit("context");
    assert("context"@.len() == 7);
    reveal_strlit("device");
    assert("device"@.len() == 6);
    reveal_strlit("payload");
    assert("payload"@.len() == 7);
    reveal_strlit("willAppear");
    assert("willAppear"@.len() == 10);
    reveal_strlit("keyDown");
    assert("keyDown"@.len() == 7);
    reveal_strlit("keyUp");
    assert("keyUp"@.len() == 5);
    assert("action"@[0] != "device"@[0]);
    assert("context"@[0] != "payload"@[0]);
    match x {
        MessageView::WillAppear { action, context, device, payload } => {
            lemma_visibility_payload_round_trip(payload);
        },
        _ => {},
    }
}

proof fn lemma_message_will_disappear(x: MessageView)
    requires
        x is WillDisappear,
    ensures
        MessageView::of_json(x.to_json()) == Ok::<MessageView, DecodeError>(x),
{
    broadcast use {lemma_get_with, lemma_get_empty};

    reveal_strlit("event");
    assert("event"@.len() == 5);
    reveal_strlit("action");
    assert("action"@.len() == 6);
    reveal_strlit("context");
    assert("context"@.len() == 7);
    reveal_strlit("device");
    assert("device"@.len() == 6);
    reveal_strlit("payload");
    assert("payload"@.len() == 7);
    reveal_strlit("willDisappear");
    assert("willDisappear"@.len() == 13);
    reveal_strlit("keyDown");
    assert("keyDown"@.len() == 7);
    reveal_strlit("keyUp");
    assert("keyUp"@.len() == 5);
    reveal_strlit("willAppear");
    assert("willAppear"@.len() == 10);
    assert("action"@[0] != "device"@[0]);
    assert("context"@[0] != "payload"@[0]);
    match x {
        MessageView::WillDisappear { action, context, device, payload } => {
            lemma_visibility_payload_round_trip(payload);
        },
        _ => {},
    }
}

proof fn lemma_message_title_parameters_did_change(x: MessageView)
    requires
        x is TitleParametersDidChange,
    ensures
        MessageView::of_json(x.to_json()) == Ok::<MessageView, DecodeError>(x),
{
    broadcast use {lemma_get_with, lemma_get_empty};

    reveal_strlit("event");
    assert("event"@.len() == 5);
    reveal_strlit("action");
    assert("action"@.len() == 6);
    reveal_strlit("context");
    assert("context"@.len() == 7);
    reveal_strlit("device");
    assert("device"@.len() == 6);
    reveal_strlit("payload");
    assert("payload"@.len() == 7);
    reveal_strlit("titleParametersDidChange");
    assert("titleParametersDidChange"@.len() == 24);
    reveal_strlit("keyDown");
    assert("keyDown"@.len() == 7);
    reveal_strlit("keyUp");
    assert("keyUp"@.len() == 5);
    reveal_strlit("willAppear");
    assert("willAppear"@.len() == 10);
    reveal_strlit("willDisappear");
    assert("willDisappear"@.len() == 13);
    assert("action"@[0] != "device"@[0]);
    assert("context"@[0] != "payload"@[0]);
    match x {
        MessageView::TitleParametersDidChange { action, context, device, payload } => {
            lemma_title_parameters_payload_round_trip(payload);
        },
        _ => {},
    }
}

proof fn lemma_message_device_did_connect(x: MessageView)
    requires
        x is DeviceDidConnect,
        x.canonical(),
    ensures
        MessageView::of_json(x.to_json()) == Ok::<MessageView, DecodeError>(x),
{
    broadcast use {lemma_get_with, lemma_get_empty};

    reveal_strlit("event");
    assert("event"@.len() == 5);
    reveal_strlit("device");
    assert("device"@.len() == 6);
    reveal_strlit("deviceInfo");
    assert("deviceInfo"@.len() == 10);
    reveal_strlit("deviceDidConnect");
    assert("deviceDidConnect"@.len() == 16);
    reveal_strlit("keyDown");
    assert("keyDown"@.len() == 7);
    reveal_strlit("keyUp");
    assert("keyUp"@.len() == 5);
    reveal_strlit("willAppear");
    assert("willAppear"@.len() == 10);
    reveal_strlit("willDisappear");
    assert("willDisappear"@.len() == 13);
    reveal_strlit("titleParametersDidChange");
    assert("titleParametersDidChange"@.len() == 24);
    match x {
        MessageView::DeviceDidConnect { device, device_info } => {
            lemma_device_info_round_trip(device_info);
        },
        _ => {},
    }
}

proof fn lemma_message_device_did_disconnect(x: MessageView)
    requires
        x is DeviceDidDisconnect,
    ensures
        MessageView::of_json(x.to_json()) == Ok::<MessageView, DecodeError>(x),
{
    broadcast use {lemma_get_with, lemma_get_empty};

    reveal_strlit("event");
    assert("event"@.len() == 5);
    reveal_strlit("device");
    assert("device"@.len() == 6);
    reveal_strlit("deviceDidDisconnect");
    assert("deviceDidDisconnect"@.len() == 19);
    reveal_strlit("keyDown");
    assert("keyDown"@.len() == 7);
    reveal_strlit("keyUp");
    assert("keyUp"@.len() == 5);
    reveal_strlit("willAppear");
    assert("willAppear"@.len() == 10);
    reveal_strlit("willDisappear");
    assert("willDisappear"@.len() == 13);
    reveal_strlit("titleParametersDidChange");
    assert("titleParametersDidChange"@.len() == 24);
    reveal_strlit("deviceDidConnect");
    assert("deviceDidConnect"@.len() == 16);
}

proof fn lemma_message_application_did_launch(x: MessageView)
    requires
        x is ApplicationDidLaunch,
    ensures
        MessageView::of_json(x.to_json()) == Ok::<MessageView, DecodeError>(x),
{
    broadcast use {lemma_get_with, lemma_get_empty};

    reveal_strlit("event");
    assert("event"@.len() == 5);
    reveal_strlit("payload");
    assert("payload"@.len() == 7);
    reveal_strlit("applicationDidLaunch");
    assert("applicationDidLaunch"@.len() == 20);
    reveal_strlit("keyDown");
    assert("keyDown"@.len() == 7);
    reveal_strlit("keyUp");
    assert("keyUp"@.len() == 5);
    reveal_strlit("willAppear");
    assert("willAppear"@.len() == 10);
    reveal_strlit("willDisappear");
    assert("willDisappear"@.len() == 13);
    reveal_strlit("titleParametersDidChange");
    assert("titleParametersDidChange"@.len() == 24);
    reveal_strlit("deviceDidConnect");
    assert("deviceDidConnect"@.len() == 16);
    reveal_strlit("deviceDidDisconnect");
    assert("deviceDidDisconnect"@.len() == 19);
    match x {
        MessageView::ApplicationDidLaunch { payload } => {
            lemma_application_payload_round_trip(payload);
        },
        _ => {},
    }
}

proof fn lemma_message_application_did_terminate(x: MessageView)
    requires
        x is ApplicationDidTerminate,
    ensures
        MessageView::of_json(x.to_json()) == Ok::<MessageView, DecodeError>(x),
{
    broadcast use {lemma_get_with, lemma_get_empty};

    reveal_strlit("event");
    assert("event"@.len() == 5);
    reveal_strlit("payload");
    assert("payload"@.len() == 7);
    reveal_strlit("applicationDidTerminate");
    assert("applicationDidTerminate"@.len() == 23);
    reveal_strlit("keyDown");
    assert("keyDown"@.len() == 7);
    reveal_strlit("keyUp");
    assert("keyUp"@.len() == 5);
    reveal_strlit("willAppear");
    assert("willAppear"@.len() == 10);
    reveal_strlit("willDisappear");
    assert("willDisappear"@.len() == 13);
    reveal_strlit("titleParametersDidChange");
    assert("titleParametersDidChange"@.len() == 24);
    reveal_strlit("deviceDidConnect");
    assert("deviceDidConnect"@.len() == 16);
    reveal_strlit("deviceDidDisconnect");
    assert("deviceDidDisconnect"@.len() == 19);
    reveal_strlit("applicationDidLaunch");
    assert("applicationDidLaunch"@.len() == 20);
    match x {
        MessageView::ApplicationDidTerminate { payload } => {
            lemma_application_payload_round_trip(payload);
        },
        _ => {},
    }
}

proof fn lemma_message_send_to_plugin(x: MessageView)
    requires
        x is SendToPlugin,
    ensures
        MessageView::of_json(x.to_json()) == Ok::<MessageView, DecodeError>(x),
{
    broadcast use {lemma_get_with, lemma_get_empty};

    reveal_strlit("event");
    assert("event"@.len() == 5);
    reveal_strlit("action");
    assert("action"@.len() == 6);
    reveal_strlit("context");
    assert("context"@.len() == 7);
    reveal_strlit("payload");
    assert("payload"@.len() == 7);
    reveal_strlit("sendToPlugin");
    assert("sendToPlugin"@.len() == 12);
    reveal_strlit("keyDown");
    assert("keyDown"@.len() == 7);
    reveal_strlit("keyUp");
    assert("keyUp"@.len() == 5);
    reveal_strlit("willAppear");
    assert("willAppear"@.len() == 10);
    reveal_strlit("willDisappear");
    assert("willDisappear"@.len() == 13);
    reveal_strlit("titleParametersDidChange");
    assert("titleParametersDidChange"@.len() == 24);
    reveal_strlit("deviceDidConnect");
    assert("deviceDidConnect"@.len() == 16);
    reveal_strlit("deviceDidDisconnect");
    assert("deviceDidDisconnect"@.len() == 19);
    reveal_strlit("applicationDidLaunch");
    assert("applicationDidLaunch"@.len() == 20);
    reveal_strlit("applicationDidTerminate");
    assert("applicationDidTerminate"@.len() == 23);
    assert("context"@[0] != "payload"@[0]);
}

proof fn lemma_message_did_receive_settings(x: MessageView)
    requires
        x is DidReceiveSettings,
    ensures
        MessageView::of_json(x.to_json()) == Ok::<MessageView, DecodeError>(x),
{
    broadcast use {lemma_get_with, lemma_get_empty};

    reveal_strlit("event");
    assert("event"@.len() == 5);
    reveal_strlit("action");
    assert("action"@.len() == 6);
    reveal_strlit("context");
    assert("context"@.len() == 7);
    reveal_strlit("device");
    assert("device"@.len() == 6);
    reveal_strlit("payload");
    assert("payload"@.len() == 7);
    reveal_strlit("didReceiveSettings");
    assert("didReceiveSettings"@.len() == 18);
    reveal_strlit("keyDown");
    assert("keyDown"@.len() == 7);
    reveal_strlit("keyUp");
    assert("keyUp"@.len() == 5);
    reveal_strlit("willAppear");
    assert("willAppear"@.len() == 10);
    reveal_strlit("willDisappear");
    assert("willDisappear"@.len() == 13);
    reveal_strlit("titleParametersDidChange");
    assert("titleParametersDidChange"@.len() == 24);
    reveal_strlit("deviceDidConnect");
    assert("deviceDidConnect"@.len() == 16);
    reveal_strlit("deviceDidDisconnect");
    assert("deviceDidDisconnect"@.len() == 19);
    reveal_strlit("applicationDidLaunch");
    assert("applicationDidLaunch"@.len() == 20);
    reveal_strlit("applicationDidTerminate");
    assert("applicationDidTerminate"@.len() == 23);
    reveal_strlit("sendToPlugin");
    assert("sendToPlugin"@.len() == 12);
    assert("action"@[0] != "device"@[0]);
    assert("context"@[0] != "payload"@[0]);
    match x {
        MessageView::DidReceiveSettings { action, context, device, payload } => {
            lemma_key_payload_round_trip(payload);
        },
        _ => {},
    }
}

proof fn lemma_message_property_inspector_did_appear(x: MessageView)
    requires
        x is PropertyInspectorDidAppear,
    ensures
        MessageView::of_json(x.to_json()) == Ok::<MessageView, DecodeError>(x),
{
    broadcast use {lemma_get_with, lemma_get_empty};

    reveal_strlit("event");
    assert("event"@.len() == 5);
    reveal_strlit("action");
    assert("action"@.len() == 6);
    reveal_strlit("context");
    assert("context"@.len() == 7);
    reveal_strlit("device");
    assert("device"@.len() == 6);
    reveal_strlit("propertyInspectorDidAppear");
    assert("propertyInspectorDidAppear"@.len() == 26);
    reveal_strlit("keyDown");
    assert("keyDown"@.len() == 7);
    reveal_strlit("keyUp");
    assert("keyUp"@.len() == 5);
    reveal_strlit("willAppear");
    assert("willAppear"@.len() == 10);
    reveal_strlit("willDisappear");
    assert("willDisappear"@.len() == 13);
    reveal_strlit("titleParametersDidChange");
    assert("titleParametersDidChange"@.len() == 24);
    reveal_strlit("deviceDidConnect");
    assert("deviceDidConnect"@.len() == 16);
    reveal_strlit("deviceDidDisconnect");
    assert("deviceDidDisconnect"@.len() == 19);
    reveal_strlit("applicationDidLaunch");
    assert("applicationDidLaunch"@.len() == 20);
    reveal_strlit("applicationDidTerminate");
    assert("applicationDidTerminate"@.len() == 23);
    reveal_strlit("sendToPlugin");
    assert("sendToPlugin"@.len() == 12);
    reveal_strlit("didReceiveSettings");
    assert("didReceiveSettings"@.len() == 18);
    assert("action"@[0] != "device"@[0]);
}

proof fn lemma_message_property_inspector_did_disappear(x: MessageView)
    requires
        x is PropertyInspectorDidDisappear,
    ensures
        MessageView::of_json(x.to_json()) == Ok::<MessageView, DecodeError>(x),
{
    broadcast use {lemma_get_with, lemma_get_empty};

    reveal_strlit("event");
    assert("event"@.len() == 5);
    reveal_strlit("action");
    assert("action"@.len() == 6);
    reveal_strlit("context");
    assert("context"@.len() == 7);
    reveal_strlit("device");
    assert("device"@.len() == 6);
    reveal_strlit("propertyInspectorDidDisappear");
    assert("propertyInspectorDidDisappear"@.len() == 29);
    reveal_strlit("keyDown");
    assert("keyDown"@.len() == 7);
    reveal_strlit("keyUp");
    assert("keyUp"@.len() == 5);
    reveal_strlit("willAppear");
    assert("willAppear"@.len() == 10);
    reveal_strlit("willDisappear");
    assert("willDisappear"@.len() == 13);
    reveal_strlit("titleParametersDidChange");
    assert("titleParametersDidChange"@.len() == 24);
    reveal_strlit("deviceDidConnect");
    assert("deviceDidConnect"@.len() == 16);
    reveal_strlit("deviceDidDisconnect");
    assert("deviceDidDisconnect"@.len() == 19);
    reveal_strlit("applicationDidLaunch");
    assert("applicationDidLaunch"@.len() == 20);
    reveal_strlit("applicationDidTerminate");
    assert("applicationDidTerminate"@.len() == 23);
    reveal_strlit("sendToPlugin");
    assert("sendToPlugin"@.len() == 12);
    reveal_strlit("didReceiveSettings");
    assert("didReceiveSettings"@.len() == 18);
    reveal_strlit("propertyInspectorDidAppear");
    assert("propertyInspectorDidAppear"@.len() == 26);
    assert("action"@[0] != "device"@[0]);
}

proof fn lemma_message_did_receive_global_settings(x: MessageView)
    requires
        x is DidReceiveGlobalSettings,
    ensures
        MessageView::of_json(x.to_json()) == Ok::<MessageView, DecodeError>(x),
{
    broadcast use {lemma_get_with, lemma_get_empty};

    reveal_strlit("event");
    assert("event"@.len() == 5);
    reveal_strlit("payload");
    assert("payload"@.len() == 7);
    reveal_strlit("didReceiveGlobalSettings");
    assert("didReceiveGlobalSettings"@.len() == 24);
    reveal_strlit("keyDown");
    assert("keyDown"@.len() == 7);
    reveal_strlit("keyUp");
    assert("keyUp"@.len() == 5);
    reveal_strlit("willAppear");
    assert("willAppear"@.len() == 10);
    reveal_strlit("willDisappear");
    assert("willDisappear"@.len() == 13);
    reveal_strlit("titleParametersDidChange");
    assert("titleParametersDidChange"@.len() == 24);
    reveal_strlit("deviceDidConnect");
    assert("deviceDidConnect"@.len() == 16);
    reveal_strlit("deviceDidDisconnect");
    assert("deviceDidDisconnect"@.len() == 19);
    reveal_strlit("applicationDidLaunch");
    assert("applicationDidLaunch"@.len() == 20);
    reveal_strlit("applicationDidTerminate");
    assert("applicationDidTerminate"@.len() == 23);
    reveal_strlit("sendToPlugin");
    assert("sendToPlugin"@.len() == 12);
    reveal_strlit("didReceiveSettings");
    assert("didReceiveSettings"@.len() == 18);
    reveal_strlit("propertyInspectorDidAppear");
    assert("propertyInspectorDidAppear"@.len() == 26);
    reveal_strlit("propertyInspectorDidDisappear");
    assert("propertyInspectorDidDisappear"@.len() == 29);
    assert("didReceiveGlobalSettings"@[0] != "titleParametersDidChange"@[0]);
    match x {
        MessageView::DidReceiveGlobalSettings { payload } => {
            lemma_global_settings_payload_round_trip(payload);
        },
        _ => {},
    }
}

proof fn lemma_message_system_did_wake_up(x: MessageView)
    requires
        x is SystemDidWakeUp,
    ensures
        MessageView::of_json(x.to_json()) == Ok::<MessageView, DecodeError>(x),
{
    broadcast use {lemma_get_with, lemma_get_empty};

    reveal_strlit("event");
    assert("event"@.len() == 5);
    reveal_strlit("systemDidWakeUp");
    assert("systemDidWakeUp"@.len() == 15);
    reveal_strlit("keyDown");
    assert("keyDown"@.len() == 7);
    reveal_strlit("keyUp");
    assert("keyUp"@.len() == 5);
    reveal_strlit("willAppear");
    assert("willAppear"@.len() == 10);
    reveal_strlit("willDisappear");
    assert("willDisappear"@.len() == 13);
    reveal_strlit("titleParametersDidChange");
    assert("titleParametersDidChange"@.len() == 24);
    reveal_strlit("deviceDidConnect");
    assert("deviceDidConnect"@.len() == 16);
    reveal_strlit("deviceDidDisconnect");
    assert("deviceDidDisconnect"@.len() == 19);
    reveal_strlit("applicationDidLaunch");
    assert("applicationDidLaunch"@.len() == 20);
    reveal_strlit("applicationDidTerminate");
    assert("applicationDidTerminate"@.len() == 23);
    reveal_strlit("sendToPlugin");
    assert("sendToPlugin"@.len() == 12);
    reveal_strlit("didReceiveSettings");
    assert("didReceiveSettings"@.len() == 18);
    reveal_strlit("propertyInspectorDidAppear");
    assert("propertyInspectorDidAppear"@.len() == 26);
    reveal_strlit("propertyInspectorDidDisappear");
    assert("propertyInspectorDidDisappear"@.len() == 29);
    reveal_strlit("didReceiveGlobalSettings");
    assert("didReceiveGlobalSettings"@.len() == 24);
}

proof fn lemma_message_touch_tap(x: MessageView)
    requires
        x is TouchTap,
    ensures
        MessageView::of_json(x.to_json()) == Ok::<MessageView, DecodeError>(x),
{
    broadcast use {lemma_get_with, lemma_get_empty};

    reveal_strlit("event");
    assert("event"@.len() == 5);
    reveal_strlit("action");
    assert("action"@.len() == 6);
    reveal_strlit("context");
    assert("context"@.len() == 7);
    reveal_strlit("device");
    assert("device"@.len() == 6);
    reveal_strlit("payload");
    assert("payload"@.len() == 7);
    reveal_strlit("touchTap");
    assert("touchTap"@.len() == 8);
    reveal_strlit("keyDown");
    assert("keyDown"@.len() == 7);
    reveal_strlit("keyUp");
    assert("keyUp"@.len() == 5);
    reveal_strlit("willAppear");
    assert("willAppear"@.len() == 10);
    reveal_strlit("willDisappear");
    assert("willDisappear"@.len() == 13);
    reveal_strlit("titleParametersDidChange");
    assert("titleParametersDidChange"@.len() == 24);
    reveal_strlit("deviceDidConnect");
    assert("deviceDidConnect"@.len() == 16);
    reveal_strlit("deviceDidDisconnect");
    assert("deviceDidDisconnect"@.len() == 19);
    reveal_strlit("applicationDidLaunch");
    assert("applicationDidLaunch"@.len() == 20);
    reveal_strlit("applicationDidTerminate");
    assert("applicationDidTerminate"@.len() == 23);
    reveal_strlit("sendToPlugin");
    assert("sendToPlugin"@.len() == 12);
    reveal_strlit("didReceiveSettings");
    assert("didReceiveSettings"@.len() == 18);
    reveal_strlit("propertyInspectorDidAppear");
    assert("propertyInspectorDidAppear"@.len() == 26);
    reveal_strlit("propertyInspectorDidDisappear");
    assert("propertyInspectorDidDisappear"@.len() == 29);
    reveal_strlit("didReceiveGlobalSettings");
    assert("didReceiveGlobalSettings"@.len() == 24);
    reveal_strlit("systemDidWakeUp");
    assert("systemDidWakeUp"@.len() == 15);
    assert("action"@[0] != "device"@[0]);
    assert("context"@[0] != "payload"@[0]);
    match x {
        MessageView::TouchTap { action, context, device, payload } => {
            lemma_touch_tap_payload_round_trip(payload);
        },
        _ => {},
    }
}

proof fn lemma_message_dial_down(x: MessageView)
    requires
        x is DialDown,
    ensures
        MessageView::of_json(x.to_json()) == Ok::<MessageView, DecodeError>(x),
{
    broadcast use {lemma_get_with, lemma_get_empty};

    reveal_strlit("event");
    assert("event"@.len() == 5);
    reveal_strlit("action");
    assert("action"@.len() == 6);
    reveal_strlit("context");
    assert("context"@.len() == 7);
    reveal_strlit("device");
    assert("device"@.len() == 6);
    reveal_strlit("payload");
    assert("payload"@.len() == 7);
    reveal_strlit("dialDown");
    assert("dialDown"@.len() == 8);
    reveal_strlit("keyDown");
    assert("keyDown"@.len() == 7);
    reveal_strlit("keyUp");
    assert("keyUp"@.len() == 5);
    reveal_strlit("willAppear");
    assert("willAppear"@.len() == 10);
    reveal_strlit("willDisappear");
    assert("willDisappear"@.len() == 13);
    reveal_strlit("titleParametersDidChange");
    assert("titleParametersDidChange"@.len() == 24);
    reveal_strlit("deviceDidConnect");
    assert("deviceDidConnect"@.len() == 16);
    reveal_strlit("deviceDidDisconnect");
    assert("deviceDidDisconnect"@.len() == 19);
    reveal_strlit("applicationDidLaunch");
    assert("applicationDidLaunch"@.len() == 20);
    reveal_strlit("applicationDidTerminate");
    assert("applicationDidTerminate"@.len() == 23);
    reveal_strlit("sendToPlugin");
    assert("sendToPlugin"@.len() == 12);
    reveal_strlit("didReceiveSettings");
    assert("didReceiveSettings"@.len() == 18);
    reveal_strlit("propertyInspectorDidAppear");
    assert("propertyInspectorDidAppear"@.len() == 26);
    reveal_strlit("propertyInspectorDidDisappear");
    assert("propertyInspectorDidDisappear"@.len() == 29);
    reveal_strlit("didReceiveGlobalSettings");
    assert("didReceiveGlobalSettings"@.len() == 24);
    reveal_strlit("systemDidWakeUp");
    assert("systemDidWakeUp"@.len() == 15);
    reveal_strlit("touchTap");
    assert("touchTap"@.len() == 8);
    assert("action"@[0] != "device"@[0]);
    assert("context"@[0] != "payload"@[0]);
    assert("dialDown"@[0] != "touchTap"@[0]);
    match x {
        MessageView::DialDown { action, context, device, payload } => {
            lemma_dial_down_payload_round_trip(payload);
        },
        _ => {},
    }
}

proof fn lemma_message_dial_up(x: MessageView)
    requires
        x is DialUp,
    ensures
        MessageView::of_json(x.to_json()) == Ok::<MessageView, DecodeError>(x),
{
    broadcast use {lemma_get_with, lemma_get_empty};

    reveal_strlit("event");
    assert("event"@.len() == 5);
    reveal_strlit("action");
    assert("action"@.len() == 6);
    reveal_strlit("context");
    assert("context"@.len() == 7);
    reveal_strlit("device");
    assert("device"@.len() == 6);
    reveal_strlit("payload");
    assert("payload"@.len() == 7);
    reveal_strlit("dialUp");
    assert("dialUp"@.len() == 6);
    reveal_strlit("keyDown");
    assert("keyDown"@.len() == 7);
    reveal_strlit("keyUp");
    assert("keyUp"@.len() == 5);
    reveal_strlit("willAppear");
    assert("willAppear"@.len() == 10);
    reveal_strlit("willDisappear");
    assert("willDisappear"@.len() == 13);
    reveal_strlit("titleParametersDidChange");
    assert("titleParametersDidChange"@.len() == 24);
    reveal_strlit("deviceDidConnect");
    assert("deviceDidConnect"@.len() == 16);
    reveal_strlit("deviceDidDisconnect");
    assert("deviceDidDisconnect"@.len() == 19);
    reveal_strlit("applicationDidLaunch");
    assert("applicationDidLaunch"@.len() == 20);
    reveal_strlit("applicationDidTerminate");
    assert("applicationDidTerminate"@.len() == 23);
    reveal_strlit("sendToPlugin");
    assert("sendToPlugin"@.len() == 12);
    reveal_strlit("didReceiveSettings");
    assert("didReceiveSettings"@.len() == 18);
    reveal_strlit("propertyInspectorDidAppear");
    assert("propertyInspectorDidAppear"@.len() == 26);
    reveal_strlit("propertyInspectorDidDisappear");
    assert("propertyInspectorDidDisappear"@.len() == 29);
    reveal_strlit("didReceiveGlobalSettings");
    assert("didReceiveGlobalSettings"@.len() == 24);
    reveal_strlit("systemDidWakeUp");
    assert("systemDidWakeUp"@.len() == 15);
    reveal_strlit("touchTap");
    assert("touchTap"@.len() == 8);
    reveal_strlit("dialDown");
    assert("dialDown"@.len() == 8);
    assert("action"@[0] != "device"@[0]);
    assert("context"@[0] != "payload"@[0]);
    match x {
        MessageView::DialUp { action, context, device, payload } => {
            lemma_dial_up_payload_round_trip(payload);
        },
        _ => {},
    }
}

proof fn lemma_message_dial_rotate(x: MessageView)
    requires
        x is DialRotate,
    ensures
        MessageView::of_json(x.to_json()) == Ok::<MessageView, DecodeError>(x),
{
    broadcast use {lemma_get_with, lemma_get_empty};

    reveal_strlit("event");
    assert("event"@.len() == 5);
    reveal_strlit("action");
    assert("action"@.len() == 6);
    reveal_strlit("context");
    assert("context"@.len() == 7);
    reveal_strlit("device");
    assert("device"@.len() == 6);
    reveal_strlit("payload");
    assert("payload"@.len() == 7);
    reveal_strlit("dialRotate");
    assert("dialRotate"@.len() == 10);
    reveal_strlit("keyDown");
    assert("keyDown"@.len() == 7);
    reveal_strlit("keyUp");
    assert("keyUp"@.len() == 5);
    reveal_strlit("willAppear");
    assert("willAppear"@.len() == 10);
    reveal_strlit("willDisappear");
    assert("willDisappear"@.len() == 13);
    reveal_strlit("titleParametersDidChange");
    assert("titleParametersDidChange"@.len() == 24);
    reveal_strlit("deviceDidConnect");
    assert("deviceDidConnect"@.len() == 16);
    reveal_strlit("deviceDidDisconnect");
    assert("deviceDidDisconnect"@.len() == 19);
    reveal_strlit("applicationDidLaunch");
    assert("applicationDidLaunch"@.len() == 20);
    reveal_strlit("applicationDidTerminate");
    assert("applicationDidTerminate"@.len() == 23);
    reveal_strlit("sendToPlugin");
    assert("sendToPlugin"@.len() == 12);
    reveal_strlit("didReceiveSettings");
    assert("didReceiveSettings"@.len() == 18);
    reveal_strlit("propertyInspectorDidAppear");
    assert("propertyInspectorDidAppear"@.len() == 26);
    reveal_strlit("propertyInspectorDidDisappear");
    assert("propertyInspectorDidDisappear"@.len() == 29);
    reveal_strlit("didReceiveGlobalSettings");
    assert("didReceiveGlobalSettings"@.len() == 24);
    reveal_strlit("systemDidWakeUp");
    assert("systemDidWakeUp"@.len() == 15);
    reveal_strlit("touchTap");
    assert("touchTap"@.len() == 8);
    reveal_strlit("dialDown");
    assert("dialDown"@.len() == 8);
    reveal_strlit("dialUp");
    assert("dialUp"@.len() == 6);
    assert("action"@[0] != "device"@[0]);
    assert("context"@[0] != "payload"@[0]);
    assert("dialRotate"@[0] != "willAppear"@[0]);
    match x {
        MessageView::DialRotate { action, context, device, payload } => {
            lemma_dial_rotate_payload_round_trip(payload);
        },
        _ => {},
    }
}

proof fn lemma_message_unknown(x: MessageView)
    requires
        x is Unknown,
    ensures
        MessageView::of_json(x.to_json()) == Ok::<MessageView, DecodeError>(x),
{
    broadcast use {lemma_get_with, lemma_get_empty};

    reveal_strlit("event");
    assert("event"@.len() == 5);
    reveal_strlit("unknown");
    assert("unknown"@.len() == 7);
    reveal_strlit("keyDown");
    assert("keyDown"@.len() == 7);
    reveal_strlit("keyUp");
    assert("keyUp"@.len() == 5);
    reveal_strlit("willAppear");
    assert("willAppear"@.len() == 10);
    reveal_strlit("willDisappear");
    assert("willDisappear"@.len() == 13);
    reveal_strlit("titleParametersDidChange");
    assert("titleParametersDidChange"@.len() == 24);
    reveal_strlit("deviceDidConnect");
    assert("deviceDidConnect"@.len() == 16);
    reveal_strlit("deviceDidDisconnect");
    assert("deviceDidDisconnect"@.len() == 19);
    reveal_strlit("applicationDidLaunch");
    assert("applicationDidLaunch"@.len() == 20);
    reveal_strlit("applicationDidTerminate");
    assert("applicationDidTerminate"@.len() == 23);
    reveal_strlit("sendToPlugin");
    assert("sendToPlugin"@.len() == 12);
    reveal_strlit("didReceiveSettings");
    assert("didReceiveSettings"@.len() == 18);
    reveal_strlit("propertyInspectorDidAppear");
    assert("propertyInspectorDidAppear"@.len() == 26);
    reveal_strlit("propertyInspectorDidDisappear");
    assert("propertyInspectorDidDisappear"@.len() == 29);
    reveal_strlit("didReceiveGlobalSettings");
    assert("didReceiveGlobalSettings"@.len() == 24);
    reveal_strlit("systemDidWakeUp");
    assert("systemDidWakeUp"@.len() == 15);
    reveal_strlit("touchTap");
    assert("touchTap"@.len() == 8);
    reveal_strlit("dialDown");
    assert("dialDown"@.len() == 8);
    reveal_strlit("dialUp");
    assert("dialUp"@.len() == 6);
    reveal_strlit("dialRotate");
    assert("dialRotate"@.len() == 10);
    assert("unknown"@[0] != "keyDown"@[0]);
}

/// A canonical value is read back from its own document as it was.
pub proof fn lemma_message_round_trip(x: MessageView)
    requires
        x.canonical(),
    ensures
        MessageView::of_json(x.to_json()) == Ok::<MessageView, DecodeError>(x),
{
    match x {
        MessageView::KeyDown { .. } => lemma_message_key_down(x),
        MessageView::KeyUp { .. } => lemma_message_key_up(x),
        MessageView::WillAppear { .. } => lemma_message_will_appear(x),
        MessageView::WillDisappear { .. } => lemma_message_will_disappear(x),
        MessageView::TitleParametersDidChange { .. } => {
            lemma_message_title_parameters_did_change(x);
        },
        MessageView::DeviceDidConnect { .. } => lemma_message_device_did_connect(x),
        MessageView::DeviceDidDisconnect { .. } => lemma_message_device_did_disconnect(x),
        MessageView::ApplicationDidLaunch { .. } => lemma_message_application_did_launch(x),
        MessageView::ApplicationDidTerminate { .. } => lemma_message_application_did_terminate(x),
        MessageView::SendToPlugin { .. } => lemma_message_send_to_plugin(x),
        MessageView::DidReceiveSettings { .. } => lemma_message_did_receive_settings(x),
        MessageView::PropertyInspectorDidAppear { .. } => {
            lemma_message_property_inspector_did_appear(x);
        },
        MessageView::PropertyInspectorDidDisappear { .. } => {
            lemma_message_property_inspector_did_disappear(x);
        },
        MessageView::DidReceiveGlobalSettings { .. } => {
            lemma_message_did_receive_global_settings(x);
        },
        MessageView::SystemDidWakeUp => lemma_message_system_did_wake_up(x),
        MessageView::TouchTap { .. } => lemma_message_touch_tap(x),
        MessageView::DialDown { .. } => lemma_message_dial_down(x),
        MessageView::DialUp { .. } => lemma_message_dial_up(x),
        MessageView::DialRotate { .. } => lemma_message_dial_rotate(x),
        MessageView::Unknown => lemma_message_unknown(x),
    }
}

/// A document whose tag is a string outside the catalogue is read as
/// `Unknown`, whatever else it holds: it is never an error.
pub proof fn lemma_unrecognized_tag_is_unknown(j: JsonValue, tag: Seq<char>)
    requires
        j is Object,
        j.get("event"@) == Some(JsonValue::Str(tag)),
        !MessageView::recognized(tag),
    ensures
        MessageView::of_json(j) == Ok::<MessageView, DecodeError>(MessageView::Unknown),
{
}

/// A document whose tag is in the catalogue is never read as `Unknown`: it
/// is read as the event that the tag names, or it is an error.
pub proof fn lemma_recognized_tag_is_never_unknown(j: JsonValue, tag: Seq<char>)
    requires
        j.get("event"@) == Some(JsonValue::Str(tag)),
        MessageView::recognized(tag),
    ensures
        !(MessageView::of_json(j) matches Ok(MessageView::Unknown)),
        MessageView::of_json(j) matches Ok(m) ==> m.tag() == tag,
{
}

/// A document that lacks its tag, or whose tag is no string, is an error.
pub proof fn lemma_tag_is_required(j: JsonValue)
    requires
        !(j.get("event"@) matches Some(JsonValue::Str(_))),
    ensures
        MessageView::of_json(j) is Err,
{
}

} // verus!
