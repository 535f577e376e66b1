//! Typed messages of a control-surface plugin protocol, carried as JSON text
//! frames over a WebSocket, with the rules for decoding and encoding them.

pub mod color;
pub mod json;
pub mod logging;
pub mod message;
pub mod message_out;
pub mod payload;
pub mod property_inspector;
pub mod registration;
pub mod socket;

pub use crate::color::Color;
pub use crate::message::Message;
pub use crate::message_out::MessageOut;
pub use crate::payload::{
    Alignment, ApplicationPayload, Coordinates, DeviceInfo, DeviceSize, DeviceType,
    DialDownPayload, DialRotatePayload, DialUpPayload, GlobalSettingsPayload, ImagePayload,
    KeyPayload, LogMessagePayload, ProfilePayload, SetFeedbackLayoutPayload,
    SetTriggerDescriptionPayload, StatePayload, Target, TitleParameters, TitleParametersPayload,
    TitlePayload, TouchTapPayload, UrlPayload, VisibilityPayload,
};
pub use crate::registration::RegistrationInfo;
pub use crate::socket::Handshake;
