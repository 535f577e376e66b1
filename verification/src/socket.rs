//! The rules of the duplex socket: where to connect, the steps that open a
//! connection, and what becomes of each frame that arrives or leaves.
//!
//! Nothing here touches the network. The caller owns the transport, reports
//! what happened on it, and carries out what these functions decide.

use crate::json::{
    json_parse, json_text, object_insert, print_value, value_object, value_str, value_view,
    BadMessage, DecodeError, JsonValue,
};
use crate::message::{Message, MessageView};
use crate::message_out::MessageOut;
use serde_json::Value;
use vstd::prelude::*;
use vstd::std_specs::convert::FromSpecImpl;

verus! {

/// The scheme of an address. Plain WebSocket is the one that is supported.
#[derive(Debug, Clone, Copy, PartialEq, Eq)]
pub enum Scheme {
    /// `ws`
    Ws,
}

/// The host of an address.
#[derive(Debug, Clone, PartialEq, Eq)]
pub enum Host {
    /// This machine, `localhost`.
    Loopback,
    /// The host of an explicit URL, as it was given.
    Named(String),
}

/// Where to connect.
#[derive(Debug, Clone, PartialEq, Eq)]
pub struct Address {
    pub scheme: Scheme,
    pub host: Host,
    pub port: u16,
}

/// Why an input is no address.
#[derive(Debug, Clone, Copy, PartialEq, Eq)]
pub enum AddressError {
    /// The scheme of the URL is not the supported one.
    UnsupportedScheme,
}

impl Host {
    /// The name of the host.
    pub open spec fn name(self) -> Seq<char> {
        match self {
            Host::Loopback => "localhost"@,
            Host::Named(name) => name@,
        }
    }

    /// The name of the host.
    pub fn as_text(&self) -> (s: &str)
        ensures
            s@ == self.name(),
    {
        match self {
            Host::Loopback => "localhost",
            Host::Named(name) => name.as_str(),
        }
    }
}

impl Scheme {
    /// The scheme as it stands in a URL.
    pub open spec fn name(self) -> Seq<char> {
        match self {
            Scheme::Ws => "ws"@,
        }
    }

    /// The scheme as it stands in a URL.
    pub fn as_text(&self) -> (s: &'static str)
        ensures
            s@ == self.name(),
    {
        match self {
            Scheme::Ws => "ws",
        }
    }
}

impl Address {
    /// The loopback address on a port.
    pub open spec fn loopback(port: u16) -> Address {
        Address { scheme: Scheme::Ws, host: Host::Loopback, port }
    }

    /// The address of the plugin socket that the host software opened on
    /// `port` of this machine.
    pub fn from_port(port: u16) -> (r: Address)
        ensures
            r == Address::loopback(port),
    {
        Address { scheme: Scheme::Ws, host: Host::Loopback, port }
    }

    /// The address that the parts of an explicit URL give. The URL is taken
    /// as it is; only its scheme is held against the supported one.
    pub fn from_url_parts(scheme: &str, host: String, port: u16) -> (r: Result<
        Address,
        AddressError,
    >)
        ensures
            match r {
                Ok(address) => scheme@ == "ws"@ && address == (Address {
                    scheme: Scheme::Ws,
                    host: Host::Named(host),
                    port,
                }),
                Err(AddressError::UnsupportedScheme) => scheme@ != "ws"@,
            },
    {
        if scheme.eq("ws") {
            Ok(Address { scheme: Scheme::Ws, host: Host::Named(host), port })
        } else {
            Err(AddressError::UnsupportedScheme)
        }
    }
}

impl From<u16> for Address {
    fn from(port: u16) -> (r: Address) {
        Address::from_port(port)
    }
}

impl FromSpecImpl<u16> for Address {
    open spec fn obeys_from_spec() -> bool {
        true
    }

    open spec fn from_spec(port: u16) -> Address {
        Address::loopback(port)
    }
}

/// What the transport reports of a failure, in words.
#[derive(Debug, Clone, PartialEq, Eq)]
pub struct TransportError {
    pub message: String,
}

/// An error in reading or writing the socket.
#[derive(Debug)]
pub enum StreamDeckSocketError {
    /// The transport failed. The connection is of no further use.
    WebSocketError(TransportError),
    /// One message could not be decoded or encoded. The connection stays
    /// open, and the messages around it are not touched.
    BadMessage(BadMessage),
}

/// Why a connection could not be opened.
#[derive(Debug, Clone, PartialEq, Eq)]
pub enum ConnectError {
    /// The transport could not connect.
    ConnectionError(TransportError),
    /// The upgrade to the WebSocket protocol failed.
    ProtocolError(TransportError),
    /// The registration could not be sent.
    SendError(TransportError),
}

/// A frame of the transport.
#[derive(Debug, Clone, PartialEq, Eq)]
pub enum Frame {
    Text(String),
    Binary(Vec<u8>),
    Ping(Vec<u8>),
    Pong(Vec<u8>),
    Close,
    Raw,
}

/// What the transport answers when it is asked for the next frame.
#[derive(Debug, Clone, PartialEq, Eq)]
pub enum Polled {
    /// A frame arrived.
    Frame(Frame),
    /// The transport failed.
    Failed(TransportError),
    /// The transport was closed.
    Closed,
    /// Nothing has arrived yet.
    Pending,
}

/// What the socket makes of an answer of the transport.
#[derive(Debug)]
pub enum Received {
    /// The next item of the inbound sequence.
    Item(
        Result<
            Message<Value, Value, Value>,
            StreamDeckSocketError,
        >,
    ),
    /// Nothing to hand on: ask the transport again.
    Skip,
    /// The inbound sequence has ended.
    End,
    /// Nothing has arrived yet.
    Pending,
}

/// Whether `item` is what the text of a frame is read as: the event that the
/// text denotes, or the reason why it denotes none.
pub open spec fn reads_as(
    text: Seq<char>,
    item: Result<
        Message<Value, Value, Value>,
        StreamDeckSocketError,
    >,
) -> bool {
    match item {
        Ok(m) => json_parse(text) matches Some(j) && MessageView::of_json(j) == Ok::<
            MessageView,
            DecodeError,
        >(m@),
        Err(StreamDeckSocketError::BadMessage(BadMessage::Syntax(_))) => json_parse(text) is None,
        Err(StreamDeckSocketError::BadMessage(BadMessage::Field(e))) => json_parse(text) matches Some(
            j,
        ) && MessageView::of_json(j) == Err::<MessageView, DecodeError>(e),
        Err(_) => false,
    }
}

/// The texts of the text frames among `frames`, in order.
pub open spec fn texts(frames: Seq<Frame>) -> Seq<Seq<char>>
    decreases frames.len(),
{
    if frames.len() == 0 {
        Seq::empty()
    } else {
        match frames.last() {
            Frame::Text(text) => texts(frames.drop_last()).push(text@),
            _ => texts(frames.drop_last()),
        }
    }
}

fn read_text(text: &str) -> (item: Result<
    Message<Value, Value, Value>,
    StreamDeckSocketError,
>)
    ensures
        reads_as(text@, item),
{
    match Message::decode(text) {
        Ok(m) => Ok(m),
        Err(e) => Err(StreamDeckSocketError::BadMessage(e)),
    }
}

/// Decides what an answer of the transport means for the inbound sequence.
///
/// A text frame gives one item, the event or the reason why the frame is
/// none. Any other frame gives neither an item nor an error. A failure of
/// the transport is handed on, and the end of the transport ends the
/// sequence.
pub fn receive(polled: Polled) -> (r: Received)
    ensures
        match polled {
            Polled::Frame(Frame::Text(text)) => r matches Received::Item(item) && reads_as(
                text@,
                item,
            ),
            Polled::Frame(_) => r is Skip,
            Polled::Failed(e) => r matches Received::Item(
                Err(StreamDeckSocketError::WebSocketError(x)),
            ) && x == e,
            Polled::Closed => r is End,
            Polled::Pending => r is Pending,
        },
{
    match polled {
        Polled::Frame(Frame::Text(text)) => Received::Item(read_text(text.as_str())),
        Polled::Frame(_) => Received::Skip,
        Polled::Failed(e) => Received::Item(Err(StreamDeckSocketError::WebSocketError(e))),
        Polled::Closed => Received::End,
        Polled::Pending => Received::Pending,
    }
}

/// The items that a run of frames gives: one for each text frame, in order,
/// and nothing for any other frame. Each item depends on its own frame alone.
pub fn receive_all(frames: &Vec<Frame>) -> (items: Vec<
    Result<Message<Value, Value, Value>, StreamDeckSocketError>,
>)
    ensures
        items@.len() == texts(frames@).len(),
        forall|i: int| 0 <= i < items@.len() ==> reads_as(#[trigger] texts(frames@)[i], items@[i]),
{
    let mut items = Vec::new();
    let mut at: usize = 0;
    while at < frames.len()
        invariant
            at <= frames.len(),
            items@.len() == texts(frames@.take(at as int)).len(),
            forall|i: int|
                0 <= i < items@.len() ==> reads_as(
                    #[trigger] texts(frames@.take(at as int))[i],
                    items@[i],
                ),
        decreases frames.len() - at,
    {
        assert(frames@.take(at + 1).drop_last() == frames@.take(at as int));
        assert(frames@.take(at + 1).last() == frames@[at as int]);
        match &frames[at] {
            Frame::Text(text) => {
                items.push(read_text(text.as_str()));
            },
            _ => {},
        }
        at = at + 1;
    }
    assert(frames@.take(at as int) == frames@);
    items
}

/// The frame that carries a command: always one text frame, which holds the
/// printed document of the command.
pub fn send_frame(
    command: &MessageOut<Value, Value, Value>,
) -> (r: Result<Frame, StreamDeckSocketError>)
    ensures
        match r {
            Ok(Frame::Text(text)) => json_text(command@.to_json()) == Some(text@),
            Ok(_) => false,
            Err(StreamDeckSocketError::BadMessage(BadMessage::Print(_))) => json_text(
                command@.to_json(),
            ) is None,
            Err(_) => false,
        },
{
    match command.encode() {
        Ok(text) => Ok(Frame::Text(text)),
        Err(e) => Err(StreamDeckSocketError::BadMessage(e)),
    }
}

/// Whether an open socket is still of use.
#[derive(Debug, Clone, Copy, PartialEq, Eq)]
pub enum SocketState {
    /// Frames come and go.
    Open,
    /// The transport was closed.
    Closed,
    /// The transport failed.
    Errored,
}

/// An open socket, as far as its state goes. The inbound sequence cannot be
/// started again: once the transport has closed or failed, nothing more is
/// read and nothing more is sent.
#[derive(Debug, Clone, Copy, PartialEq, Eq)]
pub struct Connection {
    pub state: SocketState,
}

/// The state of a socket after the transport gave an answer.
pub open spec fn state_on(state: SocketState, polled: Polled) -> SocketState {
    match (state, polled) {
        (SocketState::Open, Polled::Failed(_)) => SocketState::Errored,
        (SocketState::Open, Polled::Closed) => SocketState::Closed,
        _ => state,
    }
}

impl Connection {
    /// The socket as the handshake leaves it.
    pub fn open() -> (r: Connection)
        ensures
            r.state == SocketState::Open,
    {
        Connection { state: SocketState::Open }
    }

    /// Whether the transport may still be asked for frames and given some.
    pub fn is_open(&self) -> (r: bool)
        ensures
            r == (self.state == SocketState::Open),
    {
        match self.state {
            SocketState::Open => true,
            _ => false,
        }
    }

    /// Decides what an answer of the transport means, as [`receive`] does,
    /// and notes the end or the failure of the transport. On a socket that is
    /// no longer open the answer is not looked at: the sequence has ended.
    pub fn receive(&mut self, polled: Polled) -> (r: Received)
        ensures
            final(self).state == state_on(old(self).state, polled),
            old(self).state != SocketState::Open ==> r is End,
            old(self).state == SocketState::Open ==> match polled {
                Polled::Frame(Frame::Text(text)) => r matches Received::Item(item) && reads_as(
                    text@,
                    item,
                ),
                Polled::Frame(_) => r is Skip,
                Polled::Failed(e) => r matches Received::Item(
                    Err(StreamDeckSocketError::WebSocketError(x)),
                ) && x == e,
                Polled::Closed => r is End,
                Polled::Pending => r is Pending,
            },
    {
        if !self.is_open() {
            return Received::End;
        }
        match &polled {
            Polled::Failed(_) => {
                self.state = SocketState::Errored;
            },
            Polled::Closed => {
                self.state = SocketState::Closed;
            },
            _ => {},
        }
        receive(polled)
    }

    /// The frame that carries a command, as [`send_frame`] makes it, or
    /// `None` where the socket is no longer open. A command that cannot be
    /// made a frame leaves the socket as it is.
    pub fn send(
        &self,
        command: &MessageOut<Value, Value, Value>,
    ) -> (r: Option<Result<Frame, StreamDeckSocketError>>)
        ensures
            r is None <==> self.state != SocketState::Open,
            r matches Some(frame) ==> match frame {
                Ok(Frame::Text(text)) => json_text(command@.to_json()) == Some(text@),
                Ok(_) => false,
                Err(StreamDeckSocketError::BadMessage(BadMessage::Print(_))) => json_text(
                    command@.to_json(),
                ) is None,
                Err(_) => false,
            },
    {
        if self.is_open() {
            Some(send_frame(command))
        } else {
            None
        }
    }

    /// Notes that the transport failed while a frame was sent.
    pub fn send_failed(&mut self)
        ensures
            final(self).state == if old(self).state == SocketState::Open {
                SocketState::Errored
            } else {
                old(self).state
            },
    {
        if self.is_open() {
            self.state = SocketState::Errored;
        }
    }
}

/// The state of a socket after a run of answers of the transport.
pub open spec fn state_after_answers(state: SocketState, answers: Seq<Polled>) -> SocketState
    decreases answers.len(),
{
    if answers.len() == 0 {
        state
    } else {
        state_on(state_after_answers(state, answers.drop_last()), answers.last())
    }
}

/// A socket that has closed or failed stays so, whatever the transport
/// answers afterwards.
pub proof fn lemma_socket_does_not_reopen(state: SocketState, answers: Seq<Polled>)
    requires
        state != SocketState::Open,
    ensures
        state_after_answers(state, answers) == state,
    decreases answers.len(),
{
    if answers.len() > 0 {
        lemma_socket_does_not_reopen(state, answers.drop_last());
    }
}

/// The document of the registration: the event name under `event`, the uuid
/// of the plugin under `uuid`, and nothing else.
pub open spec fn registration_json(event: Seq<char>, uuid: Seq<char>) -> JsonValue {
    JsonValue::object().with("event"@, JsonValue::Str(event)).with("uuid"@, JsonValue::Str(uuid))
}

/// The text of the registration frame.
pub fn registration_frame(event: &str, uuid: &str) -> (r: Result<String, BadMessage>)
    ensures
        match r {
            Ok(text) => json_text(registration_json(event@, uuid@)) == Some(text@),
            Err(BadMessage::Print(_)) => json_text(registration_json(event@, uuid@)) is None,
            Err(_) => false,
        },
{
    let mut obj = value_object();
    object_insert(&mut obj, "event", value_str(event));
    object_insert(&mut obj, "uuid", value_str(uuid));
    match print_value(&obj) {
        Ok(text) => Ok(text),
        Err(e) => Err(BadMessage::Print(e)),
    }
}

/// How far the opening of a connection has come.
#[derive(Debug, Clone, Copy, PartialEq, Eq)]
pub enum ConnectState {
    /// The transport is being connected.
    Connecting,
    /// The upgrade to the WebSocket protocol is under way.
    Negotiating,
    /// The registration is being sent.
    Registering,
    /// The socket is open.
    Ready,
    /// The attempt has failed.
    Failed,
}

/// What the caller reports of the transport while a connection is opened.
#[derive(Debug, Clone, PartialEq, Eq)]
pub enum ConnectEvent {
    /// The transport is connected.
    Connected,
    /// The transport could not connect.
    ConnectFailed(TransportError),
    /// The upgrade is done.
    Upgraded,
    /// The upgrade failed.
    UpgradeFailed(TransportError),
    /// The frame was sent.
    Sent,
    /// The frame could not be sent.
    SendFailed(TransportError),
}

/// What the caller is to do next.
#[derive(Debug, Clone, PartialEq, Eq)]
pub enum ConnectAction {
    /// Switch the coalescing of small writes off, then upgrade the
    /// connection to the WebSocket protocol.
    Upgrade,
    /// Send this text as one text frame.
    Send(String),
    /// The socket is open: hand it out.
    Finish,
    /// Give the attempt up with this error, and drop the transport.
    Fail(ConnectError),
    /// The report does not belong to this step: do nothing.
    Ignore,
}

/// The state that follows `state` on `event`.
pub open spec fn next_state(state: ConnectState, event: ConnectEvent) -> ConnectState {
    match (state, event) {
        (ConnectState::Connecting, ConnectEvent::Connected) => ConnectState::Negotiating,
        (ConnectState::Connecting, ConnectEvent::ConnectFailed(_)) => ConnectState::Failed,
        (ConnectState::Negotiating, ConnectEvent::Upgraded) => ConnectState::Registering,
        (ConnectState::Negotiating, ConnectEvent::UpgradeFailed(_)) => ConnectState::Failed,
        (ConnectState::Registering, ConnectEvent::Sent) => ConnectState::Ready,
        (ConnectState::Registering, ConnectEvent::SendFailed(_)) => ConnectState::Failed,
        _ => state,
    }
}

/// What is to be done when `event` arrives in `state`, with `frame` the
/// text of the registration.
pub open spec fn next_action(state: ConnectState, event: ConnectEvent, frame: String) -> ConnectAction {
    match (state, event) {
        (ConnectState::Connecting, ConnectEvent::Connected) => ConnectAction::Upgrade,
        (ConnectState::Connecting, ConnectEvent::ConnectFailed(e)) => ConnectAction::Fail(
            ConnectError::ConnectionError(e),
        ),
        (ConnectState::Negotiating, ConnectEvent::Upgraded) => ConnectAction::Send(frame),
        (ConnectState::Negotiating, ConnectEvent::UpgradeFailed(e)) => ConnectAction::Fail(
            ConnectError::ProtocolError(e),
        ),
        (ConnectState::Registering, ConnectEvent::Sent) => ConnectAction::Finish,
        (ConnectState::Registering, ConnectEvent::SendFailed(e)) => ConnectAction::Fail(
            ConnectError::SendError(e),
        ),
        _ => ConnectAction::Ignore,
    }
}

/// The opening of one connection: connect, upgrade, register.
#[derive(Debug)]
pub struct Handshake {
    pub address: Address,
    pub state: ConnectState,
    pub frame: String,
}

impl Handshake {
    /// Begins to open a connection to `address`, on which the plugin `uuid`
    /// will register with the event name `event`. The caller connects the
    /// transport to `address` and reports how that went.
    pub fn start(address: Address, event: &str, uuid: &str) -> (r: Result<Handshake, BadMessage>)
        ensures
            match r {
                Ok(h) => h.address == address && h.state == ConnectState::Connecting && json_text(
                    registration_json(event@, uuid@),
                ) == Some(h.frame@),
                Err(BadMessage::Print(_)) => json_text(registration_json(event@, uuid@)) is None,
                Err(_) => false,
            },
    {
        match registration_frame(event, uuid) {
            Ok(frame) => Ok(Handshake { address, state: ConnectState::Connecting, frame }),
            Err(e) => Err(e),
        }
    }

    /// Takes a report of the caller and says what to do next.
    pub fn step(&mut self, event: ConnectEvent) -> (action: ConnectAction)
        ensures
            final(self).state == next_state(old(self).state, event),
            final(self).address == old(self).address,
            final(self).frame == old(self).frame,
            action == next_action(old(self).state, event, old(self).frame),
    {
        match (self.state, event) {
            (ConnectState::Connecting, ConnectEvent::Connected) => {
                self.state = ConnectState::Negotiating;
                ConnectAction::Upgrade
            },
            (ConnectState::Connecting, ConnectEvent::ConnectFailed(e)) => {
                self.state = ConnectState::Failed;
                ConnectAction::Fail(ConnectError::ConnectionError(e))
            },
            (ConnectState::Negotiating, ConnectEvent::Upgraded) => {
                self.state = ConnectState::Registering;
                ConnectAction::Send(self.frame.clone())
            },
            (ConnectState::Negotiating, ConnectEvent::UpgradeFailed(e)) => {
                self.state = ConnectState::Failed;
                ConnectAction::Fail(ConnectError::ProtocolError(e))
            },
            (ConnectState::Registering, ConnectEvent::Sent) => {
                self.state = ConnectState::Ready;
                ConnectAction::Finish
            },
            (ConnectState::Registering, ConnectEvent::SendFailed(e)) => {
                self.state = ConnectState::Failed;
                ConnectAction::Fail(ConnectError::SendError(e))
            },
            _ => ConnectAction::Ignore,
        }
    }
}

/// The state after a run of reports.
pub open spec fn state_after(state: ConnectState, events: Seq<ConnectEvent>) -> ConnectState
    decreases events.len(),
{
    if events.len() == 0 {
        state
    } else {
        next_state(state_after(state, events.drop_last()), events.last())
    }
}

/// How many frames a run of reports has had sent.
pub open spec fn frames_sent(state: ConnectState, events: Seq<ConnectEvent>, frame: String) -> nat
    decreases events.len(),
{
    if events.len() == 0 {
        0
    } else {
        let before = frames_sent(state, events.drop_last(), frame);
        if next_action(state_after(state, events.drop_last()), events.last(), frame) is Send {
            before + 1
        } else {
            before
        }
    }
}

/// Whatever the caller reports, and in whatever order, at most one frame is
/// sent while a connection is opened, and it is the registration. The socket
/// is open only after exactly that one frame, and nothing is sent before the
/// upgrade is done.
pub proof fn lemma_registration_is_sent_once(events: Seq<ConnectEvent>, frame: String)
    ensures
        frames_sent(ConnectState::Connecting, events, frame) <= 1,
        state_after(ConnectState::Connecting, events) is Ready ==> frames_sent(
            ConnectState::Connecting,
            events,
            frame,
        ) == 1,
        state_after(ConnectState::Connecting, events) is Registering ==> frames_sent(
            ConnectState::Connecting,
            events,
            frame,
        ) == 1,
        state_after(ConnectState::Connecting, events) is Connecting || state_after(
            ConnectState::Connecting,
            events,
        ) is Negotiating ==> frames_sent(ConnectState::Connecting, events, frame) == 0,
        forall|state: ConnectState, event: ConnectEvent| #[trigger]
            next_action(state, event, frame) matches ConnectAction::Send(text) ==> text == frame,
    decreases events.len(),
{
    if events.len() > 0 {
        lemma_registration_is_sent_once(events.drop_last(), frame);
    }
}

/// Three reports of success, in their order, open the socket.
pub proof fn lemma_ready_after_three_steps()
    ensures
        state_after(
            ConnectState::Connecting,
            seq![ConnectEvent::Connected, ConnectEvent::Upgraded, ConnectEvent::Sent],
        ) == ConnectState::Ready,
{
    let events = seq![ConnectEvent::Connected, ConnectEvent::Upgraded, ConnectEvent::Sent];
    assert(events.drop_last() == seq![ConnectEvent::Connected, ConnectEvent::Upgraded]);
    assert(events.drop_last().drop_last() == seq![ConnectEvent::Connected]);
    assert(events.drop_last().drop_last().drop_last() == Seq::<ConnectEvent>::empty());
    reveal_with_fuel(state_after, 4);
}

} // verus!
