//! The Discord gateway: what to do, event by event, on one WebSocket
//! connection.
//!
//! A [`GatewaySession`] decides and never waits: whoever holds the socket
//! tells it each event and carries out the action that it answers with.
use crate::channels::mentions::{
    is_named, mention_stripped, prefix_stripped, starts_with_name, strip_mention, strip_prefix,
};
use crate::json::{
    compact_text, json_text, json_view, null_value, number_value, object_value,
    text_value, JsonView,
};
use crate::messages::{InboundMessage, InboundMessageView, Timestamp};
use crate::text::{decimal, optional, same_text};
use vstd::prelude::*;

verus! {

/// Where the gateway listens.
pub const GATEWAY_URL: &'static str = "wss://gateway.discord.gg/?v=10&encoding=json";

/// The intents asked for: guild messages (bit 9) and message content (bit 15).
pub const INTENTS: u64 = 512 + 32768;

/// The heartbeat interval in milliseconds until the server tells its own.
pub const DEFAULT_HEARTBEAT_MS: u64 = 41250;

/// The longest wait for the first heartbeat, in milliseconds.
pub const FIRST_HEARTBEAT_LIMIT_MS: u64 = 5000;

/// The id under which messages of this channel are handed on.
pub const CHANNEL_ID: &'static str = "discord";

/// How far a connection has come.
#[derive(Debug, Clone, Copy, PartialEq, Eq, Structural)]
pub enum ConnectionState {
    WaitingForHello,
    WaitingForReady,
    Connected,
}

/// What the server's greeting says.
#[derive(Debug, PartialEq, Eq)]
pub struct HelloData {
    pub heartbeat_interval: u64,
}

/// A user of the gateway.
#[derive(Debug, PartialEq, Eq)]
pub struct GatewayUser {
    pub id: String,
    pub username: String,
}

/// What the server says once the bot is logged in.
#[derive(Debug, PartialEq, Eq)]
pub struct ReadyData {
    pub user: GatewayUser,
}

/// Who wrote a message.
#[derive(Debug, PartialEq, Eq)]
pub struct MessageCreateAuthor {
    pub id: String,
    pub username: String,
    pub bot: bool,
}

/// A user that a message mentions.
#[derive(Debug, PartialEq, Eq)]
pub struct MentionUser {
    pub id: String,
}

/// A message that was written in some conversation.
#[derive(Debug, PartialEq, Eq)]
pub struct MessageCreateData {
    pub id: String,
    pub content: String,
    pub channel_id: String,
    pub author: MessageCreateAuthor,
    pub mentions: Vec<MentionUser>,
}

/// The data of a payload, by what it can be read as.
#[derive(Debug, PartialEq, Eq)]
pub struct PayloadData {
    pub hello: Option<HelloData>,
    pub ready: Option<ReadyData>,
    pub message: Option<MessageCreateData>,
}

/// What the server sends in a text frame.
#[derive(Debug, PartialEq, Eq)]
pub struct GatewayPayload {
    pub op: u8,
    pub data: Option<PayloadData>,
    pub sequence: Option<u64>,
    pub event_type: Option<String>,
}

/// What comes out of the socket.
#[derive(Debug, PartialEq, Eq)]
pub enum Frame {
    /// A text frame; nothing where the text is no payload.
    Text { payload: Option<GatewayPayload> },
    Ping { data: Vec<u8> },
    Pong,
    /// The server closed the connection.
    Close,
    /// Reading failed.
    Failed { detail: String },
    /// Nothing comes any more.
    Ended,
    /// Any other frame.
    Other,
}

/// What a session asked to send.
#[derive(Debug, Clone, Copy, PartialEq, Eq, Structural)]
pub enum Sent {
    /// A heartbeat that the server asked for.
    RequestedHeartbeat,
    /// A heartbeat whose time had come.
    DueHeartbeat,
    /// The bot's credentials.
    Identify,
}

/// What happens to a session.
#[derive(Debug, PartialEq, Eq)]
pub enum GatewayEvent {
    /// The program is to stop.
    Shutdown,
    /// The socket yielded a frame.
    Received { frame: Frame },
    /// The time for a heartbeat has come.
    HeartbeatDue,
    /// What the session asked to send was sent, or failed to be.
    SendDone { sent: Sent, failure: Option<String> },
}

/// Why a session ends in an error.
#[derive(Debug, PartialEq, Eq)]
pub enum GatewayError {
    SessionInvalidated,
    ReconnectRequested,
    WebSocket { detail: String },
    StreamEnded,
    HeartbeatFailed { detail: String },
    IdentifyFailed { detail: String },
}

/// What is to be done.
#[derive(Debug, PartialEq, Eq)]
pub enum GatewayAction {
    /// Nothing but to wait for the next event.
    Wait,
    /// Send a heartbeat, and report whether it was sent.
    SendHeartbeat { text: String, sent: Sent },
    /// Set the heartbeat's time, then send the credentials and report whether
    /// they were sent.
    Identify { heartbeat_in_ms: u64, text: String },
    /// Set the heartbeat's time.
    HeartbeatIn { ms: u64 },
    /// Answer a ping; whether that succeeds does not matter.
    SendPong { data: Vec<u8> },
    /// Hand a message on; whether that succeeds does not matter.
    Deliver { message: InboundMessage },
    /// Close the socket; the session is over, without an error.
    Close,
    /// The session is over.
    Stop { failure: Option<GatewayError> },
}

/// A message as a mathematical value.
pub struct MessageCreateView {
    pub id: Seq<char>,
    pub content: Seq<char>,
    pub channel_id: Seq<char>,
    pub author_id: Seq<char>,
    pub author_is_bot: bool,
    pub mentioned: Seq<Seq<char>>,
}

impl View for MessageCreateData {
    type V = MessageCreateView;

    open spec fn view(&self) -> MessageCreateView {
        MessageCreateView {
            id: self.id@,
            content: self.content@,
            channel_id: self.channel_id@,
            author_id: self.author.id@,
            author_is_bot: self.author.bot,
            mentioned: Seq::new(self.mentions@.len(), |i: int| self.mentions@[i].id@),
        }
    }
}

/// What a text frame means to a session.
pub enum Meaning {
    Nothing,
    HeartbeatRequest,
    Hello { heartbeat_interval: u64 },
    Ready { id: Seq<char>, username: Seq<char> },
    Message { message: MessageCreateView },
    InvalidSession,
    ReconnectRequest,
}

/// A payload as a mathematical value: its meaning, and its number.
pub struct PayloadView {
    pub meaning: Meaning,
    pub sequence: Option<u64>,
}

/// What a dispatched event means, by its name.
pub open spec fn dispatch_meaning(
    event_type: Option<Seq<char>>,
    data: Option<PayloadData>,
) -> Meaning {
    match (event_type, data) {
        (Some(name), Some(read)) => if name == "READY"@ {
            match read.ready {
                Some(ready) => Meaning::Ready {
                    id: ready.user.id@,
                    username: ready.user.username@,
                },
                None => Meaning::Nothing,
            }
        } else if name == "MESSAGE_CREATE"@ {
            match read.message {
                Some(message) => Meaning::Message { message: message@ },
                None => Meaning::Nothing,
            }
        } else {
            Meaning::Nothing
        },
        _ => Meaning::Nothing,
    }
}

/// What a payload means, by its opcode.
pub open spec fn payload_meaning(payload: GatewayPayload) -> Meaning {
    if payload.op == 0 {
        dispatch_meaning(optional(payload.event_type), payload.data)
    } else if payload.op == 1 {
        Meaning::HeartbeatRequest
    } else if payload.op == 7 {
        Meaning::ReconnectRequest
    } else if payload.op == 9 {
        Meaning::InvalidSession
    } else if payload.op == 10 {
        match payload.data {
            Some(PayloadData { hello: Some(hello), .. }) => Meaning::Hello {
                heartbeat_interval: hello.heartbeat_interval,
            },
            _ => Meaning::Nothing,
        }
    } else {
        Meaning::Nothing
    }
}

impl View for GatewayPayload {
    type V = PayloadView;

    open spec fn view(&self) -> PayloadView {
        PayloadView { meaning: payload_meaning(*self), sequence: self.sequence }
    }
}

/// A [`GatewayEvent`] as a mathematical value.
pub enum EventView {
    Shutdown,
    Payload { payload: PayloadView },
    Ping { data: Seq<u8> },
    Closed,
    Failed { detail: Seq<char> },
    Ended,
    /// A frame without a meaning.
    Ignored,
    HeartbeatDue,
    SendDone { sent: Sent, failure: Option<Seq<char>> },
}

impl View for GatewayEvent {
    type V = EventView;

    open spec fn view(&self) -> EventView {
        match *self {
            GatewayEvent::Shutdown => EventView::Shutdown,
            GatewayEvent::Received { frame } => match frame {
                Frame::Text { payload: Some(payload) } => EventView::Payload { payload: payload@ },
                Frame::Text { payload: None } => EventView::Ignored,
                Frame::Ping { data } => EventView::Ping { data: data@ },
                Frame::Pong => EventView::Ignored,
                Frame::Close => EventView::Closed,
                Frame::Failed { detail } => EventView::Failed { detail: detail@ },
                Frame::Ended => EventView::Ended,
                Frame::Other => EventView::Ignored,
            },
            GatewayEvent::HeartbeatDue => EventView::HeartbeatDue,
            GatewayEvent::SendDone { sent, failure } => EventView::SendDone {
                sent,
                failure: optional(failure),
            },
        }
    }
}

/// A [`GatewayError`] as a mathematical value.
pub enum ErrorView {
    SessionInvalidated,
    ReconnectRequested,
    WebSocket { detail: Seq<char> },
    StreamEnded,
    HeartbeatFailed { detail: Seq<char> },
    IdentifyFailed { detail: Seq<char> },
}

impl View for GatewayError {
    type V = ErrorView;

    open spec fn view(&self) -> ErrorView {
        match *self {
            GatewayError::SessionInvalidated => ErrorView::SessionInvalidated,
            GatewayError::ReconnectRequested => ErrorView::ReconnectRequested,
            GatewayError::WebSocket { detail } => ErrorView::WebSocket { detail: detail@ },
            GatewayError::StreamEnded => ErrorView::StreamEnded,
            GatewayError::HeartbeatFailed { detail } => ErrorView::HeartbeatFailed {
                detail: detail@,
            },
            GatewayError::IdentifyFailed { detail } => ErrorView::IdentifyFailed {
                detail: detail@,
            },
        }
    }
}

/// The words for an error.
pub open spec fn error_text(error: ErrorView) -> Seq<char> {
    match error {
        ErrorView::SessionInvalidated => "Discord session invalidated"@,
        ErrorView::ReconnectRequested => "Discord requested reconnect"@,
        ErrorView::WebSocket { detail } => "WebSocket error: "@ + detail,
        ErrorView::StreamEnded => "WebSocket stream ended"@,
        ErrorView::HeartbeatFailed { detail } => "Failed to send heartbeat: "@ + detail,
        ErrorView::IdentifyFailed { detail } => detail,
    }
}

impl GatewayError {
    /// The words for the error.
    pub fn message(&self) -> (text: String)
        ensures
            text@ == error_text(self@),
    {
        match self {
            GatewayError::SessionInvalidated => "Discord session invalidated".to_owned(),
            GatewayError::ReconnectRequested => "Discord requested reconnect".to_owned(),
            GatewayError::WebSocket { detail } => "WebSocket error: ".to_owned().concat(
                detail.as_str(),
            ),
            GatewayError::StreamEnded => "WebSocket stream ended".to_owned(),
            GatewayError::HeartbeatFailed {
                detail,
            } => "Failed to send heartbeat: ".to_owned().concat(detail.as_str()),
            GatewayError::IdentifyFailed { detail } => detail.clone(),
        }
    }
}

/// A [`GatewayAction`] as a mathematical value.
pub enum ActionView {
    Wait,
    SendHeartbeat { text: Seq<char>, sent: Sent },
    Identify { heartbeat_in_ms: u64, text: Seq<char> },
    HeartbeatIn { ms: u64 },
    SendPong { data: Seq<u8> },
    Deliver { message: InboundMessageView },
    Close,
    Stop { failure: Option<ErrorView> },
}

impl View for GatewayAction {
    type V = ActionView;

    open spec fn view(&self) -> ActionView {
        match *self {
            GatewayAction::Wait => ActionView::Wait,
            GatewayAction::SendHeartbeat { text, sent } => ActionView::SendHeartbeat {
                text: text@,
                sent,
            },
            GatewayAction::Identify { heartbeat_in_ms, text } => ActionView::Identify {
                heartbeat_in_ms,
                text: text@,
            },
            GatewayAction::HeartbeatIn { ms } => ActionView::HeartbeatIn { ms },
            GatewayAction::SendPong { data } => ActionView::SendPong { data: data@ },
            GatewayAction::Deliver { message } => ActionView::Deliver { message: message@ },
            GatewayAction::Close => ActionView::Close,
            GatewayAction::Stop { failure: Some(error) } => ActionView::Stop {
                failure: Some(error@),
            },
            GatewayAction::Stop { failure: None } => ActionView::Stop { failure: None },
        }
    }
}

/// What a session knows.
pub struct GatewaySession {
    token: String,
    target_channel: String,
    heartbeat_interval: u64,
    sequence: Option<u64>,
    bot_user_id: Option<String>,
    bot_username: Option<String>,
    state: ConnectionState,
}

/// A [`GatewaySession`] as a mathematical value.
pub struct SessionView {
    pub token: Seq<char>,
    pub target_channel: Seq<char>,
    pub heartbeat_interval: u64,
    pub sequence: Option<u64>,
    pub bot_user_id: Option<Seq<char>>,
    pub bot_username: Option<Seq<char>>,
    pub state: ConnectionState,
}

impl View for GatewaySession {
    type V = SessionView;

    closed spec fn view(&self) -> SessionView {
        SessionView {
            token: self.token@,
            target_channel: self.target_channel@,
            heartbeat_interval: self.heartbeat_interval,
            sequence: self.sequence,
            bot_user_id: optional(self.bot_user_id),
            bot_username: optional(self.bot_username),
            state: self.state,
        }
    }
}

/// A heartbeat: the number of the last payload that had one.
pub open spec fn heartbeat_document(sequence: Option<u64>) -> JsonView {
    JsonView::Object(
        map![
            "op"@ => JsonView::Number(decimal(1)),
            "d"@ => match sequence {
                Some(number) => JsonView::Number(decimal(number as nat)),
                None => JsonView::Null,
            },
        ],
    )
}

/// The bot's credentials.
pub open spec fn identify_document(token: Seq<char>) -> JsonView {
    JsonView::Object(
        map![
            "op"@ => JsonView::Number(decimal(2)),
            "d"@ => JsonView::Object(map![
                "token"@ => JsonView::Text(token),
                "intents"@ => JsonView::Number(decimal(INTENTS as nat)),
                "properties"@ => JsonView::Object(map![
                    "os"@ => JsonView::Text("linux"@),
                    "browser"@ => JsonView::Text("nexus-gateway"@),
                    "device"@ => JsonView::Text("nexus-gateway"@),
                ]),
            ]),
        ],
    )
}

/// A heartbeat.
pub fn heartbeat(sequence: Option<u64>) -> (document: serde_json::Value)
    ensures
        json_view(document) == heartbeat_document(sequence),
{
    let mut members = serde_json::Map::new();
    members.insert("op".to_owned(), number_value(1));
    members.insert(
        "d".to_owned(),
        match sequence {
            Some(number) => number_value(number),
            None => null_value(),
        },
    );
    object_value(members)
}

/// The bot's credentials.
pub fn identify(token: &str) -> (document: serde_json::Value)
    ensures
        json_view(document) == identify_document(token@),
{
    let mut properties = serde_json::Map::new();
    properties.insert("os".to_owned(), text_value("linux".to_owned()));
    properties.insert("browser".to_owned(), text_value("nexus-gateway".to_owned()));
    properties.insert("device".to_owned(), text_value("nexus-gateway".to_owned()));
    let mut data = serde_json::Map::new();
    data.insert("token".to_owned(), text_value(token.to_owned()));
    data.insert("intents".to_owned(), number_value(INTENTS));
    data.insert("properties".to_owned(), object_value(properties));
    let mut members = serde_json::Map::new();
    members.insert("op".to_owned(), number_value(2));
    members.insert("d".to_owned(), object_value(data));
    object_value(members)
}

/// Whether a message mentions the bot.
pub open spec fn is_mentioned(session: SessionView, message: MessageCreateView) -> bool {
    match session.bot_user_id {
        Some(id) => message.mentioned.contains(id),
        None => false,
    }
}

/// Whether a message starts with the bot's name.
pub open spec fn is_called(session: SessionView, message: MessageCreateView) -> bool {
    match session.bot_username {
        Some(name) => starts_with_name(message.content, name),
        None => false,
    }
}

/// Whether a message is handed on: one that a human wrote, in the session's
/// conversation, to the bot.
pub open spec fn is_for_bot(session: SessionView, message: MessageCreateView) -> bool {
    &&& message.channel_id == session.target_channel
    &&& !message.author_is_bot
    &&& is_mentioned(session, message) || is_called(session, message)
}

/// A message as it is handed on: without the address. The name that it starts
/// with is cut; where it starts with none, the mentions are.
pub open spec fn handed_on(
    session: SessionView,
    message: MessageCreateView,
    now: Timestamp,
) -> InboundMessageView {
    InboundMessageView {
        message_id: message.id,
        channel_id: CHANNEL_ID@,
        user_id: message.author_id,
        conversation_id: message.channel_id,
        text: if is_called(session, message) {
            prefix_stripped(message.content, session.bot_username->0)
        } else {
            mention_stripped(message.content, session.bot_user_id->0)
        },
        timestamp: now,
        metadata: JsonView::Null,
    }
}

/// The number that heartbeats carry after a payload: the payload's own, where
/// it has one.
pub open spec fn sequence_after(before: Option<u64>, payload: PayloadView) -> Option<u64> {
    if payload.sequence is Some {
        payload.sequence
    } else {
        before
    }
}

/// The wait for the first heartbeat.
pub open spec fn first_heartbeat_ms(interval: u64) -> u64 {
    if interval < FIRST_HEARTBEAT_LIMIT_MS {
        interval
    } else {
        FIRST_HEARTBEAT_LIMIT_MS
    }
}

/// What a session knows after an event.
pub open spec fn session_after(session: SessionView, event: EventView) -> SessionView {
    match event {
        EventView::Payload { payload } => {
            let counted = SessionView {
                sequence: sequence_after(session.sequence, payload),
                ..session
            };
            match payload.meaning {
                Meaning::Hello { heartbeat_interval } => SessionView {
                    heartbeat_interval,
                    ..counted
                },
                Meaning::Ready { id, username } => SessionView {
                    bot_user_id: Some(id),
                    bot_username: Some(username),
                    state: ConnectionState::Connected,
                    ..counted
                },
                _ => counted,
            }
        },
        EventView::SendDone { sent: Sent::Identify, failure: None } => SessionView {
            state: ConnectionState::WaitingForReady,
            ..session
        },
        _ => session,
    }
}

/// What a payload asks for, from a session that has taken note of it.
pub open spec fn payload_action(
    session: SessionView,
    meaning: Meaning,
    now: Timestamp,
) -> ActionView {
    match meaning {
        Meaning::Nothing => ActionView::Wait,
        Meaning::HeartbeatRequest => ActionView::SendHeartbeat {
            text: json_text(heartbeat_document(session.sequence)),
            sent: Sent::RequestedHeartbeat,
        },
        Meaning::Hello { heartbeat_interval } => ActionView::Identify {
            heartbeat_in_ms: first_heartbeat_ms(heartbeat_interval),
            text: json_text(identify_document(session.token)),
        },
        Meaning::Ready { .. } => ActionView::Wait,
        Meaning::Message { message } => if is_for_bot(session, message) {
            ActionView::Deliver { message: handed_on(session, message, now) }
        } else {
            ActionView::Wait
        },
        Meaning::InvalidSession => ActionView::Stop {
            failure: Some(ErrorView::SessionInvalidated),
        },
        Meaning::ReconnectRequest => ActionView::Stop {
            failure: Some(ErrorView::ReconnectRequested),
        },
    }
}

/// What is to be done on an event.
pub open spec fn action_on(session: SessionView, event: EventView, now: Timestamp) -> ActionView {
    match event {
        EventView::Shutdown => ActionView::Close,
        EventView::Payload { payload } => payload_action(
            session_after(session, event),
            payload.meaning,
            now,
        ),
        EventView::Ping { data } => ActionView::SendPong { data },
        EventView::Closed => ActionView::Stop { failure: None },
        EventView::Failed { detail } => ActionView::Stop {
            failure: Some(ErrorView::WebSocket { detail }),
        },
        EventView::Ended => ActionView::Stop { failure: Some(ErrorView::StreamEnded) },
        EventView::Ignored => ActionView::Wait,
        EventView::HeartbeatDue => if session.state == ConnectionState::WaitingForHello {
            ActionView::Wait
        } else {
            ActionView::SendHeartbeat {
                text: json_text(heartbeat_document(session.sequence)),
                sent: Sent::DueHeartbeat,
            }
        },
        EventView::SendDone { sent, failure } => match (sent, failure) {
            (Sent::Identify, None) => ActionView::Wait,
            (Sent::Identify, Some(detail)) => ActionView::Stop {
                failure: Some(ErrorView::IdentifyFailed { detail }),
            },
            (_, None) => ActionView::HeartbeatIn { ms: session.heartbeat_interval },
            (Sent::RequestedHeartbeat, Some(_)) => ActionView::Wait,
            (Sent::DueHeartbeat, Some(detail)) => ActionView::Stop {
                failure: Some(ErrorView::HeartbeatFailed { detail }),
            },
        },
    }
}

/// A session at its start.
pub open spec fn new_session(token: Seq<char>, target_channel: Seq<char>) -> SessionView {
    SessionView {
        token,
        target_channel,
        heartbeat_interval: DEFAULT_HEARTBEAT_MS,
        sequence: None,
        bot_user_id: None,
        bot_username: None,
        state: ConnectionState::WaitingForHello,
    }
}

impl GatewaySession {
    /// A session on a new connection.
    pub fn new(token: String, target_channel: String) -> (session: GatewaySession)
        ensures
            session@ == new_session(token@, target_channel@),
    {
        GatewaySession {
            token,
            target_channel,
            heartbeat_interval: DEFAULT_HEARTBEAT_MS,
            sequence: None,
            bot_user_id: None,
            bot_username: None,
            state: ConnectionState::WaitingForHello,
        }
    }

    /// The heartbeat interval in milliseconds.
    pub fn heartbeat_interval(&self) -> (interval: u64)
        ensures
            interval == self@.heartbeat_interval,
    {
        self.heartbeat_interval
    }

    /// How far the connection has come.
    pub fn state(&self) -> (state: ConnectionState)
        ensures
            state == self@.state,
    {
        self.state
    }

    /// Takes note of an event and answers what is to be done. `now` is the
    /// time at which messages count as received.
    pub fn step(&mut self, event: GatewayEvent, now: Timestamp) -> (action: GatewayAction)
        ensures
            final(self)@ == session_after(old(self)@, event@),
            action@ == action_on(old(self)@, event@, now),
    {
        match event {
            GatewayEvent::Shutdown => GatewayAction::Close,
            GatewayEvent::Received { frame } => match frame {
                Frame::Text { payload: Some(payload) } => self.receive(payload, now),
                Frame::Text { payload: None } => GatewayAction::Wait,
                Frame::Ping { data } => GatewayAction::SendPong { data },
                Frame::Pong => GatewayAction::Wait,
                Frame::Close => GatewayAction::Stop { failure: None },
                Frame::Failed { detail } => GatewayAction::Stop {
                    failure: Some(GatewayError::WebSocket { detail }),
                },
                Frame::Ended => GatewayAction::Stop { failure: Some(GatewayError::StreamEnded) },
                Frame::Other => GatewayAction::Wait,
            },
            GatewayEvent::HeartbeatDue => match self.state {
                ConnectionState::WaitingForHello => GatewayAction::Wait,
                ConnectionState::WaitingForReady
                | ConnectionState::Connected => self.heartbeat_action(Sent::DueHeartbeat),
            },
            GatewayEvent::SendDone { sent, failure } => match (sent, failure) {
                (Sent::Identify, None) => {
                    self.state = ConnectionState::WaitingForReady;
                    GatewayAction::Wait
                },
                (Sent::Identify, Some(detail)) => GatewayAction::Stop {
                    failure: Some(GatewayError::IdentifyFailed { detail }),
                },
                (_, None) => GatewayAction::HeartbeatIn { ms: self.heartbeat_interval },
                (Sent::RequestedHeartbeat, Some(_)) => GatewayAction::Wait,
                (Sent::DueHeartbeat, Some(detail)) => GatewayAction::Stop {
                    failure: Some(GatewayError::HeartbeatFailed { detail }),
                },
            },
        }
    }

    /// A heartbeat with the last number.
    fn heartbeat_action(&self, sent: Sent) -> (action: GatewayAction)
        ensures
            action@ == (ActionView::SendHeartbeat {
                text: json_text(heartbeat_document(self@.sequence)),
                sent,
            }),
    {
        let document = heartbeat(self.sequence);
        GatewayAction::SendHeartbeat { text: compact_text(&document), sent }
    }

    /// Takes note of a payload and answers what is to be done.
    fn receive(&mut self, payload: GatewayPayload, now: Timestamp) -> (action: GatewayAction)
        ensures
            final(self)@ == session_after(old(self)@, EventView::Payload { payload: payload@ }),
            action@ == payload_action(final(self)@, payload@.meaning, now),
    {
        if payload.sequence.is_some() {
            self.sequence = payload.sequence;
        }
        match payload.op {
            0 => match (payload.event_type, payload.data) {
                (Some(name), Some(data)) => self.dispatch(name, data, now),
                _ => GatewayAction::Wait,
            },
            1 => self.heartbeat_action(Sent::RequestedHeartbeat),
            7 => GatewayAction::Stop { failure: Some(GatewayError::ReconnectRequested) },
            9 => GatewayAction::Stop { failure: Some(GatewayError::SessionInvalidated) },
            10 => match payload.data {
                Some(PayloadData { hello: Some(hello), .. }) => {
                    self.heartbeat_interval = hello.heartbeat_interval;
                    let document = identify(self.token.as_str());
                    GatewayAction::Identify {
                        heartbeat_in_ms: if self.heartbeat_interval < FIRST_HEARTBEAT_LIMIT_MS {
                            self.heartbeat_interval
                        } else {
                            FIRST_HEARTBEAT_LIMIT_MS
                        },
                        text: compact_text(&document),
                    }
                },
                _ => GatewayAction::Wait,
            },
            _ => GatewayAction::Wait,
        }
    }

    /// Takes note of a dispatched event and answers what is to be done.
    fn dispatch(&mut self, name: String, data: PayloadData, now: Timestamp) -> (action:
        GatewayAction)
        ensures
            final(self)@ == session_after(
                old(self)@,
                EventView::Payload {
                    payload: PayloadView {
                        meaning: dispatch_meaning(Some(name@), Some(data)),
                        sequence: None,
                    },
                },
            ),
            action@ == payload_action(
                final(self)@,
                dispatch_meaning(Some(name@), Some(data)),
                now,
            ),
    {
        if same_text(name.as_str(), "READY") {
            if let Some(ready) = data.ready {
                self.bot_user_id = Some(ready.user.id);
                self.bot_username = Some(ready.user.username);
                self.state = ConnectionState::Connected;
            }
            GatewayAction::Wait
        } else if same_text(name.as_str(), "MESSAGE_CREATE") {
            match data.message {
                Some(message) => self.hand_on(message, now),
                None => GatewayAction::Wait,
            }
        } else {
            GatewayAction::Wait
        }
    }

    /// Hands a message on where it is for the bot.
    fn hand_on(&self, message: MessageCreateData, now: Timestamp) -> (action: GatewayAction)
        ensures
            action@ == payload_action(self@, Meaning::Message { message: message@ }, now),
    {
        if !same_text(message.channel_id.as_str(), self.target_channel.as_str())
            || message.author.bot {
            return GatewayAction::Wait;
        }
        let text = match (&self.bot_username, &self.bot_user_id) {
            (Some(name), _) if is_named(message.content.as_str(), name.as_str()) => {
                strip_prefix(message.content.as_str(), name.as_str())
            },
            (_, Some(id)) if mentions(&message.mentions, id.as_str()) => {
                strip_mention(message.content.as_str(), id.as_str())
            },
            _ => {
                return GatewayAction::Wait;
            },
        };
        GatewayAction::Deliver {
            message: InboundMessage {
                message_id: message.id,
                channel_id: CHANNEL_ID.to_owned(),
                user_id: message.author.id,
                conversation_id: message.channel_id,
                text,
                timestamp: now,
                metadata: null_value(),
            },
        }
    }
}

/// Whether a user is among those mentioned.
fn mentions(users: &Vec<MentionUser>, id: &str) -> (answer: bool)
    ensures
        answer == Seq::new(users@.len(), |i: int| users@[i].id@).contains(id@),
{
    let ghost ids = Seq::new(users@.len(), |i: int| users@[i].id@);
    let mut i: usize = 0;
    while i < users.len()
        invariant
            i <= users@.len(),
            ids == Seq::new(users@.len(), |i: int| users@[i].id@),
            forall|j: int| 0 <= j < i ==> ids[j] != id@,
        decreases users@.len() - i,
    {
        if same_text(users[i].id.as_str(), id) {
            assert(ids[i as int] == id@);
            return true;
        }
        i = i + 1;
    }
    false
}

} // verus!
