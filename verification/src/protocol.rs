//! Plain-value model of the protocol engine's boundary.
//!
//! The engine reports each transfer's progress as a stream of
//! [`ChannelMessage`]s and accepts [`TransferAction`]s in return.  Endpoints
//! found by discovery arrive as [`EndpointInfo`] records, and a send request
//! is handed to the engine as a [`SendInfo`].  All of it is plain data, so
//! the coordination logic on top can be verified; the process boundary that
//! produces and consumes these values lives outside the library.

use vstd::prelude::*;

verus! {

/// The engine-reported phase of a transfer's handshake or data exchange.
#[derive(Debug, Clone, Copy, PartialEq, Eq, Structural)]
pub enum ProtocolState {
    Initial,
    ReceivedConnectionRequest,
    SentUkeyServerInit,
    SentUkeyClientInit,
    SentUkeyClientFinish,
    SentPairedKeyEncryption,
    ReceivedUkeyClientFinish,
    SentConnectionResponse,
    SentPairedKeyResult,
    SentIntroduction,
    ReceivedPairedKeyResult,
    WaitingForUserConsent,
    ReceivingFiles,
    SendingFiles,
    Disconnected,
    Rejected,
    Cancelled,
    Finished,
}

/// Whether a transfer was initiated by this device (outbound) or by a
/// remote device (inbound).
#[derive(Debug, Clone, Copy, PartialEq, Eq, Structural)]
pub enum TransferKind {
    Inbound,
    Outbound,
}

/// The kind of text-like payload a transfer carries.
#[derive(Debug, Clone, Copy, PartialEq, Eq, Structural)]
pub enum TextPayloadType {
    Text,
    Url,
    Wifi,
}

/// Broad classification of a transfer's payload.
#[derive(Debug, Clone, Copy, PartialEq, Eq, Structural)]
pub enum TransferPayloadKind {
    Files,
    Text,
    Url,
    Wifi,
}

/// The payload a transfer carries once known.
#[derive(Debug, Clone)]
pub enum TransferPayload {
    Files(Vec<String>),
    Text(String),
    Url(String),
    Wifi { ssid: String, password: String },
}

/// Consent or cancellation decisions this client sends to the engine.
#[derive(Debug, Clone, Copy, PartialEq, Eq, Structural)]
pub enum TransferAction {
    ConsentAccept,
    ConsentDecline,
    TransferCancel,
}

/// The user's decision on an inbound transfer, absent until made.
#[derive(Debug, Clone, Copy, PartialEq, Eq, Structural)]
pub enum UserAction {
    ConsentAccept,
    ConsentDecline,
    TransferCancel,
}

/// Descriptive data the engine attaches to a transfer event.
#[derive(Debug, Clone)]
pub struct TransferMetadata {
    /// Display name of the remote device, when known.
    pub source_name: Option<String>,
    /// Pin code for out-of-band verification, when available.
    pub pin_code: Option<String>,
    /// The transfer's payload, once known.
    pub payload: Option<TransferPayload>,
    /// A short preview of a text-like payload.
    pub payload_preview: Option<String>,
    /// Broad classification of the payload.
    pub payload_kind: TransferPayloadKind,
    /// Total bytes the transfer will move.
    pub total_bytes: usize,
    /// Bytes acknowledged by the receiving side so far.
    pub ack_bytes: usize,
}

/// A client-visible transfer event.
#[derive(Debug, Clone)]
pub struct MessageClient {
    /// The reported protocol state; absent means nothing new.
    pub state: Option<ProtocolState>,
    /// Which side initiated the transfer the event belongs to.
    pub kind: TransferKind,
    /// Descriptive data attached to the event.
    pub metadata: Option<TransferMetadata>,
}

/// One message on the engine's event channel: either a client-visible
/// transfer event or an engine-internal action.
#[derive(Debug, Clone)]
pub enum Message {
    Client(MessageClient),
    Lib { action: TransferAction },
}

impl Message {
    /// Whether this is a client-visible transfer event.
    pub open spec fn is_client(self) -> bool {
        match self {
            Message::Client(_) => true,
            Message::Lib { .. } => false,
        }
    }

    /// The client event carried, meaningful only when `is_client` holds.
    pub open spec fn client(self) -> MessageClient {
        match self {
            Message::Client(c) => c,
            Message::Lib { .. } => arbitrary(),
        }
    }

    /// The carried client event; the caller must know the message is one.
    pub fn as_client_unchecked(&self) -> (r: &MessageClient)
        requires
            self.is_client(),
        ensures
            *r == self.client(),
    {
        match self {
            Message::Client(c) => c,
            Message::Lib { .. } => unreached(),
        }
    }
}

/// The protocol state a client event reports, `Initial` when it reports
/// none.
pub open spec fn effective_state(c: MessageClient) -> ProtocolState {
    match c.state {
        Option::Some(s) => s,
        Option::None => ProtocolState::Initial,
    }
}

/// One event on the engine's channel, tagged with the transfer id it
/// belongs to.
#[derive(Debug, Clone)]
pub struct ChannelMessage {
    /// Id of the transfer the event belongs to.
    pub id: String,
    /// The event itself.
    pub msg: Message,
}

/// The device name a client event carries, "Unknown device" when it
/// carries none.
pub open spec fn device_name_chars(m: ChannelMessage) -> Seq<char> {
    match m.msg.client().metadata {
        Option::Some(meta) => match meta.source_name {
            Option::Some(n) => n@,
            Option::None => "Unknown device"@,
        },
        Option::None => "Unknown device"@,
    }
}

/// The file list a client event carries, absent for any other payload.
pub open spec fn msg_files(m: ChannelMessage) -> Option<Vec<String>> {
    match m.msg.client().metadata {
        Option::Some(meta) => match meta.payload {
            Option::Some(TransferPayload::Files(files)) => Option::Some(files),
            _ => Option::None,
        },
        Option::None => Option::None,
    }
}

/// The payload preview a client event carries, if any.
pub open spec fn msg_text_preview(m: ChannelMessage) -> Option<Seq<char>> {
    match m.msg.client().metadata {
        Option::Some(meta) => match meta.payload_preview {
            Option::Some(p) => Option::Some(p@),
            Option::None => Option::None,
        },
        Option::None => Option::None,
    }
}

/// Whether a client event describes a text-like payload.
pub open spec fn msg_is_text_type(m: ChannelMessage) -> bool {
    match m.msg.client().metadata {
        Option::Some(meta) => match meta.payload_kind {
            TransferPayloadKind::Text | TransferPayloadKind::Url | TransferPayloadKind::Wifi
                => true,
            TransferPayloadKind::Files => false,
        },
        Option::None => false,
    }
}

/// The text handed over by a finished text-like transfer, together with its
/// type; a Wi-Fi payload reads "ssid: password".
pub open spec fn msg_text_data(m: ChannelMessage) -> Option<(Seq<char>, TextPayloadType)> {
    match m.msg.client().metadata {
        Option::Some(meta) => match meta.payload {
            Option::Some(TransferPayload::Text(text)) => Option::Some(
                (text@, TextPayloadType::Text),
            ),
            Option::Some(TransferPayload::Url(text)) => Option::Some(
                (text@, TextPayloadType::Url),
            ),
            Option::Some(TransferPayload::Wifi { ssid, password }) => Option::Some(
                (ssid@.add(": "@).add(password@), TextPayloadType::Wifi),
            ),
            _ => Option::None,
        },
        Option::None => Option::None,
    }
}

impl ChannelMessage {
    /// Whether the carried message is a client-visible transfer event.
    pub open spec fn is_client(self) -> bool {
        self.msg.is_client()
    }

    /// The display name of the remote device this event came from.
    pub fn device_name(&self) -> (r: String)
        requires
            self.is_client(),
        ensures
            r@ == device_name_chars(*self),
    {
        match self.msg.as_client_unchecked().metadata.as_ref() {
            Option::Some(meta) => match meta.source_name.as_ref() {
                Option::Some(n) => n.clone(),
                Option::None => String::from_str("Unknown device"),
            },
            Option::None => String::from_str("Unknown device"),
        }
    }

    /// The files of a file transfer, absent for any other payload.
    pub fn files(&self) -> (r: Option<&Vec<String>>)
        requires
            self.is_client(),
        ensures
            match r {
                Option::Some(f) => msg_files(*self) == Option::Some(*f),
                Option::None => msg_files(*self) is None,
            },
    {
        match self.msg.as_client_unchecked().metadata.as_ref() {
            Option::Some(meta) => match meta.payload.as_ref() {
                Option::Some(TransferPayload::Files(files)) => Option::Some(files),
                _ => Option::None,
            },
            Option::None => Option::None,
        }
    }

    /// The payload preview, if the event carries one.
    pub fn text_preview(&self) -> (r: Option<String>)
        requires
            self.is_client(),
        ensures
            match r {
                Option::Some(p) => msg_text_preview(*self) == Option::Some(p@),
                Option::None => msg_text_preview(*self) is None,
            },
    {
        match self.msg.as_client_unchecked().metadata.as_ref() {
            Option::Some(meta) => match meta.payload_preview.as_ref() {
                Option::Some(p) => Option::Some(p.clone()),
                Option::None => Option::None,
            },
            Option::None => Option::None,
        }
    }

    /// Whether the event describes a text-like payload.
    pub fn is_text_type(&self) -> (r: bool)
        requires
            self.is_client(),
        ensures
            r == msg_is_text_type(*self),
    {
        match self.msg.as_client_unchecked().metadata.as_ref() {
            Option::Some(meta) => match meta.payload_kind {
                TransferPayloadKind::Text | TransferPayloadKind::Url
                    | TransferPayloadKind::Wifi => true,
                TransferPayloadKind::Files => false,
            },
            Option::None => false,
        }
    }

    /// The transferred text and its type, for a text-like payload.
    pub fn transferred_text_data(&self) -> (r: Option<(String, TextPayloadType)>)
        requires
            self.is_client(),
        ensures
            match r {
                Option::Some(t) => msg_text_data(*self) == Option::Some((t.0@, t.1)),
                Option::None => msg_text_data(*self) is None,
            },
    {
        match self.msg.as_client_unchecked().metadata.as_ref() {
            Option::Some(meta) => match meta.payload.as_ref() {
                Option::Some(TransferPayload::Text(text)) => Option::Some(
                    (text.clone(), TextPayloadType::Text),
                ),
                Option::Some(TransferPayload::Url(text)) => Option::Some(
                    (text.clone(), TextPayloadType::Url),
                ),
                Option::Some(TransferPayload::Wifi { ssid, password }) => {
                    let mut text = ssid.clone();
                    text.append(": ");
                    text.append(password.as_str());
                    Option::Some((text, TextPayloadType::Wifi))
                },
                _ => Option::None,
            },
            Option::None => Option::None,
        }
    }
}

/// A discoverable remote device, as reported by the discovery feed.
#[derive(Debug, Clone)]
pub struct EndpointInfo {
    /// Stable identifier of the endpoint.
    pub id: String,
    /// Display name, when known.
    pub name: Option<String>,
    /// Network address, when known.
    pub ip: Option<String>,
    /// Port, when known.
    pub port: Option<String>,
    /// Presence flag: present, absent, or unknown.
    pub present: Option<bool>,
}

/// Everything the engine needs to start sending files to one endpoint.
#[derive(Debug, Clone)]
pub struct SendInfo {
    /// Id of the target endpoint.
    pub id: String,
    /// Display name of the target endpoint.
    pub name: String,
    /// Network address, rendered as "ip:port".
    pub addr: String,
    /// Paths of the files to send.
    pub files: Vec<String>,
}

/// An element-wise copy of a list of strings.
pub fn clone_strings(v: &Vec<String>) -> (r: Vec<String>)
    ensures
        r@ == v@,
{
    let mut r: Vec<String> = Vec::new();
    let mut i: usize = 0;
    while i < v.len()
        invariant
            i <= v.len(),
            r@ == v@.take(i as int),
        decreases v.len() - i,
    {
        proof {
            assert(v@.take(i + 1) =~= v@.take(i as int).push(v@[i as int]));
        }
        r.push(v[i].clone());
        i = i + 1;
    }
    proof {
        assert(v@.take(v@.len() as int) =~= v@);
    }
    r
}

/// A copy of an optional string.
pub fn clone_opt_string(v: &Option<String>) -> (r: Option<String>)
    ensures
        r == *v,
{
    match v {
        Option::Some(s) => Option::Some(s.clone()),
        Option::None => Option::None,
    }
}

/// Content equality for payloads: file lists are compared element-wise.
pub open spec fn payload_eq(a: TransferPayload, b: TransferPayload) -> bool {
    match (a, b) {
        (TransferPayload::Files(x), TransferPayload::Files(y)) => x@ == y@,
        (TransferPayload::Text(x), TransferPayload::Text(y)) => x == y,
        (TransferPayload::Url(x), TransferPayload::Url(y)) => x == y,
        (
            TransferPayload::Wifi { ssid: s1, password: p1 },
            TransferPayload::Wifi { ssid: s2, password: p2 },
        ) => s1 == s2 && p1 == p2,
        _ => false,
    }
}

/// Content equality for event metadata.
pub open spec fn metadata_eq(a: TransferMetadata, b: TransferMetadata) -> bool {
    &&& a.source_name == b.source_name
    &&& a.pin_code == b.pin_code
    &&& (match (a.payload, b.payload) {
        (Option::Some(x), Option::Some(y)) => payload_eq(x, y),
        (Option::None, Option::None) => true,
        _ => false,
    })
    &&& a.payload_preview == b.payload_preview
    &&& a.payload_kind == b.payload_kind
    &&& a.total_bytes == b.total_bytes
    &&& a.ack_bytes == b.ack_bytes
}

/// Content equality for client events.
pub open spec fn client_eq(a: MessageClient, b: MessageClient) -> bool {
    &&& a.state == b.state
    &&& a.kind == b.kind
    &&& (match (a.metadata, b.metadata) {
        (Option::Some(x), Option::Some(y)) => metadata_eq(x, y),
        (Option::None, Option::None) => true,
        _ => false,
    })
}

/// Content equality for channel messages.
pub open spec fn message_eq(a: Message, b: Message) -> bool {
    match (a, b) {
        (Message::Client(x), Message::Client(y)) => client_eq(x, y),
        (Message::Lib { action: x }, Message::Lib { action: y }) => x == y,
        _ => false,
    }
}

/// Content equality for tagged channel messages.
pub open spec fn channel_message_eq(a: ChannelMessage, b: ChannelMessage) -> bool {
    a.id == b.id && message_eq(a.msg, b.msg)
}

impl TransferPayload {
    /// A copy with the same contents.
    pub fn duplicate(&self) -> (r: Self)
        ensures
            payload_eq(r, *self),
    {
        match self {
            TransferPayload::Files(files) => TransferPayload::Files(clone_strings(files)),
            TransferPayload::Text(text) => TransferPayload::Text(text.clone()),
            TransferPayload::Url(text) => TransferPayload::Url(text.clone()),
            TransferPayload::Wifi { ssid, password } => TransferPayload::Wifi {
                ssid: ssid.clone(),
                password: password.clone(),
            },
        }
    }
}

impl TransferMetadata {
    /// A copy with the same contents.
    pub fn duplicate(&self) -> (r: Self)
        ensures
            metadata_eq(r, *self),
    {
        TransferMetadata {
            source_name: clone_opt_string(&self.source_name),
            pin_code: clone_opt_string(&self.pin_code),
            payload: match &self.payload {
                Option::Some(p) => Option::Some(p.duplicate()),
                Option::None => Option::None,
            },
            payload_preview: clone_opt_string(&self.payload_preview),
            payload_kind: self.payload_kind,
            total_bytes: self.total_bytes,
            ack_bytes: self.ack_bytes,
        }
    }
}

impl MessageClient {
    /// A copy with the same contents.
    pub fn duplicate(&self) -> (r: Self)
        ensures
            client_eq(r, *self),
    {
        MessageClient {
            state: self.state,
            kind: self.kind,
            metadata: match &self.metadata {
                Option::Some(m) => Option::Some(m.duplicate()),
                Option::None => Option::None,
            },
        }
    }
}

impl Message {
    /// A copy with the same contents.
    pub fn duplicate(&self) -> (r: Self)
        ensures
            message_eq(r, *self),
    {
        match self {
            Message::Client(c) => Message::Client(c.duplicate()),
            Message::Lib { action } => Message::Lib { action: *action },
        }
    }
}

impl ChannelMessage {
    /// A copy with the same contents.
    pub fn duplicate(&self) -> (r: Self)
        ensures
            channel_message_eq(r, *self),
    {
        ChannelMessage { id: self.id.clone(), msg: self.msg.duplicate() }
    }
}

impl EndpointInfo {
    /// An equal, independently owned copy.
    pub fn duplicate(&self) -> (r: Self)
        ensures
            r == *self,
    {
        EndpointInfo {
            id: self.id.clone(),
            name: clone_opt_string(&self.name),
            ip: clone_opt_string(&self.ip),
            port: clone_opt_string(&self.port),
            present: self.present,
        }
    }
}

/// The label shown for a text payload type.
pub open spec fn text_type_chars(value: TextPayloadType) -> Seq<char> {
    match value {
        TextPayloadType::Url => "Link"@,
        TextPayloadType::Text => "Text"@,
        TextPayloadType::Wifi => "Wi-Fi"@,
    }
}

/// The label shown for a text payload type.
pub fn display_text_type(value: &TextPayloadType) -> (r: String)
    ensures
        r@ == text_type_chars(*value),
{
    match value {
        TextPayloadType::Url => String::from_str("Link"),
        TextPayloadType::Text => String::from_str("Text"),
        TextPayloadType::Wifi => String::from_str("Wi-Fi"),
    }
}

} // verus!
