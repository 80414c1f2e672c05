//! Relay protocol: payloads, the kinds of incoming relay message, the
//! session's reaction to them, and the payloads a node sends.

use vstd::prelude::*;
use crate::cluster::{decoded_relay_data, has_key, RelayDataValue};
use crate::encoding::{base64_encode, base64_encoded, base64_input_limit, json_object_keys, json_object_keys_of};
use crate::identity::NodeIdentity;
use crate::text::{concat3, string_views, utf8_string};

verus! {

/// A JSON value of serde_json, carried through unread.
#[verifier::external_type_specification]
#[verifier::external_body]
pub struct ExJsonValue(serde_json::Value);

/// Payload of a `discover` request.
#[derive(Debug)]
pub struct DiscoverPayload {
    pub requesting_node_id: String,
}

/// Payload of `relayOpen`, `relayReady` and `relayClose`.
#[derive(Debug)]
pub struct RelaySessionPayload {
    pub from_node_id: String,
    pub to_node_id: String,
    pub session_id: String,
}

/// Payload of `relayData`; `data` carries base64-encoded bytes from Swift.
#[derive(Debug)]
pub struct RelayDataPayload {
    pub from_node_id: String,
    pub to_node_id: String,
    pub session_id: String,
    pub data: RelayDataValue,
}

/// Payload of `peerJoined` and `peerLeft`.
#[derive(Debug)]
pub struct PeerNotificationPayload {
    pub node_id: String,
    pub display_name: String,
}

/// Payload of an `error` from the relay.
#[derive(Debug)]
pub struct RelayErrorPayload {
    pub code: String,
    pub message: String,
}

/// A parsed incoming relay message.
#[derive(Debug)]
pub enum IncomingRelayMessage {
    RegisterAck { node_id: String },
    DiscoverResponse { peers: Vec<serde_json::Value> },
    RelayOpen(RelaySessionPayload),
    RelayReady(RelaySessionPayload),
    RelayData(RelayDataPayload),
    RelayClose(RelaySessionPayload),
    PeerJoined(PeerNotificationPayload),
    PeerLeft(PeerNotificationPayload),
    Error(RelayErrorPayload),
    Unknown(String),
}

/// The kinds of incoming relay message; an unknown kind keeps its key.
#[derive(Debug)]
pub enum RelayMessageTag {
    RegisterAck,
    DiscoverResponse,
    RelayOpen,
    RelayReady,
    RelayData,
    RelayClose,
    PeerJoined,
    PeerLeft,
    Error,
    Unknown(String),
}

/// The relay message kind of an object with the given keys (in map order):
/// the first known kind present in the order registerAck,
/// discoverResponse, relayOpen, relayReady, relayData, relayClose,
/// peerJoined, peerLeft, error; else the first key as an unknown kind; no
/// kind for an empty object.
pub open spec fn relay_tag_is(keys: Seq<Seq<char>>, t: Option<RelayMessageTag>) -> bool {
    if keys.contains("registerAck"@) {
        t matches Some(RelayMessageTag::RegisterAck)
    } else if keys.contains("discoverResponse"@) {
        t matches Some(RelayMessageTag::DiscoverResponse)
    } else if keys.contains("relayOpen"@) {
        t matches Some(RelayMessageTag::RelayOpen)
    } else if keys.contains("relayReady"@) {
        t matches Some(RelayMessageTag::RelayReady)
    } else if keys.contains("relayData"@) {
        t matches Some(RelayMessageTag::RelayData)
    } else if keys.contains("relayClose"@) {
        t matches Some(RelayMessageTag::RelayClose)
    } else if keys.contains("peerJoined"@) {
        t matches Some(RelayMessageTag::PeerJoined)
    } else if keys.contains("peerLeft"@) {
        t matches Some(RelayMessageTag::PeerLeft)
    } else if keys.contains("error"@) {
        t matches Some(RelayMessageTag::Error)
    } else if keys.len() > 0 {
        t matches Some(RelayMessageTag::Unknown(k)) && k@ == keys[0]
    } else {
        t is None
    }
}

/// The relay message names mean what they say: an object whose only key
/// is one of the nine known names gets that name's kind; a known kind is
/// given only where its name is among the keys and no name ranked before it
/// (in the order registerAck, discoverResponse, relayOpen, relayReady,
/// relayData, relayClose, peerJoined, peerLeft, error) is; an unknown kind
/// is given
/// only where none of the nine names is, and is the first key; no kind is
/// given only for no keys.
pub proof fn lemma_relay_kind_names(keys: Seq<Seq<char>>, t: Option<RelayMessageTag>)
    requires
        relay_tag_is(keys, t),
    ensures
        keys == seq!["registerAck"@] ==> t matches Some(RelayMessageTag::RegisterAck),
        keys == seq!["discoverResponse"@] ==> t matches Some(RelayMessageTag::DiscoverResponse),
        keys == seq!["relayOpen"@] ==> t matches Some(RelayMessageTag::RelayOpen),
        keys == seq!["relayReady"@] ==> t matches Some(RelayMessageTag::RelayReady),
        keys == seq!["relayData"@] ==> t matches Some(RelayMessageTag::RelayData),
        keys == seq!["relayClose"@] ==> t matches Some(RelayMessageTag::RelayClose),
        keys == seq!["peerJoined"@] ==> t matches Some(RelayMessageTag::PeerJoined),
        keys == seq!["peerLeft"@] ==> t matches Some(RelayMessageTag::PeerLeft),
        keys == seq!["error"@] ==> t matches Some(RelayMessageTag::Error),
        t matches Some(RelayMessageTag::RegisterAck) ==> keys.contains("registerAck"@),
        t matches Some(RelayMessageTag::DiscoverResponse) ==> keys.contains("discoverResponse"@),
        t matches Some(RelayMessageTag::RelayOpen) ==> keys.contains("relayOpen"@),
        t matches Some(RelayMessageTag::RelayReady) ==> keys.contains("relayReady"@),
        t matches Some(RelayMessageTag::RelayData) ==> keys.contains("relayData"@),
        t matches Some(RelayMessageTag::RelayClose) ==> keys.contains("relayClose"@),
        t matches Some(RelayMessageTag::PeerJoined) ==> keys.contains("peerJoined"@),
        t matches Some(RelayMessageTag::PeerLeft) ==> keys.contains("peerLeft"@),
        t matches Some(RelayMessageTag::Error) ==> keys.contains("error"@),
        t matches Some(RelayMessageTag::DiscoverResponse) ==> !keys.contains("registerAck"@),
        t matches Some(RelayMessageTag::RelayOpen) ==> !keys.contains("registerAck"@) && !keys.contains("discoverResponse"@),
        t matches Some(RelayMessageTag::RelayReady) ==> !keys.contains("registerAck"@) && !keys.contains("discoverResponse"@) && !keys.contains("relayOpen"@),
        t matches Some(RelayMessageTag::RelayData) ==> !keys.contains("registerAck"@) && !keys.contains("discoverResponse"@) && !keys.contains("relayOpen"@) && !keys.contains("relayReady"@),
        t matches Some(RelayMessageTag::RelayClose) ==> !keys.contains("registerAck"@) && !keys.contains("discoverResponse"@) && !keys.contains("relayOpen"@) && !keys.contains("relayReady"@) && !keys.contains("relayData"@),
        t matches Some(RelayMessageTag::PeerJoined) ==> !keys.contains("registerAck"@) && !keys.contains("discoverResponse"@) && !keys.contains("relayOpen"@) && !keys.contains("relayReady"@) && !keys.contains("relayData"@) && !keys.contains("relayClose"@),
        t matches Some(RelayMessageTag::PeerLeft) ==> !keys.contains("registerAck"@) && !keys.contains("discoverResponse"@) && !keys.contains("relayOpen"@) && !keys.contains("relayReady"@) && !keys.contains("relayData"@) && !keys.contains("relayClose"@) && !keys.contains("peerJoined"@),
        t matches Some(RelayMessageTag::Error) ==> !keys.contains("registerAck"@) && !keys.contains("discoverResponse"@) && !keys.contains("relayOpen"@) && !keys.contains("relayReady"@) && !keys.contains("relayData"@) && !keys.contains("relayClose"@) && !keys.contains("peerJoined"@) && !keys.contains("peerLeft"@),
        t matches Some(RelayMessageTag::Unknown(k)) ==> {
            &&& keys.len() > 0
            &&& k@ == keys[0]
            &&& !keys.contains("registerAck"@)
            &&& !keys.contains("discoverResponse"@)
            &&& !keys.contains("relayOpen"@)
            &&& !keys.contains("relayReady"@)
            &&& !keys.contains("relayData"@)
            &&& !keys.contains("relayClose"@)
            &&& !keys.contains("peerJoined"@)
            &&& !keys.contains("peerLeft"@)
            &&& !keys.contains("error"@)
        },
        t is None <==> keys.len() == 0,
{
    reveal_strlit("registerAck");
    reveal_strlit("discoverResponse");
    reveal_strlit("relayOpen");
    reveal_strlit("relayReady");
    reveal_strlit("relayData");
    reveal_strlit("relayClose");
    reveal_strlit("peerJoined");
    reveal_strlit("peerLeft");
    reveal_strlit("error");
    assert("registerAck"@.len() == 11);
    assert("discoverResponse"@.len() == 16);
    assert("relayOpen"@.len() == 9);
    assert("relayReady"@.len() == 10);
    assert("relayData"@.len() == 9);
    assert("relayClose"@.len() == 10);
    assert("peerJoined"@.len() == 10);
    assert("peerLeft"@.len() == 8);
    assert("error"@.len() == 5);
    assert("relayOpen"@[5] != "relayData"@[5]);
    assert("relayReady"@[5] != "relayClose"@[5]);
    assert("peerJoined"@[0] != "relayReady"@[0]);
    if keys.len() == 1 {
        assert(forall|n: Seq<char>| keys.contains(n) <==> n == keys[0]);
    }
}

/// The kind of an incoming relay message from the keys of its JSON object.
pub fn classify_relay_keys(keys: &Vec<String>) -> (r: Option<RelayMessageTag>)
    ensures
        relay_tag_is(string_views(keys@), r),
{
    if has_key(keys, "registerAck") {
        return Some(RelayMessageTag::RegisterAck);
    }
    if has_key(keys, "discoverResponse") {
        return Some(RelayMessageTag::DiscoverResponse);
    }
    if has_key(keys, "relayOpen") {
        return Some(RelayMessageTag::RelayOpen);
    }
    if has_key(keys, "relayReady") {
        return Some(RelayMessageTag::RelayReady);
    }
    if has_key(keys, "relayData") {
        return Some(RelayMessageTag::RelayData);
    }
    if has_key(keys, "relayClose") {
        return Some(RelayMessageTag::RelayClose);
    }
    if has_key(keys, "peerJoined") {
        return Some(RelayMessageTag::PeerJoined);
    }
    if has_key(keys, "peerLeft") {
        return Some(RelayMessageTag::PeerLeft);
    }
    if has_key(keys, "error") {
        return Some(RelayMessageTag::Error);
    }
    if keys.len() > 0 {
        return Some(RelayMessageTag::Unknown(keys[0].clone()));
    }
    None
}

/// The kind of the relay message in a text frame; `None` where the text is
/// not a JSON object, or an empty one.
pub fn relay_message_kind(raw: &str) -> (r: Option<RelayMessageTag>)
    ensures
        match json_object_keys_of(vstd::utf8::encode_utf8(raw@)) {
            Some(ks) => relay_tag_is(ks, r),
            None => r is None,
        },
{
    match json_object_keys(raw.as_bytes()) {
        Some(keys) => classify_relay_keys(&keys),
        None => None,
    }
}

/// What a relay session does on an incoming message.
#[derive(Debug)]
pub enum SessionAction {
    /// Registration was acknowledged: ask the relay for peers.
    Discover,
    /// A peer opened a relayed session: accept it.
    SendRelayReady { to_node_id: String, session_id: String },
    /// Relayed data arrived: handle the cluster message it carries.
    HandleRelayData,
    /// Only log the message.
    Log,
}

/// The session's reaction to an incoming relay message.
pub fn session_action(msg: &IncomingRelayMessage) -> (r: SessionAction)
    ensures
        match msg {
            IncomingRelayMessage::RegisterAck { .. } => r is Discover,
            IncomingRelayMessage::RelayOpen(s) => r matches SessionAction::SendRelayReady {
                to_node_id,
                session_id,
            } && to_node_id@ == s.from_node_id@ && session_id@ == s.session_id@,
            IncomingRelayMessage::RelayData(_) => r is HandleRelayData,
            _ => r is Log,
        },
{
    match msg {
        IncomingRelayMessage::RegisterAck { .. } => SessionAction::Discover,
        IncomingRelayMessage::RelayOpen(s) => SessionAction::SendRelayReady {
            to_node_id: s.from_node_id.clone(),
            session_id: s.session_id.clone(),
        },
        IncomingRelayMessage::RelayData(_) => SessionAction::HandleRelayData,
        _ => SessionAction::Log,
    }
}

/// A node's side of the relay connection: its node ID and the relay's URL.
/// The payloads it builds are sent from this node.
pub struct RelayClient {
    node_id: String,
    relay_url: String,
}

impl RelayClient {
    /// This node's ID.
    pub closed spec fn spec_node_id(&self) -> Seq<char> {
        self.node_id@
    }

    /// The relay's URL.
    pub closed spec fn spec_relay_url(&self) -> Seq<char> {
        self.relay_url@
    }

    /// The client of the given identity for the relay at `relay_url`.
    pub fn new(relay_url: &str, identity: &NodeIdentity) -> (r: RelayClient)
        ensures
            r.spec_node_id() == identity.spec_node_id(),
            r.spec_relay_url() == relay_url@,
    {
        RelayClient { node_id: identity.node_id(), relay_url: relay_url.to_owned() }
    }

    /// The WebSocket URL to connect to: the relay's URL with this node's ID
    /// as the `node` query parameter.
    pub fn connect_url(&self) -> (r: String)
        ensures
            r@ == self.spec_relay_url() + "?node="@ + self.spec_node_id(),
    {
        concat3(self.relay_url.as_str(), "?node=", self.node_id.as_str())
    }

    /// This node's ID.
    pub fn node_id(&self) -> (r: &str)
        ensures
            r@ == self.spec_node_id(),
    {
        self.node_id.as_str()
    }

    /// The relay's URL.
    pub fn relay_url(&self) -> (r: &str)
        ensures
            r@ == self.spec_relay_url(),
    {
        self.relay_url.as_str()
    }

    /// The payload of a `discover` request from this node.
    pub fn discover_payload(&self) -> (r: DiscoverPayload)
        ensures
            r.requesting_node_id@ == self.spec_node_id(),
    {
        DiscoverPayload { requesting_node_id: self.node_id.clone() }
    }

    /// The payload of a session message from this node to a peer.
    pub fn session_payload(&self, to_node_id: &str, session_id: &str) -> (r: RelaySessionPayload)
        ensures
            r.from_node_id@ == self.spec_node_id(),
            r.to_node_id@ == to_node_id@,
            r.session_id@ == session_id@,
    {
        RelaySessionPayload {
            from_node_id: self.node_id.clone(),
            to_node_id: to_node_id.to_owned(),
            session_id: session_id.to_owned(),
        }
    }

    /// The payload of `relayReady`, accepting a peer's relayed session.
    pub fn relay_ready_payload(&self, to_node_id: &str, session_id: &str) -> (r: RelaySessionPayload)
        ensures
            r.from_node_id@ == self.spec_node_id(),
            r.to_node_id@ == to_node_id@,
            r.session_id@ == session_id@,
    {
        self.session_payload(to_node_id, session_id)
    }

    /// The payload of `relayClose`, closing a relayed session.
    pub fn relay_close_payload(&self, to_node_id: &str, session_id: &str) -> (r: RelaySessionPayload)
        ensures
            r.from_node_id@ == self.spec_node_id(),
            r.to_node_id@ == to_node_id@,
            r.session_id@ == session_id@,
    {
        self.session_payload(to_node_id, session_id)
    }

    /// The payload of `relayData` carrying `data` as standard base64 text;
    /// decoding its `data` field gives back exactly `data`. Data too long
    /// for its base64 text to fit in a string is left out.
    pub fn relay_data_payload(&self, to_node_id: &str, session_id: &str, data: &[u8]) -> (r: RelayDataPayload)
        requires
            data@.len() <= base64_input_limit(),
        ensures
            r.from_node_id@ == self.spec_node_id(),
            r.to_node_id@ == to_node_id@,
            r.session_id@ == session_id@,
            r.data matches RelayDataValue::Text(t) && t@ == base64_encoded(data@),
            decoded_relay_data(r.data) == Some(data@),
    {
        let encoded = base64_encode(data);
        RelayDataPayload {
            from_node_id: self.node_id.clone(),
            to_node_id: to_node_id.to_owned(),
            session_id: session_id.to_owned(),
            data: RelayDataValue::Text(encoded),
        }
    }
}

/// The payload of `register`: this node's ID and public key (the same
/// value), no WireGuard key, its display name, and the signature of its ID.
/// The capabilities that go with it are carried by the program around the
/// library, as they hold floating-point figures.
#[derive(Debug)]
pub struct RegisterPayload {
    pub node_id: String,
    pub public_key: String,
    pub wg_public_key: Option<String>,
    pub display_name: String,
    pub signature: String,
}

/// The registration of an identity under a display name.
pub fn register_payload(identity: &NodeIdentity, display_name: &str) -> (r: RegisterPayload)
    ensures
        r.node_id@ == identity.spec_node_id(),
        r.public_key@ == identity.spec_node_id(),
        r.wg_public_key is None,
        r.display_name@ == display_name@,
        r.signature@ == crate::encoding::hex_lower(
            crate::identity::ed25519_signature(
                identity.secret_key(),
                vstd::utf8::encode_utf8(identity.spec_node_id()),
            ),
        ),
{
    RegisterPayload {
        node_id: identity.node_id(),
        public_key: identity.public_key_hex(),
        wg_public_key: None,
        display_name: display_name.to_owned(),
        signature: identity.sign_node_id(),
    }
}

/// A message a node sends to the relay.
#[derive(Debug)]
pub enum OutgoingRelayMessage {
    Register { register: RegisterPayload },
    Discover { discover: DiscoverPayload },
    RelayOpen { relay_open: RelaySessionPayload },
    RelayReady { relay_ready: RelaySessionPayload },
    RelayData { relay_data: RelayDataPayload },
    RelayClose { relay_close: RelaySessionPayload },
}

/// A WebSocket frame as the relay connection reads it.
#[derive(Debug)]
pub enum Frame {
    Text(String),
    Binary(Vec<u8>),
    Ping(Vec<u8>),
    Close,
    ReadError,
    Other,
}

/// What the connection does with a frame.
#[derive(Debug)]
pub enum FrameAction {
    /// Parse the text as a relay message.
    Parse(String),
    /// Answer the ping with a pong carrying the same data.
    Pong(Vec<u8>),
    /// Stop reading: the relay closed the connection or reading failed.
    Stop,
    /// Nothing to do.
    Ignore,
}

/// The connection's reaction to a frame: text, and binary data that is
/// valid UTF-8, are parsed; pings are answered; a close or a read error
/// ends reading; anything else is ignored.
pub fn frame_action(frame: Frame) -> (r: FrameAction)
    ensures
        match frame {
            Frame::Text(t) => r matches FrameAction::Parse(s) && s@ == t@,
            Frame::Binary(b) => if vstd::utf8::valid_utf8(b@) {
                r matches FrameAction::Parse(s) && s@ == vstd::utf8::decode_utf8(b@)
            } else {
                r is Ignore
            },
            Frame::Ping(d) => r matches FrameAction::Pong(p) && p@ == d@,
            Frame::Close => r is Stop,
            Frame::ReadError => r is Stop,
            Frame::Other => r is Ignore,
        },
{
    match frame {
        Frame::Text(t) => FrameAction::Parse(t),
        Frame::Binary(b) => match utf8_string(b) {
            Some(s) => FrameAction::Parse(s),
            None => FrameAction::Ignore,
        },
        Frame::Ping(d) => FrameAction::Pong(d),
        Frame::Close => FrameAction::Stop,
        Frame::ReadError => FrameAction::Stop,
        Frame::Other => FrameAction::Ignore,
    }
}

/// The longest wait between reconnection attempts, in seconds.
pub const MAX_RECONNECT_DELAY_SECS: u64 = 60;

/// Exponential backoff between reconnection attempts: 1 s, doubling up to
/// 60 s, and back to 1 s after a connection is made.
#[derive(Debug)]
pub struct ReconnectBackoff {
    delay_secs: u64,
}

impl ReconnectBackoff {
    #[verifier::type_invariant]
    spec fn delay_in_range(&self) -> bool {
        1 <= self.delay_secs <= MAX_RECONNECT_DELAY_SECS
    }

    /// The wait before the next attempt.
    pub closed spec fn spec_delay(&self) -> u64 {
        self.delay_secs
    }

    /// A backoff whose first wait is one second.
    pub fn new() -> (r: ReconnectBackoff)
        ensures
            r.spec_delay() == 1,
    {
        ReconnectBackoff { delay_secs: 1 }
    }

    /// The wait before the next attempt; the wait after it doubles, up to
    /// the limit.
    pub fn next_delay(&mut self) -> (r: u64)
        ensures
            r == old(self).spec_delay(),
            1 <= r <= MAX_RECONNECT_DELAY_SECS,
            final(self).spec_delay() == if 2 * r <= MAX_RECONNECT_DELAY_SECS {
                2 * r
            } else {
                MAX_RECONNECT_DELAY_SECS as int
            },
    {
        proof {
            use_type_invariant(&*self);
        }
        let d = self.delay_secs;
        let next = if 2 * d <= MAX_RECONNECT_DELAY_SECS {
            2 * d
        } else {
            MAX_RECONNECT_DELAY_SECS
        };
        self.delay_secs = next;
        d
    }

    /// Starts again from one second, after a connection was made.
    pub fn reset(&mut self)
        ensures
            final(self).spec_delay() == 1,
    {
        self.delay_secs = 1;
    }
}

} // verus!
