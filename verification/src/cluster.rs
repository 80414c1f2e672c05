//! Cluster messages carried inside relayed sessions: decoding the relayed
//! bytes, telling the message kinds apart, and choosing the reply.

use vstd::prelude::*;
use vstd::string::StrSliceExecFns;
use crate::encoding::{base64_decode, base64_decoded, json_object_keys, json_object_keys_of};
use crate::backend::Backend;
use crate::text::{str_eq, string_views};

verus! {

/// One chat message of an OpenAI-compatible request.
#[derive(Debug)]
pub struct ApiMessage {
    pub role: String,
    pub content: String,
}

/// What decoding reads of the JSON `data` field of a relayData payload: a
/// string, an array (each element as an unsigned integer where it is one),
/// or any other JSON value.
#[derive(Debug)]
pub enum RelayDataValue {
    Text(String),
    Array(Vec<Option<u64>>),
    Other,
}

/// Every element is an unsigned integer.
pub open spec fn all_numbers(a: Seq<Option<u64>>) -> bool {
    forall|i: int| 0 <= i < a.len() ==> #[trigger] a[i] is Some
}

/// The bytes that a relayData `data` field carries: a string is standard
/// base64 where it decodes as such, else its own UTF-8 bytes; an array of
/// unsigned integers gives their low bytes; anything else carries nothing.
pub open spec fn decoded_relay_data(v: RelayDataValue) -> Option<Seq<u8>> {
    match v {
        RelayDataValue::Text(s) => match base64_decoded(s@) {
            Some(b) => Some(b),
            None => Some(vstd::utf8::encode_utf8(s@)),
        },
        RelayDataValue::Array(a) => if all_numbers(a@) {
            Some(Seq::new(a@.len(), |i: int| #[verifier::truncate] ((a@[i]->0) as u8)))
        } else {
            None
        },
        RelayDataValue::Other => None,
    }
}

/// The view of optional bytes.
pub open spec fn bytes_opt_view(r: Option<Vec<u8>>) -> Option<Seq<u8>> {
    match r {
        Some(v) => Some(v@),
        None => None,
    }
}

/// Decodes the `data` field of a relayData payload. Swift encodes `Data` as
/// base64 by default; a string that is not base64 is taken as raw text, and
/// an array as a byte array.
pub fn decode_relay_data(data_value: &RelayDataValue) -> (r: Option<Vec<u8>>)
    ensures
        bytes_opt_view(r) == decoded_relay_data(*data_value),
{
    match data_value {
        RelayDataValue::Text(s) => {
            match base64_decode(s.as_str()) {
                Some(bytes) => Some(bytes),
                None => Some(s.as_str().as_bytes_vec()),
            }
        },
        RelayDataValue::Array(arr) => {
            let mut out: Vec<u8> = Vec::new();
            let mut i: usize = 0;
            while i < arr.len()
                invariant
                    *data_value matches RelayDataValue::Array(a) && a@ == arr@,
                    i <= arr.len(),
                    out@.len() == i,
                    forall|k: int| 0 <= k < i ==> #[trigger] arr@[k] is Some && out@[k] == #[verifier::truncate] ((arr@[k]->0) as u8),
                decreases arr.len() - i,
            {
                match arr[i] {
                    Some(n) => {
                        out.push(#[verifier::truncate] (n as u8));
                    },
                    None => {
                        assert(!(arr@[i as int] is Some));
                        assert(!all_numbers(arr@));
                        return None;
                    },
                }
                i = i + 1;
            }
            assert(out@ =~= Seq::new(arr@.len(), |k: int| #[verifier::truncate] ((arr@[k]->0) as u8)));
            Some(out)
        },
        RelayDataValue::Other => None,
    }
}

/// The kinds of cluster message; an unknown kind keeps its key.
#[derive(Debug)]
pub enum ClusterMessageTag {
    Hello,
    HelloAck,
    Heartbeat,
    HeartbeatAck,
    InferenceRequest,
    InferenceChunk,
    InferenceComplete,
    InferenceError,
    Unknown(String),
}

/// Whether one of the keys is `k`.
pub fn has_key(keys: &Vec<String>, k: &str) -> (r: bool)
    ensures
        r == string_views(keys@).contains(k@),
{
    let mut i: usize = 0;
    while i < keys.len()
        invariant
            i <= keys.len(),
            forall|j: int| 0 <= j < i ==> keys@[j]@ != k@,
        decreases keys.len() - i,
    {
        if str_eq(keys[i].as_str(), k) {
            assert(string_views(keys@)[i as int] == k@);
            return true;
        }
        i = i + 1;
    }
    assert(!string_views(keys@).contains(k@)) by {
        if string_views(keys@).contains(k@) {
            let j = choose|j: int| 0 <= j < string_views(keys@).len() && string_views(keys@)[j] == k@;
            assert(keys@[j]@ == k@);
        }
    }
    false
}

/// The cluster message kind of an object with the given keys (in map
/// order): the first known kind present in the order hello, helloAck,
/// heartbeat, heartbeatAck, inferenceRequest, inferenceChunk,
/// inferenceComplete, inferenceError; else the first key as an unknown kind;
/// no kind for an empty object.
pub open spec fn cluster_tag_is(keys: Seq<Seq<char>>, t: Option<ClusterMessageTag>) -> bool {
    if keys.contains("hello"@) {
        t matches Some(ClusterMessageTag::Hello)
    } else if keys.contains("helloAck"@) {
        t matches Some(ClusterMessageTag::HelloAck)
    } else if keys.contains("heartbeat"@) {
        t matches Some(ClusterMessageTag::Heartbeat)
    } else if keys.contains("heartbeatAck"@) {
        t matches Some(ClusterMessageTag::HeartbeatAck)
    } else if keys.contains("inferenceRequest"@) {
        t matches Some(ClusterMessageTag::InferenceRequest)
    } else if keys.contains("inferenceChunk"@) {
        t matches Some(ClusterMessageTag::InferenceChunk)
    } else if keys.contains("inferenceComplete"@) {
        t matches Some(ClusterMessageTag::InferenceComplete)
    } else if keys.contains("inferenceError"@) {
        t matches Some(ClusterMessageTag::InferenceError)
    } else if keys.len() > 0 {
        t matches Some(ClusterMessageTag::Unknown(k)) && k@ == keys[0]
    } else {
        t is None
    }
}

/// The cluster kind names mean what they say: an object whose only key is
/// a known kind name gets that kind; a known kind is given only where its
/// name is among the keys, and none ranked before it (in the order hello,
/// helloAck, heartbeat, heartbeatAck, inferenceRequest, inferenceChunk,
/// inferenceComplete, inferenceError) is; an unknown kind is given only
/// where no known name is, and is the first key; no kind is given only for
/// no keys.
pub proof fn lemma_cluster_kind_names(keys: Seq<Seq<char>>, t: Option<ClusterMessageTag>)
    requires
        cluster_tag_is(keys, t),
    ensures
        keys == seq!["hello"@] ==> t matches Some(ClusterMessageTag::Hello),
        keys == seq!["helloAck"@] ==> t matches Some(ClusterMessageTag::HelloAck),
        keys == seq!["heartbeat"@] ==> t matches Some(ClusterMessageTag::Heartbeat),
        keys == seq!["heartbeatAck"@] ==> t matches Some(ClusterMessageTag::HeartbeatAck),
        keys == seq!["inferenceRequest"@] ==> t matches Some(ClusterMessageTag::InferenceRequest),
        keys == seq!["inferenceChunk"@] ==> t matches Some(ClusterMessageTag::InferenceChunk),
        keys == seq!["inferenceComplete"@] ==> t matches Some(ClusterMessageTag::InferenceComplete),
        keys == seq!["inferenceError"@] ==> t matches Some(ClusterMessageTag::InferenceError),
        t matches Some(ClusterMessageTag::Hello) ==> keys.contains("hello"@),
        t matches Some(ClusterMessageTag::HelloAck) ==> keys.contains("helloAck"@),
        t matches Some(ClusterMessageTag::Heartbeat) ==> keys.contains("heartbeat"@),
        t matches Some(ClusterMessageTag::HeartbeatAck) ==> keys.contains("heartbeatAck"@),
        t matches Some(ClusterMessageTag::InferenceRequest) ==> keys.contains("inferenceRequest"@),
        t matches Some(ClusterMessageTag::InferenceChunk) ==> keys.contains("inferenceChunk"@),
        t matches Some(ClusterMessageTag::InferenceComplete) ==> keys.contains("inferenceComplete"@),
        t matches Some(ClusterMessageTag::InferenceError) ==> keys.contains("inferenceError"@),
        t matches Some(ClusterMessageTag::HelloAck) ==> !keys.contains("hello"@),
        t matches Some(ClusterMessageTag::Heartbeat) ==> !keys.contains("hello"@) && !keys.contains("helloAck"@),
        t matches Some(ClusterMessageTag::HeartbeatAck) ==> !keys.contains("hello"@) && !keys.contains("helloAck"@) && !keys.contains("heartbeat"@),
        t matches Some(ClusterMessageTag::InferenceRequest) ==> !keys.contains("hello"@) && !keys.contains("helloAck"@) && !keys.contains("heartbeat"@) && !keys.contains("heartbeatAck"@),
        t matches Some(ClusterMessageTag::InferenceChunk) ==> !keys.contains("hello"@) && !keys.contains("helloAck"@) && !keys.contains("heartbeat"@) && !keys.contains("heartbeatAck"@) && !keys.contains("inferenceRequest"@),
        t matches Some(ClusterMessageTag::InferenceComplete) ==> !keys.contains("hello"@) && !keys.contains("helloAck"@) && !keys.contains("heartbeat"@) && !keys.contains("heartbeatAck"@) && !keys.contains("inferenceRequest"@) && !keys.contains("inferenceChunk"@),
        t matches Some(ClusterMessageTag::InferenceError) ==> !keys.contains("hello"@) && !keys.contains("helloAck"@) && !keys.contains("heartbeat"@) && !keys.contains("heartbeatAck"@) && !keys.contains("inferenceRequest"@) && !keys.contains("inferenceChunk"@) && !keys.contains("inferenceComplete"@),
        t matches Some(ClusterMessageTag::Unknown(k)) ==> {
            &&& keys.len() > 0
            &&& k@ == keys[0]
            &&& !keys.contains("hello"@)
            &&& !keys.contains("helloAck"@)
            &&& !keys.contains("heartbeat"@)
            &&& !keys.contains("heartbeatAck"@)
            &&& !keys.contains("inferenceRequest"@)
            &&& !keys.contains("inferenceChunk"@)
            &&& !keys.contains("inferenceComplete"@)
            &&& !keys.contains("inferenceError"@)
        },
        t is None <==> keys.len() == 0,
{
    reveal_strlit("hello");
    reveal_strlit("helloAck");
    reveal_strlit("heartbeat");
    reveal_strlit("heartbeatAck");
    reveal_strlit("inferenceRequest");
    reveal_strlit("inferenceChunk");
    reveal_strlit("inferenceComplete");
    reveal_strlit("inferenceError");
    assert("hello"@.len() == 5);
    assert("helloAck"@.len() == 8);
    assert("heartbeat"@.len() == 9);
    assert("heartbeatAck"@.len() == 12);
    assert("inferenceRequest"@.len() == 16);
    assert("inferenceChunk"@.len() == 14);
    assert("inferenceComplete"@.len() == 17);
    assert("inferenceError"@.len() == 14);
    assert("inferenceChunk"@[9] != "inferenceError"@[9]);
    if keys.len() == 1 {
        assert(forall|n: Seq<char>| keys.contains(n) <==> n == keys[0]);
    }
}

/// The kind of a cluster message from the keys of its JSON object.
pub fn classify_cluster_keys(keys: &Vec<String>) -> (r: Option<ClusterMessageTag>)
    ensures
        cluster_tag_is(string_views(keys@), r),
{
    if has_key(keys, "hello") {
        return Some(ClusterMessageTag::Hello);
    }
    if has_key(keys, "helloAck") {
        return Some(ClusterMessageTag::HelloAck);
    }
    if has_key(keys, "heartbeat") {
        return Some(ClusterMessageTag::Heartbeat);
    }
    if has_key(keys, "heartbeatAck") {
        return Some(ClusterMessageTag::HeartbeatAck);
    }
    if has_key(keys, "inferenceRequest") {
        return Some(ClusterMessageTag::InferenceRequest);
    }
    if has_key(keys, "inferenceChunk") {
        return Some(ClusterMessageTag::InferenceChunk);
    }
    if has_key(keys, "inferenceComplete") {
        return Some(ClusterMessageTag::InferenceComplete);
    }
    if has_key(keys, "inferenceError") {
        return Some(ClusterMessageTag::InferenceError);
    }
    if keys.len() > 0 {
        return Some(ClusterMessageTag::Unknown(keys[0].clone()));
    }
    None
}

/// The kind of the cluster message that JSON bytes hold; `None` where they
/// are not a JSON object, or an empty one.
pub fn cluster_message_kind(data: &[u8]) -> (r: Option<ClusterMessageTag>)
    ensures
        match json_object_keys_of(data@) {
            Some(ks) => cluster_tag_is(ks, r),
            None => r is None,
        },
{
    match json_object_keys(data) {
        Some(keys) => classify_cluster_keys(&keys),
        None => None,
    }
}

/// What a supply node does on a cluster message.
#[derive(Debug, Clone, Copy, PartialEq, Eq, Structural)]
pub enum ClusterReply {
    /// Answer a hello with a helloAck.
    SendHelloAck,
    /// Answer a heartbeat with a heartbeatAck.
    SendHeartbeatAck,
    /// Run the requested inference and stream its chunks back.
    RunInference,
    /// Log the unknown kind and do nothing.
    IgnoreUnknown,
    /// Responses are not expected by a supply node; nothing is done.
    Nothing,
}

/// The reply to a cluster message of the given kind.
pub fn reply_for(tag: &ClusterMessageTag) -> (r: ClusterReply)
    ensures
        r == match tag {
            ClusterMessageTag::Hello => ClusterReply::SendHelloAck,
            ClusterMessageTag::Heartbeat => ClusterReply::SendHeartbeatAck,
            ClusterMessageTag::InferenceRequest => ClusterReply::RunInference,
            ClusterMessageTag::Unknown(_) => ClusterReply::IgnoreUnknown,
            _ => ClusterReply::Nothing,
        },
{
    match tag {
        ClusterMessageTag::Hello => ClusterReply::SendHelloAck,
        ClusterMessageTag::Heartbeat => ClusterReply::SendHeartbeatAck,
        ClusterMessageTag::InferenceRequest => ClusterReply::RunInference,
        ClusterMessageTag::Unknown(_) => ClusterReply::IgnoreUnknown,
        _ => ClusterReply::Nothing,
    }
}

/// An event of a running inference: a streamed chunk, the end of the
/// stream, or a failure with its message.
#[derive(Debug)]
pub enum InferenceEvent {
    Chunk(serde_json::Value),
    Finished,
    Failed(String),
}

/// The cluster message that answers an inference event: `inferenceChunk`,
/// `inferenceComplete` or `inferenceError`, each with the request's ID.
#[derive(Debug)]
pub enum InferenceReply {
    Chunk { request_id: String, chunk: serde_json::Value },
    Complete { request_id: String },
    Error { request_id: String, error_message: String },
}

/// The reply to an event of the inference for `request_id`: each chunk is
/// streamed back, the end is announced as complete, a failure as an error
/// with its message.
pub fn inference_reply(request_id: &str, event: InferenceEvent) -> (r: InferenceReply)
    ensures
        match event {
            InferenceEvent::Chunk(c) => r matches InferenceReply::Chunk { request_id: id, chunk } && id@
                == request_id@ && chunk == c,
            InferenceEvent::Finished => r matches InferenceReply::Complete { request_id: id } && id@
                == request_id@,
            InferenceEvent::Failed(m) => r matches InferenceReply::Error {
                request_id: id,
                error_message: e,
            } && id@ == request_id@ && e@ == m@,
        },
{
    match event {
        InferenceEvent::Chunk(chunk) => InferenceReply::Chunk { request_id: request_id.to_owned(), chunk },
        InferenceEvent::Finished => InferenceReply::Complete { request_id: request_id.to_owned() },
        InferenceEvent::Failed(error_message) => InferenceReply::Error {
            request_id: request_id.to_owned(),
            error_message,
        },
    }
}

/// The answer to a hello: this device's information, the protocol version,
/// and the models the node serves.
#[derive(Debug)]
pub struct HelloAck {
    pub device_info: serde_json::Value,
    pub protocol_version: u32,
    pub loaded_models: Vec<String>,
}

/// The helloAck of a node with the given device information and backend.
pub fn hello_ack(device_info: serde_json::Value, backend: &Backend) -> (r: HelloAck)
    ensures
        r.device_info == device_info,
        r.protocol_version == 1,
        string_views(r.loaded_models@) == seq![backend.spec_model_id()],
{
    let loaded_models = backend.loaded_models();
    assert(string_views(loaded_models@) =~= seq![backend.spec_model_id()]);
    HelloAck { device_info, protocol_version: 1, loaded_models }
}

/// The answer to a heartbeat, apart from its timestamp: a supply node
/// reports nominal temperature, no throttling, the models it serves, that
/// it is not generating, and an empty queue.
#[derive(Debug)]
pub struct HeartbeatAck {
    pub device_id: String,
    pub thermal_level: String,
    pub throttle_level: u32,
    pub loaded_models: Vec<String>,
    pub is_generating: bool,
    pub queue_depth: u32,
}

/// The heartbeatAck of a node with the given device ID and backend.
pub fn heartbeat_ack(device_id: String, backend: &Backend) -> (r: HeartbeatAck)
    ensures
        r.device_id@ == device_id@,
        r.thermal_level@ == "nominal"@,
        r.throttle_level == 100,
        string_views(r.loaded_models@) == seq![backend.spec_model_id()],
        !r.is_generating,
        r.queue_depth == 0,
{
    let loaded_models = backend.loaded_models();
    assert(string_views(loaded_models@) =~= seq![backend.spec_model_id()]);
    HeartbeatAck {
        device_id,
        thermal_level: "nominal".to_owned(),
        throttle_level: 100,
        loaded_models,
        is_generating: false,
        queue_depth: 0,
    }
}

} // verus!
