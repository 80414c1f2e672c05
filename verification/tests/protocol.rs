use teale_node::backend::Backend;
use teale_node::inference::InferenceProxy;
use teale_node::cluster::{
    classify_cluster_keys, cluster_message_kind, decode_relay_data, heartbeat_ack, hello_ack,
    inference_reply, reply_for, ApiMessage, ClusterMessageTag, ClusterReply, InferenceEvent,
    InferenceReply, RelayDataValue,
};
use teale_node::encoding::{base64_decode, base64_encode, hex_encode};
use teale_node::identity::{IdentityError, NodeIdentity};
use teale_node::relay::{
    classify_relay_keys, frame_action, register_payload, relay_message_kind, session_action, Frame,
    FrameAction, IncomingRelayMessage, ReconnectBackoff, RelayClient, RelayDataPayload, RelayMessageTag,
    RelaySessionPayload, SessionAction, MAX_RECONNECT_DELAY_SECS,
};

fn keys(ks: &[&str]) -> Vec<String> {
    ks.iter().map(|k| k.to_string()).collect()
}

fn rfc8032_identity() -> NodeIdentity {
    let secret = hex_bytes("9d61b19deffd5a60ba844af492ec2cc44449c5697b326919703bac031cae7f60");
    let mut a = [0u8; 32];
    a.copy_from_slice(&secret);
    NodeIdentity::from_secret(a)
}

fn hex_bytes(s: &str) -> Vec<u8> {
    (0..s.len()).step_by(2).map(|i| u8::from_str_radix(&s[i..i + 2], 16).unwrap()).collect()
}

#[test]
fn hex_encode_writes_lower_case_pairs() {
    assert_eq!(hex_encode(&[0xde, 0xad, 0x0f, 0x00]), "dead0f00");
    assert_eq!(hex_encode(&[]), "");
}

#[test]
fn base64_standard_round_trip() {
    assert_eq!(base64_encode(b"hello"), "aGVsbG8=");
    assert_eq!(base64_decode("aGVsbG8="), Some(b"hello".to_vec()));
    assert_eq!(base64_decode("not base64!"), None);
}

#[test]
fn node_id_is_hex_public_key() {
    let id = rfc8032_identity();
    assert_eq!(id.node_id(), "d75a980182b10ab7d54bfed3c964073a0ee172f3daa62325af021a68f707511a");
    assert_eq!(id.node_id().len(), 64);
    assert_eq!(id.public_key_hex(), id.node_id());
}

#[test]
fn sign_hex_matches_rfc8032_vector() {
    let id = rfc8032_identity();
    assert_eq!(
        id.sign_hex(b""),
        "e5564300c360ac729086e2cc806e828a84877f1eb8e5d974d873e065224901555fb8821590a33bacc61e39701cf9b46bd25bf5f0595bbe24655141438e7a100b"
    );
}

#[test]
fn sign_node_id_signs_the_id_text() {
    let id = rfc8032_identity();
    assert_eq!(id.sign_node_id(), id.sign_hex(id.node_id().as_bytes()));
    assert_eq!(id.sign_node_id().len(), 128);
}

#[test]
fn sign_session_signs_colon_joined_fields() {
    let id = rfc8032_identity();
    assert_eq!(id.sign_session("from", "to", "sess"), id.sign_hex(b"from:to:sess"));
    assert_ne!(id.sign_session("from", "to", "sess"), id.sign_hex(b"from:to:other"));
}

#[test]
fn key_file_must_hold_32_bytes() {
    assert!(NodeIdentity::from_key_file(&[7u8; 32]).is_ok());
    let id = NodeIdentity::from_key_file(&[7u8; 32]).unwrap();
    assert_eq!(id.secret_bytes(), [7u8; 32]);
    match NodeIdentity::from_key_file(&[1, 2, 3]) {
        Err(e @ IdentityError::WrongSize(3)) => assert_eq!(
            e.message(),
            "Identity file has wrong size (expected 32 bytes, got 3)"
        ),
        other => panic!("unexpected {:?}", other.is_ok()),
    }
}

#[test]
fn relay_data_base64_string_is_decoded() {
    let v = RelayDataValue::Text("eyJoZWxsbyI6e319".to_string());
    assert_eq!(decode_relay_data(&v), Some(br#"{"hello":{}}"#.to_vec()));
}

#[test]
fn relay_data_plain_string_is_taken_raw() {
    let v = RelayDataValue::Text(r#"{"hello":{}}"#.to_string());
    assert_eq!(decode_relay_data(&v), Some(br#"{"hello":{}}"#.to_vec()));
}

#[test]
fn relay_data_byte_array_keeps_low_bytes() {
    let v = RelayDataValue::Array(vec![Some(1), Some(258), Some(255)]);
    assert_eq!(decode_relay_data(&v), Some(vec![1, 2, 255]));
    let bad = RelayDataValue::Array(vec![Some(1), None]);
    assert_eq!(decode_relay_data(&bad), None);
    assert_eq!(decode_relay_data(&RelayDataValue::Array(vec![])), Some(vec![]));
    assert_eq!(decode_relay_data(&RelayDataValue::Other), None);
}

#[test]
fn relay_data_payload_round_trips() {
    let id = rfc8032_identity();
    let client = RelayClient::new("wss://relay.teale.com/ws", &id);
    let data = br#"{"inferenceComplete":{"requestID":"r1"}}"#;
    let p: RelayDataPayload = client.relay_data_payload("peer", "s1", data);
    assert_eq!(p.from_node_id, id.node_id());
    assert_eq!(p.to_node_id, "peer");
    assert_eq!(p.session_id, "s1");
    assert_eq!(decode_relay_data(&p.data), Some(data.to_vec()));
}

#[test]
fn relay_client_payloads_come_from_this_node() {
    let id = rfc8032_identity();
    let client = RelayClient::new("wss://relay.example/ws", &id);
    assert_eq!(client.node_id(), id.node_id());
    assert_eq!(client.relay_url(), "wss://relay.example/ws");
    assert_eq!(
        client.connect_url(),
        format!("wss://relay.example/ws?node={}", id.node_id())
    );
    assert_eq!(client.discover_payload().requesting_node_id, id.node_id());
    let r = client.relay_ready_payload("peer", "s9");
    assert_eq!((r.from_node_id.as_str(), r.to_node_id.as_str(), r.session_id.as_str()), (id.node_id().as_str(), "peer", "s9"));
    let c = client.relay_close_payload("peer2", "s8");
    assert_eq!((c.from_node_id.as_str(), c.to_node_id.as_str(), c.session_id.as_str()), (id.node_id().as_str(), "peer2", "s8"));
}

#[test]
fn cluster_kind_prefers_known_keys_in_order() {
    assert!(matches!(classify_cluster_keys(&keys(&["inferenceChunk", "hello"])), Some(ClusterMessageTag::Hello)));
    assert!(matches!(classify_cluster_keys(&keys(&["heartbeatAck", "heartbeat"])), Some(ClusterMessageTag::Heartbeat)));
    assert!(matches!(classify_cluster_keys(&keys(&["inferenceRequest"])), Some(ClusterMessageTag::InferenceRequest)));
    assert!(matches!(classify_cluster_keys(&keys(&["inferenceError"])), Some(ClusterMessageTag::InferenceError)));
    match classify_cluster_keys(&keys(&["zeta", "alpha"])) {
        Some(ClusterMessageTag::Unknown(k)) => assert_eq!(k, "zeta"),
        _ => panic!("expected unknown"),
    }
    assert!(classify_cluster_keys(&keys(&[])).is_none());
}

#[test]
fn cluster_message_kind_reads_json_objects() {
    assert!(matches!(cluster_message_kind(br#"{"hello":{"protocolVersion":1}}"#), Some(ClusterMessageTag::Hello)));
    assert!(matches!(cluster_message_kind(br#"{"helloAck":{}}"#), Some(ClusterMessageTag::HelloAck)));
    match cluster_message_kind(br#"{"zeta":1,"alpha":2}"#) {
        Some(ClusterMessageTag::Unknown(k)) => assert_eq!(k, "alpha"),
        _ => panic!("expected unknown"),
    }
    assert!(cluster_message_kind(b"{}").is_none());
    assert!(cluster_message_kind(b"[1,2]").is_none());
    assert!(cluster_message_kind(b"not json").is_none());
}

#[test]
fn cluster_replies() {
    assert_eq!(reply_for(&ClusterMessageTag::Hello), ClusterReply::SendHelloAck);
    assert_eq!(reply_for(&ClusterMessageTag::Heartbeat), ClusterReply::SendHeartbeatAck);
    assert_eq!(reply_for(&ClusterMessageTag::InferenceRequest), ClusterReply::RunInference);
    assert_eq!(reply_for(&ClusterMessageTag::Unknown("x".to_string())), ClusterReply::IgnoreUnknown);
    assert_eq!(reply_for(&ClusterMessageTag::HelloAck), ClusterReply::Nothing);
    assert_eq!(reply_for(&ClusterMessageTag::InferenceComplete), ClusterReply::Nothing);
}

#[test]
fn relay_kind_prefers_known_keys_in_order() {
    assert!(matches!(classify_relay_keys(&keys(&["error", "registerAck"])), Some(RelayMessageTag::RegisterAck)));
    assert!(matches!(classify_relay_keys(&keys(&["peerLeft", "relayData"])), Some(RelayMessageTag::RelayData)));
    assert!(matches!(relay_message_kind(r#"{"relayOpen":{"fromNodeId":"a"}}"#), Some(RelayMessageTag::RelayOpen)));
    assert!(matches!(relay_message_kind(r#"{"error":{"code":"x","message":"y"}}"#), Some(RelayMessageTag::Error)));
    match relay_message_kind(r#"{"offer":{}}"#) {
        Some(RelayMessageTag::Unknown(k)) => assert_eq!(k, "offer"),
        _ => panic!("expected unknown"),
    }
    assert!(relay_message_kind("{}").is_none());
    assert!(relay_message_kind("garbage").is_none());
}

#[test]
fn session_reacts_to_relay_messages() {
    assert!(matches!(session_action(&IncomingRelayMessage::RegisterAck { node_id: "n".to_string() }), SessionAction::Discover));
    let open = IncomingRelayMessage::RelayOpen(RelaySessionPayload {
        from_node_id: "peer".to_string(),
        to_node_id: "me".to_string(),
        session_id: "s1".to_string(),
    });
    match session_action(&open) {
        SessionAction::SendRelayReady { to_node_id, session_id } => {
            assert_eq!(to_node_id, "peer");
            assert_eq!(session_id, "s1");
        }
        _ => panic!("expected relayReady"),
    }
    let data = IncomingRelayMessage::RelayData(RelayDataPayload {
        from_node_id: "peer".to_string(),
        to_node_id: "me".to_string(),
        session_id: "s1".to_string(),
        data: RelayDataValue::Other,
    });
    assert!(matches!(session_action(&data), SessionAction::HandleRelayData));
    assert!(matches!(session_action(&IncomingRelayMessage::Unknown("x".to_string())), SessionAction::Log));
}

#[test]
fn api_message_holds_role_and_content() {
    let m = ApiMessage { role: "user".to_string(), content: "hi".to_string() };
    assert_eq!((m.role.as_str(), m.content.as_str()), ("user", "hi"));
}

fn http_backend() -> Backend {
    Backend::Http(InferenceProxy::new(11436, "qwen"))
}

#[test]
fn inference_events_become_replies() {
    let chunk = serde_json::Value::String("tok".to_string());
    match inference_reply("req-1", InferenceEvent::Chunk(chunk.clone())) {
        InferenceReply::Chunk { request_id, chunk: c } => {
            assert_eq!(request_id, "req-1");
            assert_eq!(c, chunk);
        }
        other => panic!("unexpected {:?}", other),
    }
    match inference_reply("req-1", InferenceEvent::Finished) {
        InferenceReply::Complete { request_id } => assert_eq!(request_id, "req-1"),
        other => panic!("unexpected {:?}", other),
    }
    match inference_reply("req-2", InferenceEvent::Failed("boom".to_string())) {
        InferenceReply::Error { request_id, error_message } => {
            assert_eq!((request_id.as_str(), error_message.as_str()), ("req-2", "boom"));
        }
        other => panic!("unexpected {:?}", other),
    }
}

#[test]
fn hello_and_heartbeat_acks() {
    let info = serde_json::Value::String("device".to_string());
    let a = hello_ack(info.clone(), &http_backend());
    assert_eq!(a.device_info, info);
    assert_eq!(a.protocol_version, 1);
    assert_eq!(a.loaded_models, vec!["qwen".to_string()]);
    let h = heartbeat_ack("dev-1".to_string(), &http_backend());
    assert_eq!(h.device_id, "dev-1");
    assert_eq!(h.thermal_level, "nominal");
    assert_eq!(h.throttle_level, 100);
    assert_eq!(h.loaded_models, vec!["qwen".to_string()]);
    assert!(!h.is_generating);
    assert_eq!(h.queue_depth, 0);
}

#[test]
fn register_payload_signs_node_id() {
    let id = rfc8032_identity();
    let p = register_payload(&id, "kitchen mac");
    assert_eq!(p.node_id, id.node_id());
    assert_eq!(p.public_key, id.node_id());
    assert!(p.wg_public_key.is_none());
    assert_eq!(p.display_name, "kitchen mac");
    assert_eq!(p.signature, id.sign_node_id());
    assert_eq!(p.signature.len(), 128);
}

#[test]
fn frames_are_dispatched() {
    assert!(matches!(frame_action(Frame::Text("{}".to_string())), FrameAction::Parse(t) if t == "{}"));
    assert!(matches!(frame_action(Frame::Binary(b"{\"a\":1}".to_vec())), FrameAction::Parse(t) if t == "{\"a\":1}"));
    assert!(matches!(frame_action(Frame::Binary(vec![0xff, 0xfe])), FrameAction::Ignore));
    assert!(matches!(frame_action(Frame::Ping(vec![1, 2])), FrameAction::Pong(d) if d == vec![1, 2]));
    assert!(matches!(frame_action(Frame::Close), FrameAction::Stop));
    assert!(matches!(frame_action(Frame::ReadError), FrameAction::Stop));
    assert!(matches!(frame_action(Frame::Other), FrameAction::Ignore));
}

#[test]
fn reconnect_backoff_doubles_to_sixty() {
    let mut b = ReconnectBackoff::new();
    let delays: Vec<u64> = (0..9).map(|_| b.next_delay()).collect();
    assert_eq!(delays, vec![1, 2, 4, 8, 16, 32, 60, 60, 60]);
    assert_eq!(MAX_RECONNECT_DELAY_SECS, 60);
    b.reset();
    assert_eq!(b.next_delay(), 1);
    assert_eq!(b.next_delay(), 2);
}
