use rrcp::frame::RrcpFrame;
use rrcp::header::{ContentType, Flag, RRCPHeader, MAGIC_NUMBER};
use rrcp::message_pack_proto::{RrcpConfig, WasmModule};
use rrcp::stream_pool::StreamPool;

/// A client asks for the configuration; the server answers with a body that
/// carries one module named "main"; the main-module lookup finds its bytes.
/// The payload bytes themselves are opaque to the protocol core: turning
/// them into an `RrcpConfig` value is the serialization collaborator's job,
/// so the decoded value is built directly here.
#[test]
fn get_config_exchange() {
    let mut pool = StreamPool::new(10);

    // Client side: one checked-out stream, one request frame on it.
    let _stream_token = pool.get_bi_stream().unwrap();
    let request_bytes = RRCPHeader::new_with_flag(Flag::GetConfig).to_bytes();

    // Server side: read the request and answer with a config payload.
    let request = RrcpFrame::from_bytes(&request_bytes).unwrap();
    assert_eq!(request.header.flag, Flag::GetConfig);
    assert_eq!(request.header.body_length, 0);
    assert_eq!(request.body.len(), 0);
    let config_payload = vec![0xC4u8, 0x03, 0x01, 0x02, 0x03];
    let response_bytes = RrcpFrame::new_request(Flag::GetConfig, config_payload.clone()).to_bytes();

    // Client side again: the response is one whole frame on the same stream.
    let response = RrcpFrame::from_bytes(&response_bytes).unwrap();
    assert_eq!(response.header.magic, MAGIC_NUMBER);
    assert_eq!(response.body, config_payload);

    // The deserialized configuration holds one module named "main".
    let config = RrcpConfig {
        modules: vec![WasmModule { name: String::from("main"), wasm: vec![1, 2, 3] }],
    };
    assert_eq!(config.get_main_wasm(), Some(&[1u8, 2, 3][..]));
}

/// A client sends an observation (three servo angles and one 3x4 image of
/// twelve bytes of value 1, already serialized by the collaborator into
/// body bytes); the server answers with a non-empty action payload under a
/// populated timestamp.
#[test]
fn get_action_exchange() {
    let mut pool = StreamPool::new(10);
    let _stream_token = pool.get_bi_stream().unwrap();

    // The serialized observation: the image's twelve bytes of value 1
    // prefixed by bytes standing in for the three encoded angles.
    let mut observation_body = vec![0x93u8, 0x01, 0x02, 0x03];
    observation_body.extend_from_slice(&[1u8; 12]);

    let request = RrcpFrame::new_request(Flag::GetAction, observation_body.clone());
    assert_eq!(request.header.body_length, observation_body.len() as u64);
    let request_bytes = request.to_bytes();

    // Server side: the whole observation arrives in one frame.
    let seen = RrcpFrame::from_bytes(&request_bytes).unwrap();
    assert_eq!(seen.header.flag, Flag::GetAction);
    assert_eq!(seen.header.content_type, ContentType::MessagePack);
    assert_eq!(seen.body, observation_body);

    // The server answers with a serialized action.
    let action_payload = vec![0x92u8, 0x2A, 0x91];
    let response_bytes = RrcpFrame::new_request(Flag::GetAction, action_payload.clone()).to_bytes();

    // Client side: a whole frame with a non-empty body and a timestamp.
    let response = RrcpFrame::from_bytes(&response_bytes).unwrap();
    assert!(!response.body.is_empty());
    assert!(response.header.server_timestamp_ms > 0);
    assert_eq!(response.body, action_payload);
}

#[test]
fn main_module_lookup_misses_without_main() {
    let config = RrcpConfig { modules: vec![] };
    assert_eq!(config.get_main_wasm(), None);

    let config = RrcpConfig {
        modules: vec![
            WasmModule { name: String::from("Main"), wasm: vec![1] },
            WasmModule { name: String::from("other"), wasm: vec![2] },
        ],
    };
    assert_eq!(config.get_main_wasm(), None);
}

#[test]
fn main_module_lookup_takes_the_first_match() {
    let config = RrcpConfig {
        modules: vec![
            WasmModule { name: String::from("boot"), wasm: vec![9] },
            WasmModule { name: String::from("main"), wasm: vec![1, 1] },
            WasmModule { name: String::from("main"), wasm: vec![2, 2] },
        ],
    };
    assert_eq!(config.get_main_wasm(), Some(&[1u8, 1][..]));
}
