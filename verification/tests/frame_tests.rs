use serde_json::Value;
use unity_mcp::frame::{decode_frame, encode_frame, EncodeError, FrameError, MAX_PAYLOAD_SIZE};

fn request_json(id: i64, method: &str, params: Option<Value>) -> Value {
    let mut m = serde_json::Map::new();
    m.insert("jsonrpc".to_string(), Value::from("2.0"));
    m.insert("id".to_string(), Value::from(id));
    m.insert("method".to_string(), Value::from(method));
    if let Some(p) = params {
        m.insert("params".to_string(), p);
    }
    Value::Object(m)
}

fn roundtrip(v: &Value) -> Value {
    let payload = serde_json::to_vec(v).unwrap();
    let frame = encode_frame(&payload).unwrap();
    let back = decode_frame(&frame).unwrap();
    serde_json::from_slice(&back).unwrap()
}

#[test]
fn roundtrip_request() {
    let mut params = serde_json::Map::new();
    params.insert("a".to_string(), Value::from(1));
    let req = request_json(1, "test", Some(Value::Object(params)));
    assert_eq!(roundtrip(&req), req);
}

#[test]
fn roundtrip_response_result() {
    let mut result = serde_json::Map::new();
    result.insert("ok".to_string(), Value::from(true));
    let mut m = serde_json::Map::new();
    m.insert("jsonrpc".to_string(), Value::from("2.0"));
    m.insert("id".to_string(), Value::from(1));
    m.insert("result".to_string(), Value::Object(result));
    let resp = Value::Object(m);
    assert_eq!(roundtrip(&resp), resp);
}

#[test]
fn roundtrip_response_error() {
    let mut err = serde_json::Map::new();
    err.insert("code".to_string(), Value::from(-32600));
    err.insert("message".to_string(), Value::from("Invalid Request"));
    let mut m = serde_json::Map::new();
    m.insert("jsonrpc".to_string(), Value::from("2.0"));
    m.insert("id".to_string(), Value::from(2));
    m.insert("error".to_string(), Value::Object(err));
    let resp = Value::Object(m);
    assert_eq!(roundtrip(&resp), resp);
}

#[test]
fn decode_truncated() {
    let req = request_json(1, "test", None);
    let mut frame = encode_frame(&serde_json::to_vec(&req).unwrap()).unwrap();
    frame.pop();
    assert!(matches!(decode_frame(&frame), Err(FrameError::Truncated)));
}

#[test]
fn decode_malformed() {
    let mut frame = Vec::new();
    let payload = b"not json";
    frame.extend_from_slice(&(payload.len() as u32).to_le_bytes());
    frame.extend_from_slice(payload);
    let body = decode_frame(&frame).unwrap();
    assert_eq!(body, payload.to_vec());
    assert!(serde_json::from_slice::<Value>(&body).is_err());
}

#[test]
fn decode_truncated_header() {
    assert!(matches!(decode_frame(&[1, 2, 3]), Err(FrameError::Truncated)));
}

#[test]
fn encode_payload_too_large() {
    let big_data = vec![0u8; MAX_PAYLOAD_SIZE + 1];
    let payload = serde_json::to_vec(&big_data).unwrap();
    assert!(matches!(encode_frame(&payload), Err(EncodeError::PayloadTooLarge)));
    assert!(matches!(encode_frame(&big_data), Err(EncodeError::PayloadTooLarge)));
}

#[test]
fn decode_payload_too_large() {
    let len = (MAX_PAYLOAD_SIZE + 1) as u32;
    let frame = len.to_le_bytes();
    assert!(matches!(decode_frame(&frame), Err(FrameError::PayloadTooLarge)));
}

#[test]
fn header_is_little_endian_length() {
    let f = encode_frame(&[9u8; 300]).unwrap();
    assert_eq!(&f[..4], &[44, 1, 0, 0]);
    assert_eq!(f.len(), 304);
    let mut g = f.clone();
    g.extend_from_slice(&[7, 7]);
    assert_eq!(decode_frame(&g).unwrap(), vec![9u8; 300]);
    assert_eq!(FrameError::Truncated.display_string(), "frame too short");
}
