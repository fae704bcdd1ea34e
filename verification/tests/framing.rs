use bytes::BytesMut;
use rusido::error::SocketError;
use rusido::websocket::client::Incoming;
use rusido::websocket::connection::{
    connection_step, handshake_proceeds, inbound_action, ConnectionStep, InboundAction,
};
use rusido::websocket::error_code::{SUCCESS, SYSTEM_ERROR};
use rusido::websocket::frame::{decode_request, encode_response, reply_fits, response_for};
use rusido::websocket::header_parser::parse_header;

#[test]
fn header_of_three_fields() {
    assert_eq!(parse_header(&vec![1u16, 2, 3]), vec![0, 1, 0, 2, 0, 3]);
}

#[test]
fn header_is_big_endian() {
    assert_eq!(parse_header(&vec![0x1234u16, 0xffff]), vec![0x12, 0x34, 0xff, 0xff]);
}

#[test]
fn header_of_no_fields_is_empty() {
    assert_eq!(parse_header(&Vec::new()), Vec::<u8>::new());
}

#[test]
fn header_read_back_gives_fields() {
    let values = vec![7u16, 1001, 65535, 0];
    let header = parse_header(&values);
    for (i, v) in values.iter().enumerate() {
        assert_eq!(u16::from_be_bytes([header[2 * i], header[2 * i + 1]]), *v);
    }
}

#[test]
fn decode_splits_command_and_payload() {
    let (cmd, payload) = decode_request(&[0x03, 0xE9, b'h', b'i']).unwrap();
    assert_eq!(cmd, 1001);
    assert_eq!(&payload[..], b"hi");
}

#[test]
fn decode_two_bytes_has_empty_payload() {
    let (cmd, payload) = decode_request(&[0x01, 0x00]).unwrap();
    assert_eq!(cmd, 256);
    assert!(payload.is_empty());
}

#[test]
fn decode_short_frames_give_none() {
    assert!(decode_request(&[7]).is_none());
    assert!(decode_request(&[]).is_none());
}

#[test]
fn request_roundtrip() {
    let mut frame = 4242u16.to_be_bytes().to_vec();
    frame.extend_from_slice(b"payload");
    let (cmd, payload) = decode_request(&frame).unwrap();
    assert_eq!(cmd, 4242);
    assert_eq!(&payload[..], b"payload");
    let mut again = cmd.to_be_bytes().to_vec();
    again.extend_from_slice(&payload);
    assert_eq!(again, frame);
}

#[test]
fn encode_with_data() {
    let frame = encode_response(0, 1001, Some(BytesMut::from(&b"ok"[..])));
    assert_eq!(&frame[..], &[0, 0, 0x03, 0xE9, b'o', b'k']);
}

#[test]
fn encode_without_data() {
    let frame = encode_response(1, 5, None);
    assert_eq!(&frame[..], &[0, 1, 0, 5]);
}

#[test]
fn response_for_success() {
    let (code, cmd, data) = response_for(1002, Ok(BytesMut::from(&b"Order: #12345"[..])));
    assert_eq!(code, SUCCESS);
    assert_eq!(cmd, 1002);
    assert_eq!(&data.unwrap()[..], b"Order: #12345");
}

#[test]
fn response_for_failure() {
    let (code, cmd, data) = response_for(77, Err(SocketError::ErrorCode(1)));
    assert_eq!(code, SYSTEM_ERROR);
    assert_eq!(code, 1);
    assert_eq!(cmd, 77);
    assert!(data.is_none());
}

#[test]
fn served_and_failed_reply_frames() {
    let (c, m, d) = response_for(3, Ok(BytesMut::from(&b"x"[..])));
    assert_eq!(&encode_response(c, m, d)[..], &[0, 0, 0, 3, b'x']);
    let (c, m, d) = response_for(3, Err(SocketError::SystemError("no".to_string())));
    assert_eq!(&encode_response(c, m, d)[..], &[0, 1, 0, 3]);
}

#[test]
fn inbound_binary_request_is_dispatched() {
    match inbound_action(Some(&[0x03, 0xEA, 1, 2, 3])) {
        InboundAction::Dispatch(cmd, payload) => {
            assert_eq!(cmd, 1002);
            assert_eq!(&payload[..], &[1, 2, 3]);
        }
        _ => panic!("expected a dispatch"),
    }
}

#[test]
fn inbound_short_binary_is_rejected() {
    assert!(matches!(inbound_action(Some(&[9])), InboundAction::TooShort(1)));
    assert!(matches!(inbound_action(Some(&[])), InboundAction::TooShort(0)));
}

#[test]
fn inbound_other_kinds_are_ignored() {
    assert!(matches!(inbound_action(None), InboundAction::Ignore));
}

#[test]
fn handshake_goes_on_only_on_success() {
    assert!(handshake_proceeds(Some(0)));
    assert!(!handshake_proceeds(Some(1)));
    assert!(!handshake_proceeds(Some(7)));
    assert!(!handshake_proceeds(None));
}

#[test]
fn ordinary_replies_fit() {
    assert!(reply_fits(&None));
    assert!(reply_fits(&Some(BytesMut::from(&b"abc"[..]))));
    assert!(reply_fits(&Some(BytesMut::new())));
}

#[test]
fn connection_read_loop_steps() {
    assert_eq!(connection_step(&Incoming::Failed("x".to_string())), ConnectionStep::Fail);
    assert_eq!(connection_step(&Incoming::Ended), ConnectionStep::Disconnect);
    assert_eq!(connection_step(&Incoming::Binary), ConnectionStep::Handle);
    assert_eq!(connection_step(&Incoming::Close), ConnectionStep::Handle);
    assert_eq!(connection_step(&Incoming::Text("t".to_string())), ConnectionStep::Handle);
}
