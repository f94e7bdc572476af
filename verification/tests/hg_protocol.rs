use thunderbird_release::api::types::FileStatus;
use thunderbird_release::connection::parse_hello;
use thunderbird_release::error::Error;
use thunderbird_release::protocol::{
    parse_return_code, read_message, write_payload, write_runcommand, Channel, Cursor,
};

#[test]
fn file_status_from_code() {
    assert_eq!(FileStatus::from_code("M"), Some(FileStatus::Modified));
    assert_eq!(FileStatus::from_code("A"), Some(FileStatus::Added));
    assert_eq!(FileStatus::from_code("R"), Some(FileStatus::Removed));
    assert_eq!(FileStatus::from_code("!"), Some(FileStatus::Missing));
    assert_eq!(FileStatus::from_code("?"), Some(FileStatus::Unknown));
    assert_eq!(FileStatus::from_code("I"), Some(FileStatus::Ignored));
    assert_eq!(FileStatus::from_code("C"), Some(FileStatus::Clean));
    assert_eq!(FileStatus::from_code("X"), None);
}

#[test]
fn parse_hello_basic() {
    let data = b"capabilities: runcommand getencoding\nencoding: UTF-8\n";
    let info = parse_hello(data).unwrap();
    assert_eq!(info.capabilities, vec!["runcommand", "getencoding"]);
    assert_eq!(info.encoding, "UTF-8");
}

#[test]
fn parse_hello_missing_encoding() {
    let data = b"capabilities: runcommand\n";
    let info = parse_hello(data).unwrap();
    assert_eq!(info.capabilities, vec!["runcommand"]);
    assert_eq!(info.encoding, "UTF-8"); // default
}

#[test]
fn parse_hello_no_capabilities() {
    let data = b"encoding: UTF-8\n";
    let err = parse_hello(data).unwrap_err();
    assert!(matches!(err, Error::ProtocolError(_)));
}

#[test]
fn parse_hello_extra_fields() {
    let data = b"capabilities: runcommand getencoding\nencoding: UTF-8\npid: 12345\n";
    let info = parse_hello(data).unwrap();
    assert_eq!(info.capabilities, vec!["runcommand", "getencoding"]);
}

#[test]
fn parse_return_code_zero() {
    let code = parse_return_code(&[0, 0, 0, 0]).unwrap();
    assert_eq!(code, 0);
}

#[test]
fn parse_return_code_one() {
    let code = parse_return_code(&[0, 0, 0, 1]).unwrap();
    assert_eq!(code, 1);
}

#[test]
fn parse_return_code_negative() {
    // -1 in big-endian two's complement
    let code = parse_return_code(&[0xff, 0xff, 0xff, 0xff]).unwrap();
    assert_eq!(code, -1);
}

#[test]
fn parse_return_code_wrong_length() {
    let err = parse_return_code(&[0, 0]).unwrap_err();
    assert!(matches!(err, Error::ProtocolError(_)));
}

#[test]
fn read_output_message() {
    // Channel 'o', length 5, payload "hello"
    let data = b"o\x00\x00\x00\x05hello";
    let mut cursor = Cursor::new(&data[..]);
    let msg = read_message(&mut cursor).unwrap();
    assert_eq!(msg.channel, Channel::Output);
    assert_eq!(msg.data, b"hello");
}

#[test]
fn read_error_message() {
    let data = b"e\x00\x00\x00\x03err";
    let mut cursor = Cursor::new(&data[..]);
    let msg = read_message(&mut cursor).unwrap();
    assert_eq!(msg.channel, Channel::Error);
    assert_eq!(msg.data, b"err");
}

#[test]
fn read_result_message() {
    // 'r' channel, length 4, return code 0
    let data = b"r\x00\x00\x00\x04\x00\x00\x00\x00";
    let mut cursor = Cursor::new(&data[..]);
    let msg = read_message(&mut cursor).unwrap();
    assert_eq!(msg.channel, Channel::Result);
    assert_eq!(msg.data, &[0, 0, 0, 0]);
}

#[test]
fn read_result_nonzero() {
    // Return code 1
    let data = b"r\x00\x00\x00\x04\x00\x00\x00\x01";
    let mut cursor = Cursor::new(&data[..]);
    let msg = read_message(&mut cursor).unwrap();
    assert_eq!(msg.channel, Channel::Result);
    let code = i32::from_be_bytes(msg.data[..4].try_into().unwrap());
    assert_eq!(code, 1);
}

#[test]
fn read_unknown_channel() {
    let data = b"X\x00\x00\x00\x01a";
    let mut cursor = Cursor::new(&data[..]);
    let err = read_message(&mut cursor).unwrap_err();
    assert!(matches!(err, Error::ProtocolError(_)));
}

#[test]
fn read_empty_payload() {
    let data = b"o\x00\x00\x00\x00";
    let mut cursor = Cursor::new(&data[..]);
    let msg = read_message(&mut cursor).unwrap();
    assert_eq!(msg.channel, Channel::Output);
    assert!(msg.data.is_empty());
}

#[test]
fn write_payload_roundtrip() {
    let mut buf = Vec::new();
    write_payload(&mut buf, b"test data").unwrap();
    assert_eq!(&buf[..4], &[0, 0, 0, 9]); // length = 9
    assert_eq!(&buf[4..], b"test data");
}

#[test]
fn write_runcommand_single_arg() {
    let mut buf = Vec::new();
    write_runcommand(&mut buf, &["log"]).unwrap();
    assert!(buf.starts_with(b"runcommand\n"));
    let payload = &buf[b"runcommand\n".len()..];
    // 4-byte length prefix + "log"
    assert_eq!(&payload[..4], &[0, 0, 0, 3]);
    assert_eq!(&payload[4..], b"log");
}

#[test]
fn write_runcommand_multiple_args() {
    let mut buf = Vec::new();
    write_runcommand(&mut buf, &["log", "-r", "."]).unwrap();
    let payload = &buf[b"runcommand\n".len()..];
    // "log\0-r\0." = 8 bytes
    assert_eq!(&payload[..4], &[0, 0, 0, 8]);
    assert_eq!(&payload[4..], b"log\0-r\0.");
}

#[test]
fn write_runcommand_empty_args() {
    let mut buf = Vec::new();
    write_runcommand(&mut buf, &[]).unwrap();
    let payload = &buf[b"runcommand\n".len()..];
    assert_eq!(&payload[..4], &[0, 0, 0, 0]);
    assert_eq!(payload.len(), 4);
}

#[test]
fn read_multiple_messages() {
    let mut data = Vec::new();
    data.extend_from_slice(b"o\x00\x00\x00\x02hi");
    data.extend_from_slice(b"e\x00\x00\x00\x04warn");
    data.extend_from_slice(b"r\x00\x00\x00\x04\x00\x00\x00\x00");

    let mut cursor = Cursor::new(&data[..]);

    let msg1 = read_message(&mut cursor).unwrap();
    assert_eq!(msg1.channel, Channel::Output);
    assert_eq!(msg1.data, b"hi");

    let msg2 = read_message(&mut cursor).unwrap();
    assert_eq!(msg2.channel, Channel::Error);
    assert_eq!(msg2.data, b"warn");

    let msg3 = read_message(&mut cursor).unwrap();
    assert_eq!(msg3.channel, Channel::Result);
}

#[test]
fn channel_is_input_request() {
    assert!(!Channel::Output.is_input_request());
    assert!(!Channel::Error.is_input_request());
    assert!(!Channel::Result.is_input_request());
    assert!(Channel::InputReq.is_input_request());
    assert!(Channel::LineInputReq.is_input_request());
    assert!(!Channel::Debug.is_input_request());
}
