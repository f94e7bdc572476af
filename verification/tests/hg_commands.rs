use thunderbird_release::api::types::{FileStatus, StatusEntry};
use thunderbird_release::api::{
    cat_command, config_get_command, config_value, export_command, files_command, first_result,
    is_blank, name_command, resolve_rev_command, trimmed, AnnotateArgs, CommitArgs, DiffArgs,
    LogArgs, StatusArgs, UpdateArgs,
};
use thunderbird_release::connection::{
    accept_hello, parse_hello, CollectorStep, CommandCollector, CommandOutput,
};
use thunderbird_release::error::Error;
use thunderbird_release::protocol::{
    decode_be_u32, encode_be_u32, parse_return_code, read_message, write_payload,
    write_runcommand, Channel, Cursor, ServerMessage,
};

fn msg(channel: Channel, data: &[u8]) -> ServerMessage {
    ServerMessage { channel, data: data.to_vec() }
}

#[test]
fn frame_written_then_read_gives_payload_back() {
    let mut frame = vec![b'o'];
    write_payload(&mut frame, b"some output").unwrap();
    frame.extend_from_slice(b"e\x00\x00\x00\x01!");
    let mut cursor = Cursor::new(&frame[..]);
    let first = read_message(&mut cursor).unwrap();
    assert_eq!(first.channel, Channel::Output);
    assert_eq!(first.data, b"some output");
    assert_eq!(cursor.position(), 16);
    let second = read_message(&mut cursor).unwrap();
    assert_eq!(second.channel, Channel::Error);
    assert_eq!(second.data, b"!");
}

#[test]
fn big_endian_round_trip() {
    for n in [0u32, 1, 255, 256, 65535, 0x0102_0304, u32::MAX] {
        let b = encode_be_u32(n);
        assert_eq!(b, n.to_be_bytes());
        assert_eq!(decode_be_u32(b[0], b[1], b[2], b[3]), n);
    }
}

#[test]
fn return_code_round_trip() {
    for code in [0i32, 1, -1, 88, i32::MIN, i32::MAX] {
        assert_eq!(parse_return_code(&code.to_be_bytes()).unwrap(), code);
    }
}

#[test]
fn return_code_wrong_length_message() {
    match parse_return_code(&[1, 2, 3]) {
        Err(Error::ProtocolError(m)) => assert_eq!(m, "expected 4-byte return code, got 3 bytes"),
        other => panic!("unexpected {:?}", other),
    }
}

#[test]
fn runcommand_arguments_round_trip() {
    let args = ["log", "-r", "tip", "-T", "{node}"];
    let mut buf = Vec::new();
    write_runcommand(&mut buf, &args).unwrap();
    let payload = &buf[b"runcommand\n".len()..];
    let len = u32::from_be_bytes(payload[..4].try_into().unwrap()) as usize;
    assert_eq!(len, payload.len() - 4);
    let parts: Vec<&[u8]> = payload[4..].split(|b| *b == 0).collect();
    let expected: Vec<&[u8]> = args.iter().map(|a| a.as_bytes()).collect();
    assert_eq!(parts, expected);
}

#[test]
fn unknown_channel_message_names_the_byte() {
    let data = b"X\x00\x00\x00\x01a";
    let mut cursor = Cursor::new(&data[..]);
    match read_message(&mut cursor) {
        Err(Error::ProtocolError(m)) => assert_eq!(m, "unknown channel byte: 0x58"),
        other => panic!("unexpected {:?}", other),
    }
    assert_eq!(Channel::from_byte(b'd').unwrap(), Channel::Debug);
    assert_eq!(Channel::from_byte(b'L').unwrap(), Channel::LineInputReq);
}

#[test]
fn truncated_frame_is_an_io_error() {
    let data = b"o\x00\x00\x00\x05hel";
    let mut cursor = Cursor::new(&data[..]);
    match read_message(&mut cursor) {
        Err(Error::Io(m)) => assert_eq!(m, "failed to fill whole buffer"),
        other => panic!("unexpected {:?}", other),
    }
    let empty: [u8; 0] = [];
    let mut cursor = Cursor::new(&empty[..]);
    assert!(matches!(read_message(&mut cursor), Err(Error::Io(_))));
}

#[test]
fn hello_that_is_not_utf8_is_refused() {
    let data = b"capabilities: runcommand\xff\n";
    match parse_hello(data) {
        Err(Error::ProtocolError(m)) => assert!(m.starts_with("hello message is not UTF-8: ")),
        other => panic!("unexpected {:?}", other),
    }
}

#[test]
fn hello_missing_capabilities_message() {
    match parse_hello(b"encoding: UTF-8\n") {
        Err(Error::ProtocolError(m)) => assert_eq!(m, "hello message missing capabilities"),
        other => panic!("unexpected {:?}", other),
    }
}

#[test]
fn accept_hello_checks_channel_and_capability() {
    let ok = accept_hello(&msg(Channel::Output, b"capabilities: getencoding runcommand\nencoding: ascii\n")).unwrap();
    assert_eq!(ok.encoding, "ascii");
    match accept_hello(&msg(Channel::Error, b"capabilities: runcommand\n")) {
        Err(Error::ProtocolError(m)) => assert_eq!(m, "expected hello on 'o' channel, got Error"),
        other => panic!("unexpected {:?}", other),
    }
    match accept_hello(&msg(Channel::Output, b"capabilities: getencoding\n")) {
        Err(Error::ProtocolError(m)) => {
            assert_eq!(m, "server does not support 'runcommand' capability")
        }
        other => panic!("unexpected {:?}", other),
    }
}

#[test]
fn collector_concatenates_output_and_error_in_order() {
    let messages = vec![
        msg(Channel::Output, b"he"),
        msg(Channel::Error, b"w1"),
        msg(Channel::Debug, b"ignored"),
        msg(Channel::Output, b"llo"),
        msg(Channel::Error, b"w2"),
    ];
    let mut collector = CommandCollector::new();
    for m in messages {
        collector = match collector.handle(m) {
            CollectorStep::Continue(c) => c,
            _ => panic!("expected to continue"),
        };
    }
    assert_eq!(collector.stdout, b"hello");
    assert_eq!(collector.stderr, b"w1w2");
    let collector = match collector.handle(msg(Channel::InputReq, b"\x00\x00\x10\x00")) {
        CollectorStep::SendEmptyInput(c) => c,
        _ => panic!("expected an input answer"),
    };
    match collector.handle(msg(Channel::Result, &[0, 0, 0, 2])) {
        CollectorStep::Finished(out) => {
            assert_eq!(out.stdout, b"hello");
            assert_eq!(out.stderr, b"w1w2");
            assert_eq!(out.return_code, 2);
        }
        _ => panic!("expected the end"),
    }
}

#[test]
fn collector_refuses_a_short_result() {
    match CommandCollector::new().handle(msg(Channel::Result, &[0, 1])) {
        CollectorStep::Failed(Error::ProtocolError(m)) => {
            assert_eq!(m, "expected 4-byte return code, got 2 bytes")
        }
        _ => panic!("expected a failure"),
    }
}

#[test]
fn command_output_to_text() {
    let out = CommandOutput { stdout: b"ok \xff\n".to_vec(), stderr: vec![], return_code: 0 };
    assert_eq!(out.into_string().unwrap(), "ok \u{fffd}\n");
    let out = CommandOutput { stdout: vec![], stderr: b"abort: no\n".to_vec(), return_code: 255 };
    match out.into_string() {
        Err(Error::CommandFailed { code, stderr }) => {
            assert_eq!(code, 255);
            assert_eq!(stderr, "abort: no\n");
        }
        other => panic!("unexpected {:?}", other),
    }
    let out = CommandOutput { stdout: vec![1, 2], stderr: vec![], return_code: 0 };
    assert_eq!(out.into_stdout().unwrap(), vec![1, 2]);
}

#[test]
fn log_arguments() {
    assert_eq!(LogArgs::default().command(), vec!["log", "-T", "json"]);
    let args = LogArgs {
        revs: Some("tip".to_string()),
        limit: Some(5),
        follow: true,
        paths: vec!["a.txt".to_string()],
    };
    assert_eq!(args.command(), vec!["log", "-T", "json", "-r", "tip", "-l", "5", "-f", "a.txt"]);
}

#[test]
fn other_command_arguments() {
    assert_eq!(StatusArgs::default().command(), vec!["status", "-T", "json"]);
    let status = StatusArgs { rev: Some("1".to_string()), change: Some("2".to_string()) };
    assert_eq!(status.command(), vec!["status", "-T", "json", "--rev", "1", "--change", "2"]);
    let diff = DiffArgs { revs: Some("1:2".to_string()), unified: Some(10), paths: vec!["f".to_string()] };
    assert_eq!(diff.command(), vec!["diff", "-r", "1:2", "-U", "10", "f"]);
    let annotate = AnnotateArgs { rev: Some("tip".to_string()), user: true, date: true };
    assert_eq!(
        annotate.command("file.txt"),
        vec!["annotate", "-T", "json", "file.txt", "-r", "tip", "--user", "--date"]
    );
    let commit = CommitArgs {
        message: "msg".to_string(),
        user: Some("me".to_string()),
        files: vec!["x".to_string()],
        close_branch: true,
        date: Some("0 0".to_string()),
    };
    assert_eq!(
        commit.command(),
        vec!["commit", "-m", "msg", "-u", "me", "-d", "0 0", "--close-branch", "x"]
    );
    let update = UpdateArgs { rev: Some("abc".to_string()), clean: true };
    assert_eq!(update.command(), vec!["update", "-r", "abc", "-C"]);
    assert_eq!(UpdateArgs::default().command(), vec!["update"]);
    assert_eq!(cat_command("f", Some("tip")), vec!["cat", "f", "-r", "tip"]);
    assert_eq!(cat_command("f", None), vec!["cat", "f"]);
    assert_eq!(resolve_rev_command("."), vec!["log", "-r", ".", "-T", "{node}"]);
    assert_eq!(export_command("abc"), vec!["export", "-r", "abc"]);
    assert_eq!(config_get_command("ui.username"), vec!["config", "ui.username"]);
    assert_eq!(files_command("add", &vec!["a".to_string(), "b".to_string()]), vec!["add", "a", "b"]);
    assert_eq!(name_command("tag", "v1.0", None), vec!["tag", "v1.0"]);
    assert_eq!(name_command("bookmark", "b", Some("2")), vec!["bookmark", "b", "-r", "2"]);
}

#[test]
fn output_helpers() {
    assert!(is_blank(" \n\t"));
    assert!(!is_blank(" x "));
    assert_eq!(trimmed("  abc123\n"), "abc123");
    let found = CommandOutput { stdout: b"  Test User \n".to_vec(), stderr: vec![], return_code: 0 };
    assert_eq!(config_value(found), Some("Test User".to_string()));
    let missing = CommandOutput { stdout: vec![], stderr: vec![], return_code: 1 };
    assert_eq!(config_value(missing), None);
    assert_eq!(first_result(vec![3, 4]).unwrap(), 3);
    match first_result::<u8>(vec![]) {
        Err(Error::ProtocolError(m)) => assert_eq!(m, "annotate returned no results"),
        other => panic!("unexpected {:?}", other),
    }
}

#[test]
fn status_entry_file_status() {
    let entry = StatusEntry { path: "foo.txt".to_string(), status: "M".to_string() };
    assert_eq!(entry.file_status(), Some(FileStatus::Modified));
    let odd = StatusEntry { path: "foo.txt".to_string(), status: "MM".to_string() };
    assert_eq!(odd.file_status(), None);
}
