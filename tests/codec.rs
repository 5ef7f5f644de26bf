use rambo::codec::{Message, ProtocolError, ENV, EOT, EXIT_STATUS, STDOUT};

fn body(tag: u8, payload: &[u8]) -> Vec<u8> {
    let mut b = vec![tag];
    b.extend_from_slice(payload);
    b
}

fn round_trip(m: &Message) -> Message {
    Message::decode(&m.to_bytes()).expect("a frame of ours decodes")
}

#[test]
fn encodes_eot() {
    assert_eq!(Message::Eot.to_bytes(), vec![0, 0, 0, 1, 5]);
}

#[test]
fn encodes_stdout_chunk() {
    let m = Message::Stdout(b"hi\n".to_vec());
    assert_eq!(m.to_bytes(), vec![0, 0, 0, 4, STDOUT, b'h', b'i', b'\n']);
}

#[test]
fn encodes_error_text_as_utf8() {
    let m = Message::Error("é!".to_string());
    assert_eq!(m.to_bytes(), vec![0, 0, 0, 4, 6, 0xc3, 0xa9, b'!']);
}

#[test]
fn encodes_exit_status_big_endian() {
    assert_eq!(Message::ExitStatus(0).to_bytes(), vec![0, 0, 0, 5, EXIT_STATUS, 0, 0, 0, 0]);
    assert_eq!(Message::ExitStatus(258).to_bytes(), vec![0, 0, 0, 5, 9, 0, 0, 1, 2]);
    assert_eq!(Message::ExitStatus(-1).to_bytes(), vec![0, 0, 0, 5, 9, 255, 255, 255, 255]);
    assert_eq!(
        Message::ExitStatus(i32::MIN).to_bytes(),
        vec![0, 0, 0, 5, 9, 0x80, 0, 0, 0]
    );
}

#[test]
fn to_vec_prefixes_length_and_tag() {
    assert_eq!(Message::to_vec(8, &[1, 2, 3]), vec![0, 0, 0, 4, 8, 1, 2, 3]);
    assert_eq!(Message::to_vec(8, &[]), vec![0, 0, 0, 1, 8]);
}

#[test]
fn outbound_messages_round_trip() {
    assert!(matches!(round_trip(&Message::Eot), Message::Eot));
    match round_trip(&Message::Error("no such file".to_string())) {
        Message::Error(s) => assert_eq!(s, "no such file"),
        _ => panic!("wrong kind"),
    }
    match round_trip(&Message::Stdout(vec![0, 255, 10])) {
        Message::Stdout(b) => assert_eq!(b, vec![0, 255, 10]),
        _ => panic!("wrong kind"),
    }
    match round_trip(&Message::Stderr(vec![])) {
        Message::Stderr(b) => assert!(b.is_empty()),
        _ => panic!("wrong kind"),
    }
    for code in [0, 1, -1, 127, i32::MAX, i32::MIN] {
        match round_trip(&Message::ExitStatus(code)) {
            Message::ExitStatus(c) => assert_eq!(c, code),
            _ => panic!("wrong kind"),
        }
    }
}

#[test]
fn decodes_inbound_text_fields() {
    match Message::from_bytes(&body(0, "échö".as_bytes())) {
        Ok(Message::Command(s)) => assert_eq!(s, "échö"),
        _ => panic!("expected a command"),
    }
    match Message::from_bytes(&body(1, b"-l")) {
        Ok(Message::Arg(s)) => assert_eq!(s, "-l"),
        _ => panic!("expected an argument"),
    }
    match Message::from_bytes(&body(4, b"/tmp")) {
        Ok(Message::CurrentDir(s)) => assert_eq!(s, "/tmp"),
        _ => panic!("expected a directory"),
    }
    match Message::from_bytes(&body(2, &[1, 2, 0xff])) {
        Ok(Message::Stdin(b)) => assert_eq!(b, vec![1, 2, 0xff]),
        _ => panic!("expected stdin"),
    }
    assert!(matches!(Message::from_bytes(&[EOT]), Ok(Message::Eot)));
}

#[test]
fn decodes_env_pair() {
    let mut payload = vec![0, 0, 0, 4];
    payload.extend_from_slice(b"PATHvalue=1");
    match Message::from_bytes(&body(ENV, &payload)) {
        Ok(Message::Env(n, v)) => {
            assert_eq!(n, "PATH");
            assert_eq!(v, "value=1");
        }
        _ => panic!("expected an env pair"),
    }
}

#[test]
fn env_with_empty_value_decodes() {
    let payload = [0, 0, 0, 1, b'A'];
    match Message::from_bytes(&body(ENV, &payload)) {
        Ok(Message::Env(n, v)) => {
            assert_eq!(n, "A");
            assert_eq!(v, "");
        }
        _ => panic!("expected an env pair"),
    }
}

#[test]
fn env_name_length_past_payload_is_rejected() {
    let payload = [0, 0, 0, 10, b'a', b'b', b'c'];
    assert!(matches!(
        Message::from_bytes(&body(ENV, &payload)),
        Err(ProtocolError::LengthMismatch)
    ));
    let huge = [0xff, 0xff, 0xff, 0xff, b'x'];
    assert!(matches!(
        Message::from_bytes(&body(ENV, &huge)),
        Err(ProtocolError::LengthMismatch)
    ));
}

#[test]
fn env_without_name_length_is_rejected() {
    assert!(matches!(
        Message::from_bytes(&body(ENV, &[0, 0])),
        Err(ProtocolError::LengthMismatch)
    ));
}

#[test]
fn invalid_text_is_rejected() {
    assert!(matches!(
        Message::from_bytes(&body(0, &[0xc3])),
        Err(ProtocolError::InvalidText)
    ));
    assert!(matches!(
        Message::from_bytes(&body(0, &[0xed, 0xa0, 0x80])),
        Err(ProtocolError::InvalidText)
    ));
    let payload = [0, 0, 0, 1, b'A', 0xff];
    assert!(matches!(
        Message::from_bytes(&body(ENV, &payload)),
        Err(ProtocolError::InvalidText)
    ));
}

#[test]
fn unknown_tag_is_rejected() {
    assert!(matches!(
        Message::from_bytes(&[42, 1, 2]),
        Err(ProtocolError::UnknownTag(42))
    ));
}

#[test]
fn empty_body_is_rejected() {
    assert!(matches!(Message::from_bytes(&[]), Err(ProtocolError::Truncated)));
}

#[test]
fn exit_status_needs_four_bytes() {
    assert!(matches!(
        Message::from_bytes(&[EXIT_STATUS, 0, 0, 1]),
        Err(ProtocolError::LengthMismatch)
    ));
}

#[test]
fn frame_prefix_must_match_body() {
    assert!(matches!(Message::decode(&[0, 0, 1]), Err(ProtocolError::Truncated)));
    assert!(matches!(
        Message::decode(&[0, 0, 0, 2, 5]),
        Err(ProtocolError::LengthMismatch)
    ));
    assert!(matches!(Message::decode(&[0, 0, 0, 1, 5]), Ok(Message::Eot)));
}

#[test]
fn frame_length_reads_big_endian() {
    assert_eq!(Message::frame_length(&[0, 0, 1, 2]), 258);
    assert_eq!(Message::frame_length(&[1, 0, 0, 0]), 16_777_216);
    assert_eq!(Message::frame_length(&[255, 255, 255, 255]), u32::MAX);
}

#[test]
fn names_and_tags() {
    assert_eq!(Message::Env("a".to_string(), "b".to_string()).name(), "ENV");
    assert_eq!(Message::ExitStatus(3).name(), "EXIT_STATUS");
    assert_eq!(Message::CurrentDir(String::new()).tag(), 4);
    assert_eq!(Message::Stderr(vec![]).tag(), 8);
}

#[test]
fn protocol_error_descriptions() {
    assert_eq!(ProtocolError::Truncated.description(), "truncated frame");
    assert_eq!(ProtocolError::UnknownTag(3).description(), "unknown message tag");
    assert_eq!(ProtocolError::LengthMismatch.description(), "inconsistent length field");
    assert_eq!(ProtocolError::InvalidText.description(), "text field is not valid UTF-8");
    assert_eq!(ProtocolError::Unexpected(7).description(), "unexpected message");
}
