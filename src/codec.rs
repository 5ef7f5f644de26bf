//! The frame codec: `u32 length (big-endian) | u8 tag | payload`, where the
//! length counts the tag and the payload.
use vstd::prelude::*;
use vstd::utf8::*;

verus! {

broadcast use {encode_utf8_valid_utf8, encode_utf8_decode_utf8};

pub const COMMAND: u8 = 0;
pub const ARG: u8 = 1;
pub const STDIN: u8 = 2;
pub const ENV: u8 = 3;
pub const CURRENT_DIR: u8 = 4;
pub const EOT: u8 = 5;
pub const ERROR: u8 = 6;
pub const STDOUT: u8 = 7;
pub const STDERR: u8 = 8;
pub const EXIT_STATUS: u8 = 9;

/// One message of the protocol.
pub enum Message {
    Command(String),
    Arg(String),
    Stdin(Vec<u8>),
    Env(String, String),
    CurrentDir(String),
    Eot,
    Error(String),
    Stdout(Vec<u8>),
    Stderr(Vec<u8>),
    ExitStatus(i32),
}

/// The mathematical value of a [`Message`].
pub enum MessageView {
    Command(Seq<char>),
    Arg(Seq<char>),
    Stdin(Seq<u8>),
    Env(Seq<char>, Seq<char>),
    CurrentDir(Seq<char>),
    Eot,
    Error(Seq<char>),
    Stdout(Seq<u8>),
    Stderr(Seq<u8>),
    ExitStatus(i32),
}

impl View for Message {
    type V = MessageView;

    open spec fn view(&self) -> MessageView {
        match self {
            Message::Command(s) => MessageView::Command(s@),
            Message::Arg(s) => MessageView::Arg(s@),
            Message::Stdin(b) => MessageView::Stdin(b@),
            Message::Env(n, v) => MessageView::Env(n@, v@),
            Message::CurrentDir(s) => MessageView::CurrentDir(s@),
            Message::Eot => MessageView::Eot,
            Message::Error(s) => MessageView::Error(s@),
            Message::Stdout(b) => MessageView::Stdout(b@),
            Message::Stderr(b) => MessageView::Stderr(b@),
            Message::ExitStatus(c) => MessageView::ExitStatus(*c),
        }
    }
}

/// Why a frame could not be decoded, or was not expected.
#[derive(Clone, Copy, Debug, PartialEq, Eq, Structural)]
pub enum ProtocolError {
    /// A frame shorter than its length prefix, or without a tag.
    Truncated,
    /// The tag names no message.
    UnknownTag(u8),
    /// A length inside the payload disagrees with the payload's size.
    LengthMismatch,
    /// A text field is not valid UTF-8.
    InvalidText,
    /// A well-formed message arrived where the protocol allows none of its kind.
    Unexpected(u8),
}

/// The text reported to the parent for a protocol error.
pub open spec fn protocol_error_text(e: ProtocolError) -> Seq<char> {
    match e {
        ProtocolError::Truncated => "truncated frame"@,
        ProtocolError::UnknownTag(_) => "unknown message tag"@,
        ProtocolError::LengthMismatch => "inconsistent length field"@,
        ProtocolError::InvalidText => "text field is not valid UTF-8"@,
        ProtocolError::Unexpected(_) => "unexpected message"@,
    }
}

impl ProtocolError {
    /// The text reported to the parent.
    pub fn description(&self) -> (r: String)
        ensures
            r@ == protocol_error_text(*self),
    {
        match self {
            ProtocolError::Truncated => "truncated frame".to_owned(),
            ProtocolError::UnknownTag(_) => "unknown message tag".to_owned(),
            ProtocolError::LengthMismatch => "inconsistent length field".to_owned(),
            ProtocolError::InvalidText => "text field is not valid UTF-8".to_owned(),
            ProtocolError::Unexpected(_) => "unexpected message".to_owned(),
        }
    }
}

/// The four big-endian bytes of `n`.
pub open spec fn be_bytes(n: u32) -> Seq<u8> {
    seq![
        (n / 0x100_0000) as u8,
        ((n / 0x1_0000) % 0x100) as u8,
        ((n / 0x100) % 0x100) as u8,
        (n % 0x100) as u8,
    ]
}

/// The number that four bytes hold, read big-endian.
pub open spec fn be_value(b: Seq<u8>) -> int
    recommends
        b.len() == 4,
{
    b[0] * 0x100_0000 + b[1] * 0x1_0000 + b[2] * 0x100 + b[3]
}

/// The two's complement bits of `c`.
pub open spec fn i32_bits(c: i32) -> u32 {
    if c >= 0 {
        c as u32
    } else {
        (c + 0x1_0000_0000) as u32
    }
}

/// The `i32` whose two's complement bits are `v`.
pub open spec fn i32_from_bits(v: int) -> i32 {
    if v < 0x8000_0000 {
        v as i32
    } else {
        (v - 0x1_0000_0000) as i32
    }
}

/// The name of the kind of message that a tag stands for.
pub open spec fn kind_name(tag: u8) -> Seq<char> {
    if tag == COMMAND {
        "COMMAND"@
    } else if tag == ARG {
        "ARG"@
    } else if tag == STDIN {
        "STDIN"@
    } else if tag == ENV {
        "ENV"@
    } else if tag == CURRENT_DIR {
        "CURRENT_DIR"@
    } else if tag == EOT {
        "EOT"@
    } else if tag == ERROR {
        "ERROR"@
    } else if tag == STDOUT {
        "STDOUT"@
    } else if tag == STDERR {
        "STDERR"@
    } else {
        "EXIT_STATUS"@
    }
}

/// The messages that the bridge sends to the parent.
pub open spec fn is_outbound(m: MessageView) -> bool {
    match m {
        MessageView::Eot | MessageView::Error(_) | MessageView::Stdout(_) | MessageView::Stderr(
            _,
        ) | MessageView::ExitStatus(_) => true,
        _ => false,
    }
}

pub open spec fn tag_of(m: MessageView) -> u8 {
    match m {
        MessageView::Command(_) => COMMAND,
        MessageView::Arg(_) => ARG,
        MessageView::Stdin(_) => STDIN,
        MessageView::Env(_, _) => ENV,
        MessageView::CurrentDir(_) => CURRENT_DIR,
        MessageView::Eot => EOT,
        MessageView::Error(_) => ERROR,
        MessageView::Stdout(_) => STDOUT,
        MessageView::Stderr(_) => STDERR,
        MessageView::ExitStatus(_) => EXIT_STATUS,
    }
}

/// The payload bytes of a message: text as UTF-8, an Env as the name's length,
/// the name and the value, an exit status as its four big-endian bytes.
pub open spec fn payload_of(m: MessageView) -> Seq<u8> {
    match m {
        MessageView::Command(s) => encode_utf8(s),
        MessageView::Arg(s) => encode_utf8(s),
        MessageView::Stdin(b) => b,
        MessageView::Env(n, v) => be_bytes(encode_utf8(n).len() as u32) + encode_utf8(n)
            + encode_utf8(v),
        MessageView::CurrentDir(s) => encode_utf8(s),
        MessageView::Eot => seq![],
        MessageView::Error(s) => encode_utf8(s),
        MessageView::Stdout(b) => b,
        MessageView::Stderr(b) => b,
        MessageView::ExitStatus(c) => be_bytes(i32_bits(c)),
    }
}

/// The body of a frame: the tag, then the payload.
pub open spec fn body_of(m: MessageView) -> Seq<u8> {
    seq![tag_of(m)] + payload_of(m)
}

/// A whole frame: the body's length, then the body.
pub open spec fn frame_of(m: MessageView) -> Seq<u8> {
    be_bytes(body_of(m).len() as u32) + body_of(m)
}

/// A message can be framed when its body's length fits the prefix.
pub open spec fn fits_frame(m: MessageView) -> bool {
    body_of(m).len() <= u32::MAX
}

fn push_be(out: &mut Vec<u8>, n: u32)
    ensures
        final(out)@ == old(out)@ + be_bytes(n),
{
    out.push((n / 0x100_0000) as u8);
    out.push(((n / 0x1_0000) % 0x100) as u8);
    out.push(((n / 0x100) % 0x100) as u8);
    out.push((n % 0x100) as u8);
}

fn push_all(out: &mut Vec<u8>, src: &[u8])
    ensures
        final(out)@ == old(out)@ + src@,
{
    let ghost start = out@;
    let mut i: usize = 0;
    while i < src.len()
        invariant
            i <= src@.len(),
            out@ == start + src@.subrange(0, i as int),
        decreases src@.len() - i,
    {
        out.push(src[i]);
        i = i + 1;
        assert(src@.subrange(0, i as int) == src@.subrange(0, i - 1) + seq![src@[i - 1]]);
    }
    assert(src@.subrange(0, src@.len() as int) == src@);
}

impl Message {
    /// The message as it goes on the wire.
    pub fn to_bytes(&self) -> (r: Vec<u8>)
        requires
            is_outbound(self@),
            fits_frame(self@),
        ensures
            r@ == frame_of(self@),
    {
        match self {
            Message::Eot => Message::to_vec(EOT, &[]),
            Message::Error(message) => Message::to_vec(ERROR, message.as_str().as_bytes()),
            Message::Stdout(buffer) => Message::to_vec(STDOUT, buffer.as_slice()),
            Message::Stderr(buffer) => Message::to_vec(STDERR, buffer.as_slice()),
            Message::ExitStatus(code) => {
                let mut bits: Vec<u8> = Vec::new();
                push_be(&mut bits, exit_bits(*code));
                Message::to_vec(EXIT_STATUS, bits.as_slice())
            },
            _ => Message::to_vec(EOT, &[]),
        }
    }

    /// A frame with the given tag and payload.
    pub fn to_vec(message_type: u8, bytes: &[u8]) -> (r: Vec<u8>)
        requires
            bytes@.len() < u32::MAX,
        ensures
            r@ == be_bytes((bytes@.len() + 1) as u32) + seq![message_type] + bytes@,
    {
        let length = (1 + bytes.len()) as u32;
        let mut buffer: Vec<u8> = Vec::new();
        push_be(&mut buffer, length);
        buffer.push(message_type);
        push_all(&mut buffer, bytes);
        buffer
    }
}

/// The message that a frame body holds, or why it holds none.
pub open spec fn decode_body(body: Seq<u8>) -> Result<MessageView, ProtocolError> {
    if body.len() == 0 {
        Err(ProtocolError::Truncated)
    } else {
        let tag = body[0];
        let p = body.subrange(1, body.len() as int);
        if tag == COMMAND {
            if valid_utf8(p) { Ok(MessageView::Command(decode_utf8(p))) } else { Err(ProtocolError::InvalidText) }
        } else if tag == ARG {
            if valid_utf8(p) { Ok(MessageView::Arg(decode_utf8(p))) } else { Err(ProtocolError::InvalidText) }
        } else if tag == STDIN {
            Ok(MessageView::Stdin(p))
        } else if tag == ENV {
            if p.len() < 4 {
                Err(ProtocolError::LengthMismatch)
            } else if be_value(p.subrange(0, 4)) > p.len() - 4 {
                Err(ProtocolError::LengthMismatch)
            } else {
                let end = 4 + be_value(p.subrange(0, 4));
                let name = p.subrange(4, end);
                let value = p.subrange(end, p.len() as int);
                if valid_utf8(name) && valid_utf8(value) {
                    Ok(MessageView::Env(decode_utf8(name), decode_utf8(value)))
                } else {
                    Err(ProtocolError::InvalidText)
                }
            }
        } else if tag == CURRENT_DIR {
            if valid_utf8(p) { Ok(MessageView::CurrentDir(decode_utf8(p))) } else { Err(ProtocolError::InvalidText) }
        } else if tag == EOT {
            Ok(MessageView::Eot)
        } else if tag == ERROR {
            if valid_utf8(p) { Ok(MessageView::Error(decode_utf8(p))) } else { Err(ProtocolError::InvalidText) }
        } else if tag == STDOUT {
            Ok(MessageView::Stdout(p))
        } else if tag == STDERR {
            Ok(MessageView::Stderr(p))
        } else if tag == EXIT_STATUS {
            if p.len() == 4 {
                Ok(MessageView::ExitStatus(i32_from_bits(be_value(p))))
            } else {
                Err(ProtocolError::LengthMismatch)
            }
        } else {
            Err(ProtocolError::UnknownTag(tag))
        }
    }
}

/// The message that a whole frame holds, or why it holds none.
pub open spec fn decode_frame(frame: Seq<u8>) -> Result<MessageView, ProtocolError> {
    if frame.len() < 4 {
        Err(ProtocolError::Truncated)
    } else if be_value(frame.subrange(0, 4)) != frame.len() - 4 {
        Err(ProtocolError::LengthMismatch)
    } else {
        decode_body(frame.subrange(4, frame.len() as int))
    }
}

/// A decoding result, seen through the message's view.
pub open spec fn result_view(r: Result<Message, ProtocolError>) -> Result<MessageView, ProtocolError> {
    match r {
        Ok(m) => Ok(m@),
        Err(e) => Err(e),
    }
}

/// Relies on `String::from_utf8`: it accepts exactly the valid UTF-8 byte
/// sequences and keeps the characters that they encode.
#[verifier::external_body]
fn string_from_bytes(bytes: Vec<u8>) -> (r: Option<String>)
    ensures
        r is Some <==> valid_utf8(bytes@),
        r matches Some(s) ==> s@ == decode_utf8(bytes@),
{
    String::from_utf8(bytes).ok()
}

fn copy_range(src: &[u8], lo: usize, hi: usize) -> (r: Vec<u8>)
    requires
        lo <= hi <= src@.len(),
    ensures
        r@ == src@.subrange(lo as int, hi as int),
{
    let mut out: Vec<u8> = Vec::new();
    let mut i: usize = lo;
    while i < hi
        invariant
            lo <= i <= hi <= src@.len(),
            out@ == src@.subrange(lo as int, i as int),
        decreases hi - i,
    {
        out.push(src[i]);
        i = i + 1;
        assert(src@.subrange(lo as int, i as int) == src@.subrange(lo as int, i - 1) + seq![
            src@[i - 1],
        ]);
    }
    out
}

fn text_range(src: &[u8], lo: usize, hi: usize) -> (r: Option<String>)
    requires
        lo <= hi <= src@.len(),
    ensures
        r is Some <==> valid_utf8(src@.subrange(lo as int, hi as int)),
        r matches Some(s) ==> s@ == decode_utf8(src@.subrange(lo as int, hi as int)),
{
    string_from_bytes(copy_range(src, lo, hi))
}

fn read_be(src: &[u8], at: usize) -> (r: u32)
    requires
        at + 4 <= src@.len(),
    ensures
        r == be_value(src@.subrange(at as int, at + 4)),
{
    let b0 = src[at] as u32;
    let b1 = src[at + 1] as u32;
    let b2 = src[at + 2] as u32;
    let b3 = src[at + 3] as u32;
    b0 * 0x100_0000 + b1 * 0x1_0000 + b2 * 0x100 + b3
}

fn bits_to_i32(v: u32) -> (r: i32)
    ensures
        r == i32_from_bits(v as int),
{
    if v < 0x8000_0000 {
        v as i32
    } else {
        (v as i64 - 0x1_0000_0000i64) as i32
    }
}

impl Message {
    /// Decodes a frame body: the tag, then the payload.
    pub fn from_bytes(bytes: &[u8]) -> (r: Result<Message, ProtocolError>)
        ensures
            result_view(r) == decode_body(bytes@),
    {
        let len = bytes.len();
        if len == 0 {
            return Err(ProtocolError::Truncated);
        }
        let tag = bytes[0];
        let ghost p = bytes@.subrange(1, len as int);
        if tag == COMMAND || tag == ARG || tag == CURRENT_DIR || tag == ERROR {
            match text_range(bytes, 1, len) {
                Some(s) => {
                    if tag == COMMAND {
                        Ok(Message::Command(s))
                    } else if tag == ARG {
                        Ok(Message::Arg(s))
                    } else if tag == CURRENT_DIR {
                        Ok(Message::CurrentDir(s))
                    } else {
                        Ok(Message::Error(s))
                    }
                },
                None => Err(ProtocolError::InvalidText),
            }
        } else if tag == STDIN {
            Ok(Message::Stdin(copy_range(bytes, 1, len)))
        } else if tag == STDOUT {
            Ok(Message::Stdout(copy_range(bytes, 1, len)))
        } else if tag == STDERR {
            Ok(Message::Stderr(copy_range(bytes, 1, len)))
        } else if tag == ENV {
            if len < 5 {
                return Err(ProtocolError::LengthMismatch);
            }
            let name_length = read_be(bytes, 1);
            assert(p.subrange(0, 4) == bytes@.subrange(1, 5));
            if name_length as usize > len - 5 {
                return Err(ProtocolError::LengthMismatch);
            }
            let name_end = 5 + name_length as usize;
            assert(p.subrange(4, name_end - 1) == bytes@.subrange(5, name_end as int));
            assert(p.subrange(name_end - 1, p.len() as int) == bytes@.subrange(
                name_end as int,
                len as int,
            ));
            let name = text_range(bytes, 5, name_end);
            let value = text_range(bytes, name_end, len);
            match (name, value) {
                (Some(name), Some(value)) => Ok(Message::Env(name, value)),
                _ => Err(ProtocolError::InvalidText),
            }
        } else if tag == EOT {
            Ok(Message::Eot)
        } else if tag == EXIT_STATUS {
            if len != 5 {
                return Err(ProtocolError::LengthMismatch);
            }
            let bits = read_be(bytes, 1);
            assert(p == bytes@.subrange(1, 5));
            Ok(Message::ExitStatus(bits_to_i32(bits)))
        } else {
            Err(ProtocolError::UnknownTag(tag))
        }
    }

    /// The name of the message's kind, as diagnostics show it.
    pub fn name(&self) -> (r: &'static str)
        ensures
            r@ == kind_name(tag_of(self@)),
    {
        match self {
            Message::Command(_) => "COMMAND",
            Message::Arg(_) => "ARG",
            Message::Stdin(_) => "STDIN",
            Message::Env(_, _) => "ENV",
            Message::CurrentDir(_) => "CURRENT_DIR",
            Message::Eot => "EOT",
            Message::Error(_) => "ERROR",
            Message::Stdout(_) => "STDOUT",
            Message::Stderr(_) => "STDERR",
            Message::ExitStatus(_) => "EXIT_STATUS",
        }
    }

    /// The tag that this message carries on the wire.
    pub fn tag(&self) -> (r: u8)
        ensures
            r == tag_of(self@),
    {
        match self {
            Message::Command(_) => COMMAND,
            Message::Arg(_) => ARG,
            Message::Stdin(_) => STDIN,
            Message::Env(_, _) => ENV,
            Message::CurrentDir(_) => CURRENT_DIR,
            Message::Eot => EOT,
            Message::Error(_) => ERROR,
            Message::Stdout(_) => STDOUT,
            Message::Stderr(_) => STDERR,
            Message::ExitStatus(_) => EXIT_STATUS,
        }
    }

    /// The body length that a four-byte frame header announces.
    pub fn frame_length(header: &[u8]) -> (r: u32)
        requires
            header@.len() == 4,
        ensures
            r == be_value(header@),
    {
        assert(header@.subrange(0, 4) == header@);
        read_be(header, 0)
    }

    /// Decodes a whole frame: the length prefix, the tag and the payload.
    pub fn decode(frame: &[u8]) -> (r: Result<Message, ProtocolError>)
        ensures
            result_view(r) == decode_frame(frame@),
    {
        let len = frame.len();
        if len < 4 {
            return Err(ProtocolError::Truncated);
        }
        let declared = read_be(frame, 0);
        if declared as usize != len - 4 {
            return Err(ProtocolError::LengthMismatch);
        }
        let body = copy_range(frame, 4, len);
        Message::from_bytes(body.as_slice())
    }
}

proof fn lemma_be_round_trip(n: u32)
    ensures
        be_value(be_bytes(n)) == n,
{
    assert(be_value(be_bytes(n)) == n) by (nonlinear_arith);
}

proof fn lemma_i32_bits_round_trip(c: i32)
    ensures
        i32_from_bits(i32_bits(c) as int) == c,
{
}

/// Decoding a message's frame gives the message back, for every message whose
/// body fits the length prefix.
pub proof fn lemma_decode_encode(m: MessageView)
    requires
        fits_frame(m),
    ensures
        decode_frame(frame_of(m)) == Ok::<MessageView, ProtocolError>(m),
        decode_body(body_of(m)) == Ok::<MessageView, ProtocolError>(m),
{
    let body = body_of(m);
    let frame = frame_of(m);
    lemma_be_round_trip(body.len() as u32);
    assert(frame.subrange(0, 4) == be_bytes(body.len() as u32));
    assert(frame.subrange(4, frame.len() as int) == body);
    let p = payload_of(m);
    assert(body.subrange(1, body.len() as int) == p);
    match m {
        MessageView::Env(n, v) => {
            let nb = encode_utf8(n);
            lemma_be_round_trip(nb.len() as u32);
            assert(p.subrange(0, 4) == be_bytes(nb.len() as u32));
            assert(p.subrange(4, 4 + nb.len() as int) == nb);
            assert(p.subrange(4 + nb.len() as int, p.len() as int) == encode_utf8(v));
        },
        MessageView::ExitStatus(c) => {
            lemma_be_round_trip(i32_bits(c));
            lemma_i32_bits_round_trip(c);
        },
        _ => {},
    }
}

/// An Env body whose declared name length runs past the payload is rejected
/// as a whole: no message comes out of it.
pub proof fn lemma_env_overrun_rejected(body: Seq<u8>)
    requires
        body.len() >= 5,
        body[0] == ENV,
        be_value(body.subrange(1, 5)) > body.len() - 5,
    ensures
        decode_body(body) == Err::<MessageView, ProtocolError>(ProtocolError::LengthMismatch),
{
    assert(body.subrange(1, body.len() as int).subrange(0, 4) == body.subrange(1, 5));
}

fn exit_bits(code: i32) -> (r: u32)
    ensures
        r == i32_bits(code),
{
    if code >= 0 {
        code as u32
    } else {
        (code as i64 + 0x1_0000_0000i64) as u32
    }
}

} // verus!
