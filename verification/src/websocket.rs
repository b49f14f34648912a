//! Websocket framing used by the development-server connection: parsing of
//! incoming frames, incremental buffering, and encoding of masked client
//! frames.

use vstd::prelude::*;
use vstd::utf8::{decode_utf8, valid_utf8};
use crate::decimal::{decimal, push_decimal};

verus! {

/// A complete websocket message.
#[derive(Debug, PartialEq, Eq)]
pub enum WebSocketMessage {
    Text(String),
    Binary(Vec<u8>),
    Ping(Vec<u8>),
    Pong,
    Close,
}

/// The mathematical content of a [`WebSocketMessage`].
pub enum MessageModel {
    Text(Seq<char>),
    Binary(Seq<u8>),
    Ping(Seq<u8>),
    Pong,
    Close,
}

impl View for WebSocketMessage {
    type V = MessageModel;

    open spec fn view(&self) -> MessageModel {
        match self {
            WebSocketMessage::Text(s) => MessageModel::Text(s@),
            WebSocketMessage::Binary(b) => MessageModel::Binary(b@),
            WebSocketMessage::Ping(b) => MessageModel::Ping(b@),
            WebSocketMessage::Pong => MessageModel::Pong,
            WebSocketMessage::Close => MessageModel::Close,
        }
    }
}

/// Why a byte stream is not an acceptable sequence of websocket frames.
#[derive(Clone, Copy, Debug, PartialEq, Eq, Structural)]
pub enum FrameError {
    /// The FIN bit of a frame is clear.
    Fragmented,
    /// The announced frame length does not fit in memory.
    TooLarge,
    /// A text frame's payload is not UTF-8.
    InvalidUtf8,
    /// The opcode is none of text, binary, close, ping, pong.
    UnsupportedOpcode(u8),
}

impl FrameError {
    /// The human-readable description of the error.
    pub open spec fn description(self) -> Seq<char> {
        match self {
            FrameError::Fragmented => "fragmented websocket frames are not supported"@,
            FrameError::TooLarge => "websocket frame too large"@,
            FrameError::InvalidUtf8 => "websocket text was not UTF-8"@,
            FrameError::UnsupportedOpcode(op) => "unsupported websocket opcode: "@ + decimal(
                op as nat,
            ),
        }
    }

    /// Renders the error as a message.
    pub fn message(&self) -> (s: String)
        ensures
            s@ == self.description(),
    {
        match self {
            FrameError::Fragmented => String::from_str("fragmented websocket frames are not supported"),
            FrameError::TooLarge => String::from_str("websocket frame too large"),
            FrameError::InvalidUtf8 => String::from_str("websocket text was not UTF-8"),
            FrameError::UnsupportedOpcode(op) => {
                let mut s = String::from_str("unsupported websocket opcode: ");
                push_decimal(&mut s, *op as u64);
                s
            },
        }
    }
}

/// The unsigned big-endian value of a byte sequence.
pub open spec fn be_value(s: Seq<u8>) -> nat
    decreases s.len(),
{
    if s.len() == 0 {
        0
    } else {
        be_value(s.drop_last()) * 256 + s.last() as nat
    }
}

/// `256` raised to `n`.
pub open spec fn pow256(n: nat) -> nat
    decreases n,
{
    if n == 0 {
        1
    } else {
        256 * pow256((n - 1) as nat)
    }
}

/// `payload` with the four-byte `mask` XOR-ed over it cyclically.
pub open spec fn unmask(payload: Seq<u8>, mask: Seq<u8>) -> Seq<u8> {
    Seq::new(payload.len(), |i: int| payload[i] ^ mask[i % 4])
}

/// The message a complete frame with `opcode` and (unmasked) `payload` carries.
pub open spec fn decode_payload(opcode: u8, payload: Seq<u8>) -> Result<MessageModel, FrameError> {
    if opcode == 1 {
        if valid_utf8(payload) {
            Ok(MessageModel::Text(decode_utf8(payload)))
        } else {
            Err(FrameError::InvalidUtf8)
        }
    } else if opcode == 2 {
        Ok(MessageModel::Binary(payload))
    } else if opcode == 8 {
        Ok(MessageModel::Close)
    } else if opcode == 9 {
        Ok(MessageModel::Ping(payload))
    } else if opcode == 10 {
        Ok(MessageModel::Pong)
    } else {
        Err(FrameError::UnsupportedOpcode(opcode))
    }
}

/// The number of extended-length bytes that a length code announces.
pub open spec fn extended_len_bytes(code: int) -> int {
    if code <= 125 {
        0
    } else if code == 126 {
        2
    } else {
        8
    }
}

/// What the first frame at the front of `buf` is: `Ok(None)` while the frame is
/// incomplete, `Ok(Some((length, message)))` once it is complete, or the reason
/// it is refused.
pub open spec fn parse_frame_spec(buf: Seq<u8>) -> Result<Option<(nat, MessageModel)>, FrameError> {
    if buf.len() < 2 {
        Ok(None)
    } else if buf[0] < 0x80 {
        Err(FrameError::Fragmented)
    } else {
        let opcode = (buf[0] % 16) as u8;
        let masked = buf[1] >= 0x80;
        let code = (buf[1] % 128) as int;
        let ext = extended_len_bytes(code);
        if buf.len() < 2 + ext {
            Ok(None)
        } else {
            let payload_len: nat = if code <= 125 {
                code as nat
            } else {
                be_value(buf.subrange(2, 2 + ext))
            };
            if payload_len > usize::MAX {
                Err(FrameError::TooLarge)
            } else {
                let mask_len: int = if masked { 4 } else { 0 };
                let start = 2 + ext + mask_len;
                if buf.len() < start {
                    Ok(None)
                } else if start + payload_len > usize::MAX {
                    Err(FrameError::TooLarge)
                } else if buf.len() < start + payload_len {
                    Ok(None)
                } else {
                    let raw = buf.subrange(start, start + payload_len);
                    let payload = if masked {
                        unmask(raw, buf.subrange(2 + ext, start))
                    } else {
                        raw
                    };
                    match decode_payload(opcode, payload) {
                        Ok(m) => Ok(Some(((start + payload_len) as nat, m))),
                        Err(e) => Err(e),
                    }
                }
            }
        }
    }
}

/// The mathematical content of a frame-parsing result.
pub open spec fn frame_result_view(r: Result<Option<(usize, WebSocketMessage)>, FrameError>) -> Result<
    Option<(nat, MessageModel)>,
    FrameError,
> {
    match r {
        Ok(None) => Ok(None),
        Ok(Some((n, m))) => Ok(Some((n as nat, m@))),
        Err(e) => Err(e),
    }
}

proof fn lemma_be_value_bound(s: Seq<u8>)
    ensures
        be_value(s) < pow256(s.len()),
    decreases s.len(),
{
    if s.len() > 0 {
        lemma_be_value_bound(s.drop_last());
        let a = be_value(s.drop_last());
        let p = pow256((s.len() - 1) as nat);
        let l = s.last() as nat;
        assert(a * 256 + l < 256 * p) by (nonlinear_arith)
            requires
                a < p,
                l < 256,
        ;
    }
}

/// Decodes `String::from_utf8`: the text when `bytes` are UTF-8.
#[verifier::external_body]
fn utf8_string(bytes: Vec<u8>) -> (r: Option<String>)
    ensures
        match r {
            Some(s) => valid_utf8(bytes@) && s@ == decode_utf8(bytes@),
            None => !valid_utf8(bytes@),
        },
{
    String::from_utf8(bytes).ok()
}

fn decode_payload_exec(opcode: u8, payload: Vec<u8>) -> (r: Result<WebSocketMessage, FrameError>)
    ensures
        match r {
            Ok(m) => decode_payload(opcode, payload@) == Ok::<MessageModel, FrameError>(m@),
            Err(e) => decode_payload(opcode, payload@) == Err::<MessageModel, FrameError>(e),
        },
{
    let ghost p = payload@;
    if opcode == 1 {
        match utf8_string(payload) {
            Some(s) => Ok(WebSocketMessage::Text(s)),
            None => Err(FrameError::InvalidUtf8),
        }
    } else if opcode == 2 {
        Ok(WebSocketMessage::Binary(payload))
    } else if opcode == 8 {
        Ok(WebSocketMessage::Close)
    } else if opcode == 9 {
        Ok(WebSocketMessage::Ping(payload))
    } else if opcode == 10 {
        Ok(WebSocketMessage::Pong)
    } else {
        Err(FrameError::UnsupportedOpcode(opcode))
    }
}

/// Parses the frame at the front of `buffer`.
pub fn parse_frame(buffer: &[u8]) -> (r: Result<Option<(usize, WebSocketMessage)>, FrameError>)
    ensures
        frame_result_view(r) == parse_frame_spec(buffer@),
{
    let len = buffer.len();
    if len < 2 {
        return Ok(None);
    }
    if buffer[0] < 0x80 {
        return Err(FrameError::Fragmented);
    }
    let opcode = buffer[0] % 16;
    let masked = buffer[1] >= 0x80;
    let len_code = buffer[1] % 128;
    let mut offset: usize = 2;
    let payload_len: usize;
    if len_code <= 125 {
        payload_len = len_code as usize;
    } else if len_code == 126 {
        if len < 4 {
            return Ok(None);
        }
        payload_len = (buffer[2] as usize) * 256 + (buffer[3] as usize);
        proof {
            let s = buffer@.subrange(2, 4);
            assert(s.drop_last().drop_last() =~= Seq::<u8>::empty());
            assert(s.drop_last() =~= seq![buffer@[2]]);
            assert(be_value(s.drop_last().drop_last()) == 0);
            assert(be_value(s.drop_last()) == buffer@[2] as nat);
            assert(be_value(s) == buffer@[2] as nat * 256 + buffer@[3] as nat);
        }
        offset = 4;
    } else {
        if len < 10 {
            return Ok(None);
        }
        let mut value: u64 = 0;
        let mut i: usize = 0;
        while i < 8
            invariant
                0 <= i <= 8,
                len == buffer@.len(),
                len >= 10,
                value as nat == be_value(buffer@.subrange(2, 2 + i as int)),
            decreases 8 - i,
        {
            proof {
                lemma_be_value_bound(buffer@.subrange(2, 2 + i as int));
                assert(pow256(i as nat) <= pow256(7)) by {
                    lemma_pow256_monotonic(i as nat, 7);
                }
                assert(pow256(7) == 0x100_0000_0000_0000) by {
                    reveal_with_fuel(pow256, 8);
                }
                assert(buffer@.subrange(2, 2 + i + 1).drop_last() =~= buffer@.subrange(2, 2 + i as int));
            }
            value = value * 256 + buffer[2 + i] as u64;
            i = i + 1;
        }
        if value > usize::MAX as u64 {
            return Err(FrameError::TooLarge);
        }
        payload_len = value as usize;
        offset = 10;
    }
    assert(offset as int == 2 + extended_len_bytes(len_code as int));
    assert(payload_len as nat == (if len_code <= 125 {
        len_code as nat
    } else {
        be_value(buffer@.subrange(2, offset as int))
    }));
    let mask_start = offset;
    if masked {
        if len < offset + 4 {
            return Ok(None);
        }
        offset = offset + 4;
    }
    let frame_len = match offset.checked_add(payload_len) {
        Some(n) => n,
        None => {
            return Err(FrameError::TooLarge);
        },
    };
    if len < frame_len {
        return Ok(None);
    }
    let ghost raw = buffer@.subrange(offset as int, frame_len as int);
    let ghost expected = if masked {
        unmask(raw, buffer@.subrange(mask_start as int, offset as int))
    } else {
        raw
    };
    let mut payload: Vec<u8> = Vec::new();
    let mut j: usize = 0;
    while j < payload_len
        invariant
            0 <= j <= payload_len,
            len == buffer@.len(),
            offset + payload_len == frame_len,
            frame_len <= len,
            masked ==> mask_start + 4 == offset,
            raw == buffer@.subrange(offset as int, frame_len as int),
            expected == (if masked {
                unmask(raw, buffer@.subrange(mask_start as int, offset as int))
            } else {
                raw
            }),
            expected.len() == payload_len,
            payload@.len() == j,
            forall|k: int| 0 <= k < j ==> payload@[k] == expected[k],
        decreases payload_len - j,
    {
        let byte = buffer[offset + j];
        if masked {
            payload.push(byte ^ buffer[mask_start + j % 4]);
        } else {
            payload.push(byte);
        }
        j = j + 1;
    }
    assert(payload@ =~= expected);
    match decode_payload_exec(opcode, payload) {
        Ok(message) => Ok(Some((frame_len, message))),
        Err(e) => Err(e),
    }
}

proof fn lemma_pow256_monotonic(a: nat, b: nat)
    requires
        a <= b,
    ensures
        pow256(a) <= pow256(b),
    decreases b - a,
{
    if a < b {
        lemma_pow256_monotonic(a, (b - 1) as nat);
    }
}

/// The messages, the unconsumed bytes, and the refusal (if any) that parsing
/// `buf` frame by frame from the front yields: it stops at the first frame that
/// is incomplete or refused.
pub open spec fn parse_stream(buf: Seq<u8>) -> (Seq<MessageModel>, Seq<u8>, Option<FrameError>)
    decreases buf.len(),
{
    match parse_frame_spec(buf) {
        Err(e) => (Seq::empty(), buf, Some(e)),
        Ok(None) => (Seq::empty(), buf, None),
        Ok(Some((n, m))) => {
            if 0 < n <= buf.len() {
                let rest = parse_stream(buf.subrange(n as int, buf.len() as int));
                (seq![m] + rest.0, rest.1, rest.2)
            } else {
                (Seq::empty(), buf, None)
            }
        },
    }
}

/// The models of a sequence of messages.
pub open spec fn models(msgs: Seq<WebSocketMessage>) -> Seq<MessageModel> {
    msgs.map_values(|m: WebSocketMessage| m@)
}

/// A complete frame is at least its two header bytes long and no longer than
/// the bytes it was parsed from.
pub proof fn lemma_frame_len_in_range(buf: Seq<u8>)
    ensures
        parse_frame_spec(buf) matches Ok(Some((n, m))) ==> 2 <= n <= buf.len(),
{
}

/// Incremental websocket parser that buffers partial frames.
#[derive(Debug, Default)]
pub struct WebSocketParser {
    buffer: Vec<u8>,
}

fn drop_front(v: &Vec<u8>, n: usize) -> (r: Vec<u8>)
    requires
        n <= v@.len(),
    ensures
        r@ == v@.subrange(n as int, v@.len() as int),
{
    let mut r: Vec<u8> = Vec::new();
    let mut i = n;
    while i < v.len()
        invariant
            n <= i <= v@.len(),
            r@ == v@.subrange(n as int, i as int),
        decreases v@.len() - i,
    {
        r.push(v[i]);
        i = i + 1;
        assert(r@ =~= v@.subrange(n as int, i as int));
    }
    r
}

impl WebSocketParser {
    /// The bytes received but not yet consumed by a complete frame.
    pub closed spec fn pending(&self) -> Seq<u8> {
        self.buffer@
    }

    /// A parser with nothing buffered.
    pub fn new() -> (p: Self)
        ensures
            p.pending() == Seq::<u8>::empty(),
    {
        WebSocketParser { buffer: Vec::new() }
    }

    /// Appends `data` to the buffered bytes and returns every message that is
    /// now complete, in order; the bytes of an incomplete trailing frame stay
    /// buffered. On a refused frame the frames before it are consumed and
    /// their messages dropped, and the refused frame stays buffered.
    pub fn push(&mut self, data: &[u8]) -> (r: Result<Vec<WebSocketMessage>, FrameError>)
        ensures
            ({
                let outcome = parse_stream(old(self).pending() + data@);
                &&& final(self).pending() == outcome.1
                &&& match r {
                    Ok(msgs) => outcome.2 is None && models(msgs@) == outcome.0,
                    Err(e) => outcome.2 == Some(e),
                }
            }),
    {
        let ghost total = self.buffer@ + data@;
        let mut k: usize = 0;
        while k < data.len()
            invariant
                0 <= k <= data@.len(),
                self.buffer@ == old(self).buffer@ + data@.subrange(0, k as int),
            decreases data@.len() - k,
        {
            self.buffer.push(data[k]);
            k = k + 1;
            assert(self.buffer@ =~= old(self).buffer@ + data@.subrange(0, k as int));
        }
        assert(data@.subrange(0, data@.len() as int) =~= data@);
        let mut messages: Vec<WebSocketMessage> = Vec::new();
        loop
            invariant
                total == old(self).buffer@ + data@,
                parse_stream(total).0 == models(messages@) + parse_stream(self.buffer@).0,
                parse_stream(total).1 == parse_stream(self.buffer@).1,
                parse_stream(total).2 == parse_stream(self.buffer@).2,
            ensures
                parse_stream(total).0 == models(messages@),
                parse_stream(total).1 == self.buffer@,
                parse_stream(total).2 is None,
            decreases self.buffer@.len(),
        {
            let ghost before = self.buffer@;
            match parse_frame(self.buffer.as_slice()) {
                Err(e) => {
                    assert(parse_stream(before) == (Seq::<MessageModel>::empty(), before, Some(e)));
                    return Err(e);
                },
                Ok(None) => {
                    assert(parse_stream(before) == (Seq::<MessageModel>::empty(), before, None::<FrameError>));
                    assert(models(messages@) + Seq::<MessageModel>::empty() =~= models(messages@));
                    break;
                },
                Ok(Some((n, message))) => {
                    proof {
                        lemma_frame_len_in_range(before);
                    }
                    let ghost m = message@;
                    self.buffer = drop_front(&self.buffer, n);
                    messages.push(message);
                    proof {
                        let rest = parse_stream(self.buffer@);
                        assert(parse_stream(before).0 == seq![m] + rest.0);
                        assert(models(messages@) =~= models(messages@.drop_last()).push(m));
                        assert(models(messages@) + rest.0 =~= models(messages@.drop_last())
                            + (seq![m] + rest.0));
                    }
                },
            }
        }
        Ok(messages)
    }
}

/// The mask this client applies to every frame it sends.
pub open spec fn client_mask() -> Seq<u8> {
    seq![0x13u8, 0x37u8, 0x51u8, 0x8du8]
}

/// The `n` low-order bytes of `v`, most significant first.
pub open spec fn be_bytes(v: nat, n: nat) -> Seq<u8>
    decreases n,
{
    if n == 0 {
        Seq::empty()
    } else {
        be_bytes(v / 256, (n - 1) as nat).push((v % 256) as u8)
    }
}

/// The second header byte and extended length of a masked frame whose payload
/// is `len` bytes long.
pub open spec fn length_header(len: nat) -> Seq<u8> {
    if len <= 125 {
        seq![(0x80 + len) as u8]
    } else if len <= 65535 {
        seq![0xfeu8] + be_bytes(len, 2)
    } else {
        seq![0xffu8] + be_bytes(len, 8)
    }
}

/// The bytes of a final, masked client frame with `opcode` and `payload`.
pub open spec fn encode_client_frame_spec(opcode: u8, payload: Seq<u8>) -> Seq<u8> {
    seq![(0x80 + opcode % 16) as u8] + length_header(payload.len()) + client_mask() + unmask(
        payload,
        client_mask(),
    )
}

fn push_be_bytes(out: &mut Vec<u8>, v: u64, n: usize)
    ensures
        final(out)@ == old(out)@ + be_bytes(v as nat, n as nat),
    decreases n,
{
    if n > 0 {
        push_be_bytes(out, v / 256, n - 1);
        out.push((v % 256) as u8);
    }
}

/// Encodes a final, masked client frame carrying `payload` with `opcode`
/// (only its low four bits are used).
pub fn encode_client_frame(opcode: u8, payload: &[u8]) -> (frame: Vec<u8>)
    ensures
        frame@ == encode_client_frame_spec(opcode, payload@),
{
    let mut frame: Vec<u8> = Vec::new();
    frame.push(0x80 + opcode % 16);
    let len = payload.len();
    if len <= 125 {
        frame.push(0x80 + len as u8);
    } else if len <= 65535 {
        frame.push(0xfe);
        push_be_bytes(&mut frame, len as u64, 2);
    } else {
        frame.push(0xff);
        push_be_bytes(&mut frame, len as u64, 8);
    }
    let ghost header = frame@;
    assert(header =~= seq![(0x80 + opcode % 16) as u8] + length_header(len as nat));
    frame.push(0x13);
    frame.push(0x37);
    frame.push(0x51);
    frame.push(0x8d);
    let mask: [u8; 4] = [0x13, 0x37, 0x51, 0x8d];
    assert(mask@ =~= client_mask());
    let ghost prefix = frame@;
    assert(prefix =~= header + client_mask());
    let mut i: usize = 0;
    while i < len
        invariant
            0 <= i <= len,
            len == payload@.len(),
            mask@ == client_mask(),
            frame@ == prefix + unmask(payload@, client_mask()).subrange(0, i as int),
        decreases len - i,
    {
        frame.push(payload[i] ^ mask[i % 4]);
        i = i + 1;
        assert(frame@ =~= prefix + unmask(payload@, client_mask()).subrange(0, i as int));
    }
    assert(unmask(payload@, client_mask()).subrange(0, len as int) =~= unmask(
        payload@,
        client_mask(),
    ));
    frame
}

/// A complete frame stays the same frame whatever bytes follow it.
pub proof fn lemma_parse_frame_extends(s: Seq<u8>, t: Seq<u8>)
    requires
        parse_frame_spec(s) is Ok,
        parse_frame_spec(s)->Ok_0 is Some,
    ensures
        parse_frame_spec(s + t) == parse_frame_spec(s),
{
    let u = s + t;
    assert(u[0] == s[0] && u[1] == s[1]);
    let code = (s[1] % 128) as int;
    let ext = extended_len_bytes(code);
    assert(u.subrange(2, 2 + ext) =~= s.subrange(2, 2 + ext));
    let masked = s[1] >= 0x80;
    let mask_len: int = if masked { 4 } else { 0 };
    let start = 2 + ext + mask_len;
    let payload_len: nat = if code <= 125 {
        code as nat
    } else {
        be_value(s.subrange(2, 2 + ext))
    };
    assert(u.subrange(2 + ext, start) =~= s.subrange(2 + ext, start));
    assert(u.subrange(start, start + payload_len) =~= s.subrange(start, start + payload_len));
}

/// A complete frame is decided by its own bytes: every shorter prefix of it
/// is still incomplete, and the frame's bytes alone parse to the same frame.
pub proof fn lemma_parse_frame_prefixes(s: Seq<u8>, k: int)
    requires
        parse_frame_spec(s) is Ok,
        parse_frame_spec(s)->Ok_0 is Some,
    ensures
        ({
            let n = parse_frame_spec(s)->Ok_0->Some_0.0;
            &&& 0 <= k < n ==> parse_frame_spec(s.subrange(0, k)) == Ok::<
                Option<(nat, MessageModel)>,
                FrameError,
            >(None)
            &&& parse_frame_spec(s.subrange(0, n as int)) == parse_frame_spec(s)
        }),
{
    let n = parse_frame_spec(s)->Ok_0->Some_0.0;
    let code = (s[1] % 128) as int;
    let ext = extended_len_bytes(code);
    let masked = s[1] >= 0x80;
    let mask_len: int = if masked { 4 } else { 0 };
    let start = 2 + ext + mask_len;
    let payload_len: nat = if code <= 125 {
        code as nat
    } else {
        be_value(s.subrange(2, 2 + ext))
    };
    assert(n == start + payload_len);
    if 0 <= k < n {
        let p = s.subrange(0, k);
        if k >= 2 {
            assert(p[0] == s[0] && p[1] == s[1]);
            if k >= 2 + ext {
                assert(p.subrange(2, 2 + ext) =~= s.subrange(2, 2 + ext));
            }
        }
    }
    let q = s.subrange(0, n as int);
    assert(q[0] == s[0] && q[1] == s[1]);
    assert(q.subrange(2, 2 + ext) =~= s.subrange(2, 2 + ext));
    assert(q.subrange(2 + ext, start) =~= s.subrange(2 + ext, start));
    assert(q.subrange(start, start + payload_len) =~= s.subrange(start, start + payload_len));
}

/// Splitting the received bytes anywhere does not change what is parsed:
/// when the bytes `a` parse without a refusal, parsing `a` followed by `b`
/// yields the messages of `a`, then exactly what parsing the bytes `a` left
/// over followed by `b` yields. This is what lets [`WebSocketParser::push`]
/// receive a stream in arbitrary chunks.
pub proof fn lemma_split_delivery(a: Seq<u8>, b: Seq<u8>)
    requires
        parse_stream(a).2 is None,
    ensures
        ({
            let first = parse_stream(a);
            let second = parse_stream(first.1 + b);
            parse_stream(a + b) == (first.0 + second.0, second.1, second.2)
        }),
    decreases a.len(),
{
    lemma_frame_len_in_range(a);
    match parse_frame_spec(a) {
        Ok(Some((n, m))) => {
            lemma_parse_frame_extends(a, b);
            lemma_frame_len_in_range(a + b);
            let a2 = a.subrange(n as int, a.len() as int);
            assert((a + b).subrange(n as int, (a + b).len() as int) =~= a2 + b);
            lemma_split_delivery(a2, b);
            let first = parse_stream(a);
            let second = parse_stream(first.1 + b);
            assert(first.0 == seq![m] + parse_stream(a2).0);
            assert(first.0 + second.0 =~= seq![m] + (parse_stream(a2).0 + second.0));
        },
        Ok(None) => {
            assert(parse_stream(a).0 =~= Seq::<MessageModel>::empty());
            assert(Seq::<MessageModel>::empty() + parse_stream(a + b).0 =~= parse_stream(a + b).0);
        },
        Err(_) => {},
    }
}

proof fn lemma_be_bytes_value(v: nat, n: nat)
    ensures
        be_bytes(v, n).len() == n,
        be_value(be_bytes(v, n)) == v % pow256(n),
    decreases n,
{
    if n > 0 {
        lemma_be_bytes_value(v / 256, (n - 1) as nat);
        let b = be_bytes(v, n);
        assert(b.drop_last() =~= be_bytes(v / 256, (n - 1) as nat));
        let p = pow256((n - 1) as nat);
        assert(p > 0) by {
            lemma_pow256_positive((n - 1) as nat);
        }
        vstd::arithmetic::div_mod::lemma_mod_breakdown(v as int, 256, p as int);
        assert(((v / 256) % p) * 256 == 256 * ((v / 256) % p)) by (nonlinear_arith);
    }
}

proof fn lemma_pow256_positive(n: nat)
    ensures
        pow256(n) > 0,
    decreases n,
{
    if n > 0 {
        lemma_pow256_positive((n - 1) as nat);
    }
}

proof fn lemma_unmask_twice(payload: Seq<u8>, mask: Seq<u8>)
    requires
        mask.len() == 4,
    ensures
        unmask(unmask(payload, mask), mask) == payload,
{
    assert forall|i: int| 0 <= i < payload.len() implies #[trigger] unmask(
        unmask(payload, mask),
        mask,
    )[i] == payload[i] by {
        let x = payload[i];
        let m = mask[i % 4];
        assert((x ^ m) ^ m == x) by (bit_vector);
    }
    assert(unmask(unmask(payload, mask), mask) =~= payload);
}

/// Reading back a frame that this client writes gives the message it was
/// written to carry: the frame is complete, is exactly as long as its
/// encoding, and decodes to the payload's message, whatever follows it.
pub proof fn lemma_client_frame_roundtrip(opcode: u8, payload: Seq<u8>, rest: Seq<u8>)
    requires
        decode_payload(opcode % 16, payload) is Ok,
        payload.len() + 14 <= usize::MAX,
    ensures
        parse_frame_spec(encode_client_frame_spec(opcode, payload) + rest) == Ok::<
            Option<(nat, MessageModel)>,
            FrameError,
        >(
            Some(
                (
                    encode_client_frame_spec(opcode, payload).len(),
                    decode_payload(opcode % 16, payload)->Ok_0,
                ),
            ),
        ),
{
    let f = encode_client_frame_spec(opcode, payload);
    let len = payload.len();
    let header = length_header(len);
    let masked_payload = unmask(payload, client_mask());
    assert(f[0] == (0x80 + opcode % 16) as u8);
    assert(f[0] >= 0x80);
    assert((f[0] % 16) as u8 == opcode % 16);
    assert(f[1] == header[0]);
    lemma_unmask_twice(payload, client_mask());
    let ext: int;
    if len <= 125 {
        ext = 0;
    } else if len <= 65535 {
        ext = 2;
        lemma_be_bytes_value(len, 2);
        assert(pow256(2) == 65536) by {
            reveal_with_fuel(pow256, 3);
        }
        assert(f.subrange(2, 4) =~= be_bytes(len, 2));
    } else {
        ext = 8;
        lemma_be_bytes_value(len, 8);
        assert(pow256(8) == 0x1_0000_0000_0000_0000) by {
            reveal_with_fuel(pow256, 9);
        }
        assert(f.subrange(2, 10) =~= be_bytes(len, 8));
    }
    assert(header.len() == 1 + ext);
    assert(f.subrange(2 + ext, 6 + ext) =~= client_mask());
    assert(f.subrange(6 + ext, 6 + ext + len) =~= masked_payload);
    assert(f.len() == 6 + ext + len);
    assert(parse_frame_spec(f) == Ok::<Option<(nat, MessageModel)>, FrameError>(
        Some((f.len(), decode_payload(opcode % 16, payload)->Ok_0)),
    ));
    lemma_parse_frame_extends(f, rest);
}

} // verus!
