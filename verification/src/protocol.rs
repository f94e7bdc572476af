//! The command-server wire format.
//!
//! Server to client: a 1-byte channel, a 4-byte big-endian length, then the
//! payload. Client to server: a 4-byte big-endian length, then the payload.
use vstd::prelude::*;

use vstd::string::StringSliceAdditionalSpecFns;

use crate::error::Error;
use crate::text::{from_chars, hex_byte, push_decimal, push_hex_byte, push_str, decimal};

verus! {

/// Identifies which channel a server message arrived on.
#[derive(Debug, Clone, Copy, PartialEq, Eq, Structural)]
pub enum Channel {
    /// 'o' — stdout output from a command.
    Output,
    /// 'e' — stderr output from a command.
    Error,
    /// 'r' — command result (payload is a 4-byte i32 return code).
    Result,
    /// 'I' — server requests bulk input.
    InputReq,
    /// 'L' — server requests a line of input.
    LineInputReq,
    /// 'd' — debug output.
    Debug,
}

/// The byte that names a channel on the wire.
pub open spec fn channel_byte(c: Channel) -> u8 {
    match c {
        Channel::Output => 0x6f,
        Channel::Error => 0x65,
        Channel::Result => 0x72,
        Channel::InputReq => 0x49,
        Channel::LineInputReq => 0x4c,
        Channel::Debug => 0x64,
    }
}

/// The channel a byte names, if any.
pub open spec fn channel_of(b: u8) -> Option<Channel> {
    if b == 0x6f {
        Some(Channel::Output)
    } else if b == 0x65 {
        Some(Channel::Error)
    } else if b == 0x72 {
        Some(Channel::Result)
    } else if b == 0x49 {
        Some(Channel::InputReq)
    } else if b == 0x4c {
        Some(Channel::LineInputReq)
    } else if b == 0x64 {
        Some(Channel::Debug)
    } else {
        None
    }
}

/// The message of the error for an unknown channel byte.
pub open spec fn unknown_channel_message(b: u8) -> Seq<char> {
    "unknown channel byte: 0x"@ + hex_byte(b)
}

/// The value of four bytes read as a big-endian unsigned integer.
pub open spec fn be_u32_value(b0: u8, b1: u8, b2: u8, b3: u8) -> nat {
    (b0 as nat) * 16777216 + (b1 as nat) * 65536 + (b2 as nat) * 256 + (b3 as nat)
}

/// The big-endian bytes of `n`.
pub open spec fn be_bytes(n: u32) -> Seq<u8> {
    seq![(n / 16777216) as u8, ((n / 65536) % 256) as u8, ((n / 256) % 256) as u8, (n % 256) as u8]
}

/// The value of four bytes read as a big-endian two's complement integer.
pub open spec fn be_i32_value(b: Seq<u8>) -> int {
    let v = be_u32_value(b[0], b[1], b[2], b[3]) as int;
    if v >= 0x8000_0000 {
        v - 0x1_0000_0000
    } else {
        v
    }
}

/// The length announced by a server frame header.
pub open spec fn header_length(b: Seq<u8>) -> nat {
    be_u32_value(b[1], b[2], b[3], b[4])
}

/// A server frame on the wire: channel byte, big-endian length, payload.
pub open spec fn encode_frame(c: Channel, data: Seq<u8>) -> Seq<u8> {
    seq![channel_byte(c)] + be_bytes(data.len() as u32) + data
}

/// A client frame on the wire: big-endian length, payload.
pub open spec fn encode_payload(data: Seq<u8>) -> Seq<u8> {
    be_bytes(data.len() as u32) + data
}

/// Arguments joined by NUL bytes, each as its UTF-8 bytes.
pub open spec fn join_nul(args: Seq<Seq<u8>>) -> Seq<u8>
    decreases args.len(),
{
    if args.len() == 0 {
        seq![]
    } else if args.len() == 1 {
        args[0]
    } else {
        join_nul(args.drop_last()).push(0u8) + args.last()
    }
}

/// The UTF-8 bytes of each argument.
pub open spec fn arg_bytes(args: Seq<&str>) -> Seq<Seq<u8>> {
    args.map_values(|a: &str| a.spec_bytes())
}

/// The bytes that introduce a `runcommand` request.
pub open spec fn runcommand_prefix() -> Seq<u8> {
    seq![0x72u8, 0x75, 0x6e, 0x63, 0x6f, 0x6d, 0x6d, 0x61, 0x6e, 0x64, 0x0a]
}

/// The message of the error for an oversized payload.
pub open spec fn too_large_message(n: nat) -> Seq<char> {
    "payload too large: "@ + decimal(n) + " bytes"@
}

/// The message of the error raised when input ends inside a frame.
pub open spec fn eof_message() -> Seq<char> {
    "failed to fill whole buffer"@
}

impl Channel {
    /// The channel named by byte `b`.
    pub fn from_byte(b: u8) -> (res: Result<Channel, Error>)
        ensures
            channel_of(b) matches Some(c) ==> res == Ok::<Channel, Error>(c),
            channel_of(b) is None ==> (res matches Err(Error::ProtocolError(m)) && m@
                == unknown_channel_message(b)),
    {
        if b == 0x6f {
            Ok(Channel::Output)
        } else if b == 0x65 {
            Ok(Channel::Error)
        } else if b == 0x72 {
            Ok(Channel::Result)
        } else if b == 0x49 {
            Ok(Channel::InputReq)
        } else if b == 0x4c {
            Ok(Channel::LineInputReq)
        } else if b == 0x64 {
            Ok(Channel::Debug)
        } else {
            let mut m: Vec<char> = Vec::new();
            push_str(&mut m, "unknown channel byte: 0x");
            push_hex_byte(&mut m, b);
            proof {
                reveal_strlit("unknown channel byte: 0x");
            }
            Err(Error::ProtocolError(from_chars(m.as_slice())))
        }
    }

    /// Returns true if this is a channel where the server expects input from the client.
    pub fn is_input_request(&self) -> (res: bool)
        ensures
            res <==> (*self == Channel::InputReq || *self == Channel::LineInputReq),
    {
        match self {
            Channel::InputReq | Channel::LineInputReq => true,
            _ => false,
        }
    }
}

/// A single message frame received from the command server.
#[derive(Debug)]
pub struct ServerMessage {
    pub channel: Channel,
    pub data: Vec<u8>,
}

/// A readable byte buffer with a position, standing for the server's output stream.
pub struct Cursor {
    data: Vec<u8>,
    pos: usize,
}

impl Cursor {
    #[verifier::type_invariant]
    spec fn well_formed(self) -> bool {
        self.pos <= self.data@.len()
    }

    /// All bytes of the buffer.
    pub closed spec fn bytes(self) -> Seq<u8> {
        self.data@
    }

    /// The read position.
    pub closed spec fn pos(self) -> nat {
        self.pos as nat
    }

    /// The bytes not read yet.
    pub open spec fn remaining(self) -> Seq<u8> {
        self.bytes().skip(self.pos() as int)
    }

    /// A cursor at the start of a copy of `data`.
    pub fn new(data: &[u8]) -> (res: Cursor)
        ensures
            res.bytes() == data@,
            res.pos() == 0,
    {
        let mut v: Vec<u8> = Vec::new();
        let mut i: usize = 0;
        while i < data.len()
            invariant
                0 <= i <= data@.len(),
                v@ == data@.take(i as int),
            decreases data.len() - i,
        {
            v.push(data[i]);
            i += 1;
        }
        assert(data@.take(data@.len() as int) =~= data@);
        Cursor { data: v, pos: 0 }
    }

    /// The read position.
    pub fn position(&self) -> (res: usize)
        ensures
            res == self.pos(),
    {
        self.pos
    }

    /// Reads exactly `n` bytes. When fewer remain, fails and moves to the end.
    fn read_exact(&mut self, n: usize) -> (res: Result<Vec<u8>, Error>)
        ensures
            final(self).bytes() == old(self).bytes(),
            n <= old(self).remaining().len() ==> (res matches Ok(v) && v@ == old(
                self,
            ).remaining().take(n as int) && final(self).pos() == old(self).pos() + n),
            n > old(self).remaining().len() ==> (res matches Err(Error::Io(m)) && m@
                == eof_message() && final(self).pos() == old(self).bytes().len()),
    {
        proof {
            use_type_invariant(&*self);
        }
        let avail = self.data.len() - self.pos;
        if n > avail {
            self.pos = self.data.len();
            proof {
                reveal_strlit("failed to fill whole buffer");
            }
            return Err(Error::Io(from_chars(crate::text::to_chars("failed to fill whole buffer").as_slice())));
        }
        let mut v: Vec<u8> = Vec::new();
        let mut i: usize = 0;
        let start = self.pos;
        while i < n
            invariant
                0 <= i <= n,
                start + n <= self.data@.len(),
                self.data@.len() == self.data.len(),
                v@ == self.data@.subrange(start as int, start + i),
            decreases n - i,
        {
            v.push(self.data[start + i]);
            i += 1;
        }
        self.pos = start + n;
        assert(v@ =~= old(self).remaining().take(n as int));
        Ok(v)
    }
}

/// Reads four big-endian bytes as an unsigned integer.
pub fn decode_be_u32(b0: u8, b1: u8, b2: u8, b3: u8) -> (res: u32)
    ensures
        res as nat == be_u32_value(b0, b1, b2, b3),
{
    assert((b0 as nat) * 16777216 <= 255 * 16777216) by (nonlinear_arith)
        requires
            b0 <= 255,
    ;
    assert((b1 as nat) * 65536 <= 255 * 65536) by (nonlinear_arith)
        requires
            b1 <= 255,
    ;
    assert((b2 as nat) * 256 <= 255 * 256) by (nonlinear_arith)
        requires
            b2 <= 255,
    ;
    (b0 as u32) * 16777216 + (b1 as u32) * 65536 + (b2 as u32) * 256 + (b3 as u32)
}

/// Splits `n` into its big-endian bytes.
pub fn encode_be_u32(n: u32) -> (res: [u8; 4])
    ensures
        res@ == be_bytes(n),
{
    let r = [(n / 16777216) as u8, ((n / 65536) % 256) as u8, ((n / 256) % 256) as u8, (n % 256) as u8];
    assert(r@ =~= be_bytes(n));
    r
}

/// Reads one server→client message from the given reader.
///
/// Wire format: 1-byte channel + 4-byte big-endian u32 length + payload.
pub fn read_message(reader: &mut Cursor) -> (res: Result<ServerMessage, Error>)
    ensures
        final(reader).bytes() == old(reader).bytes(),
        ({
            let rest = old(reader).remaining();
            if rest.len() < 5 {
                res matches Err(Error::Io(m)) && m@ == eof_message() && final(reader).pos()
                    == old(reader).bytes().len()
            } else if channel_of(rest[0]) is None {
                res matches Err(Error::ProtocolError(m)) && m@ == unknown_channel_message(rest[0])
                    && final(reader).pos() == old(reader).pos() + 5
            } else if rest.len() < 5 + header_length(rest) {
                res matches Err(Error::Io(m)) && m@ == eof_message() && final(reader).pos()
                    == old(reader).bytes().len()
            } else {
                res matches Ok(msg) && msg.channel == channel_of(rest[0])->Some_0 && msg.data@
                    == rest.subrange(5, 5 + header_length(rest) as int) && final(reader).pos() == old(
                    reader,
                ).pos() + 5 + header_length(rest)
            }
        }),
{
    let ghost rest = reader.remaining();
    let header = read_exact_checked(reader, 5)?;
    let ghost after_header = reader.remaining();
    assert(after_header == rest.skip(5));
    let channel = Channel::from_byte(header[0])?;
    let length = decode_be_u32(header[1], header[2], header[3], header[4]);
    let data = read_exact_checked(reader, length as usize)?;
    assert(data@ =~= rest.subrange(5, 5 + header_length(rest) as int));
    Ok(ServerMessage { channel, data })
}

fn read_exact_checked(reader: &mut Cursor, n: usize) -> (res: Result<Vec<u8>, Error>)
    ensures
        final(reader).bytes() == old(reader).bytes(),
        n <= old(reader).remaining().len() ==> (res matches Ok(v) && v@ == old(
            reader,
        ).remaining().take(n as int) && final(reader).pos() == old(reader).pos() + n
            && final(reader).remaining() == old(reader).remaining().skip(n as int)),
        n > old(reader).remaining().len() ==> (res matches Err(Error::Io(m)) && m@
            == eof_message() && final(reader).pos() == old(reader).bytes().len()),
{
    proof {
        use_type_invariant(&*reader);
    }
    let r = reader.read_exact(n);
    proof {
        use_type_invariant(&*reader);
        if n <= old(reader).remaining().len() {
            assert(reader.remaining() =~= old(reader).remaining().skip(n as int));
        }
    }
    r
}

/// The message of the error for a return code of the wrong size.
pub open spec fn return_code_size_message(n: nat) -> Seq<char> {
    "expected 4-byte return code, got "@ + decimal(n) + " bytes"@
}

/// Writes a length-prefixed payload to the server.
///
/// Wire format: 4-byte big-endian u32 length + payload.
pub fn write_payload(writer: &mut Vec<u8>, data: &[u8]) -> (res: Result<(), Error>)
    ensures
        data@.len() > u32::MAX ==> (res matches Err(Error::ProtocolError(m)) && m@
            == too_large_message(data@.len()) && final(writer)@ == old(writer)@),
        data@.len() <= u32::MAX ==> (res is Ok && final(writer)@ == old(writer)@ + encode_payload(
            data@,
        )),
{
    if data.len() > 0xffff_ffffusize {
        let mut m: Vec<char> = Vec::new();
        push_str(&mut m, "payload too large: ");
        push_decimal(&mut m, data.len() as u64);
        push_str(&mut m, " bytes");
        proof {
            reveal_strlit("payload too large: ");
            reveal_strlit(" bytes");
            assert(m@ =~= too_large_message(data@.len()));
        }
        return Err(Error::ProtocolError(from_chars(m.as_slice())));
    }
    let prefix = encode_be_u32(data.len() as u32);
    let ghost start = writer@;
    let mut i: usize = 0;
    while i < 4
        invariant
            0 <= i <= 4,
            writer@ == start + prefix@.take(i as int),
        decreases 4 - i,
    {
        writer.push(prefix[i]);
        i += 1;
        assert(prefix@.take(i as int) =~= prefix@.take(i - 1).push(prefix@[i - 1]));
    }
    let ghost mid = writer@;
    let mut j: usize = 0;
    while j < data.len()
        invariant
            0 <= j <= data@.len(),
            writer@ == mid + data@.take(j as int),
        decreases data.len() - j,
    {
        writer.push(data[j]);
        j += 1;
        assert(data@.take(j as int) =~= data@.take(j - 1).push(data@[j - 1]));
    }
    assert(prefix@.take(4) =~= prefix@);
    assert(data@.take(data@.len() as int) =~= data@);
    assert(writer@ =~= start + encode_payload(data@));
    Ok(())
}

proof fn lemma_join_nul_push(args: Seq<Seq<u8>>, x: Seq<u8>)
    ensures
        join_nul(args.push(x)) == if args.len() == 0 {
            x
        } else {
            join_nul(args).push(0u8) + x
        },
{
    assert(args.push(x).drop_last() =~= args);
    if args.len() == 0 {
        assert(args.push(x) =~= seq![x]);
    }
}

/// Writes a `runcommand` invocation to the server.
///
/// Sends `"runcommand\n"` followed by a length-prefixed payload of
/// null-separated arguments.
pub fn write_runcommand(writer: &mut Vec<u8>, args: &[&str]) -> (res: Result<(), Error>)
    ensures
        ({
            let payload = join_nul(arg_bytes(args@));
            if payload.len() <= u32::MAX {
                res is Ok && final(writer)@ == old(writer)@ + runcommand_prefix()
                    + encode_payload(payload)
            } else {
                res matches Err(Error::ProtocolError(m)) && m@ == too_large_message(payload.len())
                    && final(writer)@ == old(writer)@ + runcommand_prefix()
            }
        }),
{
    let head: [u8; 11] = [0x72u8, 0x75, 0x6e, 0x63, 0x6f, 0x6d, 0x6d, 0x61, 0x6e, 0x64, 0x0a];
    let ghost start = writer@;
    let mut k: usize = 0;
    while k < 11
        invariant
            0 <= k <= 11,
            head@ == runcommand_prefix(),
            writer@ == start + head@.take(k as int),
        decreases 11 - k,
    {
        writer.push(head[k]);
        k += 1;
        assert(head@.take(k as int) =~= head@.take(k - 1).push(head@[k - 1]));
    }
    assert(head@.take(11) =~= head@);
    let mut payload: Vec<u8> = Vec::new();
    let mut i: usize = 0;
    assert(arg_bytes(args@.take(0)) =~= seq![]);
    while i < args.len()
        invariant
            0 <= i <= args@.len(),
            payload@ == join_nul(arg_bytes(args@.take(i as int))),
        decreases args.len() - i,
    {
        if i > 0 {
            payload.push(0u8);
        }
        let bytes = args[i].as_bytes();
        let ghost before = payload@;
        let mut j: usize = 0;
        while j < bytes.len()
            invariant
                0 <= j <= bytes@.len(),
                payload@ == before + bytes@.take(j as int),
            decreases bytes.len() - j,
        {
            payload.push(bytes[j]);
            j += 1;
            assert(bytes@.take(j as int) =~= bytes@.take(j - 1).push(bytes@[j - 1]));
        }
        assert(bytes@.take(bytes@.len() as int) =~= bytes@);
        proof {
            let prev = arg_bytes(args@.take(i as int));
            assert(arg_bytes(args@.take(i + 1)) =~= prev.push(args@[i as int].spec_bytes()));
            lemma_join_nul_push(prev, args@[i as int].spec_bytes());
        }
        i += 1;
    }
    assert(args@.take(args@.len() as int) =~= args@);
    write_payload(writer, payload.as_slice())
}

/// Reads a 4-byte big-endian return code.
pub fn parse_return_code(data: &[u8]) -> (res: Result<i32, Error>)
    ensures
        data@.len() == 4 ==> res == Ok::<i32, Error>(be_i32_value(data@) as i32),
        data@.len() != 4 ==> (res matches Err(Error::ProtocolError(m)) && m@
            == return_code_size_message(data@.len())),
{
    if data.len() != 4 {
        let mut m: Vec<char> = Vec::new();
        push_str(&mut m, "expected 4-byte return code, got ");
        push_decimal(&mut m, data.len() as u64);
        push_str(&mut m, " bytes");
        proof {
            reveal_strlit("expected 4-byte return code, got ");
            reveal_strlit(" bytes");
            assert(m@ =~= return_code_size_message(data@.len()));
        }
        return Err(Error::ProtocolError(from_chars(m.as_slice())));
    }
    let v = decode_be_u32(data[0], data[1], data[2], data[3]);
    if v < 0x8000_0000u32 {
        Ok(v as i32)
    } else {
        let low = (v - 0x8000_0000u32) as i32;
        Ok(low - 0x4000_0000i32 - 0x4000_0000i32)
    }
}

/// Reading four big-endian bytes back gives the number they were made from.
pub proof fn lemma_be_u32_roundtrip(n: u32)
    ensures
        be_u32_value(be_bytes(n)[0], be_bytes(n)[1], be_bytes(n)[2], be_bytes(n)[3]) == n,
{
    let q0: u32 = n / 16777216;
    let q1: u32 = (n / 65536) % 256;
    let q2: u32 = (n / 256) % 256;
    let q3: u32 = n % 256;
    assert(q0 * 16777216 + q1 * 65536 + q2 * 256 + q3 == n && q0 < 256) by (bit_vector)
        requires
            q0 == n / 16777216,
            q1 == (n / 65536) % 256,
            q2 == (n / 256) % 256,
            q3 == n % 256,
    ;
    assert(be_bytes(n)[0] as nat == q0 as nat);
    assert(be_bytes(n)[1] as nat == q1 as nat);
    assert(be_bytes(n)[2] as nat == q2 as nat);
    assert(be_bytes(n)[3] as nat == q3 as nat);
}

/// Writing the value of four bytes gives those bytes back.
pub proof fn lemma_be_bytes_roundtrip(b0: u8, b1: u8, b2: u8, b3: u8)
    ensures
        be_u32_value(b0, b1, b2, b3) <= u32::MAX,
        be_bytes(be_u32_value(b0, b1, b2, b3) as u32) == seq![b0, b1, b2, b3],
{
    let c0: u32 = b0 as u32;
    let c1: u32 = b1 as u32;
    let c2: u32 = b2 as u32;
    let c3: u32 = b3 as u32;
    assert((c0 as nat) * 16777216 <= 255 * 16777216) by (nonlinear_arith)
        requires
            c0 <= 255,
    ;
    assert((c1 as nat) * 65536 <= 255 * 65536) by (nonlinear_arith)
        requires
            c1 <= 255,
    ;
    assert((c2 as nat) * 256 <= 255 * 256) by (nonlinear_arith)
        requires
            c2 <= 255,
    ;
    let v: u32 = (c0 * 16777216 + c1 * 65536 + c2 * 256 + c3) as u32;
    assert(v / 16777216 == c0 && (v / 65536) % 256 == c1 && (v / 256) % 256 == c2 && v % 256
        == c3) by (bit_vector)
        requires
            c0 < 256,
            c1 < 256,
            c2 < 256,
            c3 < 256,
            v == c0 * 16777216 + c1 * 65536 + c2 * 256 + c3,
    ;
    assert(be_bytes(v) =~= seq![b0, b1, b2, b3]);
}

/// A server frame followed by anything is read back as that frame: the
/// channel and payload that were written, with exactly the rest left unread.
pub proof fn lemma_frame_roundtrip(c: Channel, data: Seq<u8>, rest: Seq<u8>)
    requires
        data.len() <= u32::MAX,
    ensures
        ({
            let w = encode_frame(c, data) + rest;
            &&& w.len() >= 5
            &&& channel_of(w[0]) == Some(c)
            &&& header_length(w) == data.len()
            &&& w.len() >= 5 + header_length(w)
            &&& w.subrange(5, 5 + data.len() as int) == data
            &&& w.skip(5 + data.len() as int) == rest
        }),
{
    let w = encode_frame(c, data) + rest;
    let b = be_bytes(data.len() as u32);
    lemma_be_u32_roundtrip(data.len() as u32);
    assert(w[1] == b[0] && w[2] == b[1] && w[3] == b[2] && w[4] == b[3]);
    assert(w.subrange(5, 5 + data.len() as int) =~= data);
    assert(w.skip(5 + data.len() as int) =~= rest);
}

/// The bytes `i32::to_be_bytes` gives for `x`: those of its two's complement.
pub open spec fn i32_be_bytes(x: i32) -> Seq<u8> {
    be_bytes(if x < 0 { (x + 0x1_0000_0000) as u32 } else { x as u32 })
}

/// A return code written big-endian is read back unchanged.
pub proof fn lemma_return_code_roundtrip(x: i32)
    ensures
        i32_be_bytes(x).len() == 4,
        be_i32_value(i32_be_bytes(x)) == x,
{
    let u: u32 = if x < 0 { (x + 0x1_0000_0000) as u32 } else { x as u32 };
    lemma_be_u32_roundtrip(u);
}

/// Splits bytes at each NUL, as the server splits a `runcommand` payload.
pub open spec fn split_nul(b: Seq<u8>) -> Seq<Seq<u8>>
    decreases b.len(),
{
    if b.len() == 0 {
        seq![seq![]]
    } else {
        let rest = split_nul(b.drop_last());
        if b.last() == 0 {
            rest.push(seq![])
        } else {
            rest.update(rest.len() - 1, rest.last().push(b.last()))
        }
    }
}

proof fn lemma_split_nul_len(b: Seq<u8>)
    ensures
        split_nul(b).len() >= 1,
    decreases b.len(),
{
    if b.len() > 0 {
        lemma_split_nul_len(b.drop_last());
    }
}

proof fn lemma_split_nul_append(a: Seq<u8>, x: Seq<u8>)
    requires
        forall|i: int| 0 <= i < x.len() ==> x[i] != 0,
    ensures
        split_nul(a + x) == split_nul(a).update(
            split_nul(a).len() - 1,
            split_nul(a).last() + x,
        ),
    decreases x.len(),
{
    lemma_split_nul_len(a);
    if x.len() == 0 {
        assert(a + x =~= a);
        assert(split_nul(a).last() + x =~= split_nul(a).last());
        assert(split_nul(a).update(split_nul(a).len() - 1, split_nul(a).last()) =~= split_nul(a));
    } else {
        let y = x.drop_last();
        lemma_split_nul_append(a, y);
        assert((a + x).drop_last() =~= a + y);
        lemma_split_nul_len(a + y);
        let s = split_nul(a);
        assert(s.update(s.len() - 1, s.last() + y).update(s.len() - 1, (s.last() + y).push(x.last()))
            =~= s.update(s.len() - 1, s.last() + x)) by {
            assert((s.last() + y).push(x.last()) =~= s.last() + x);
        }
    }
}

/// Arguments without NUL bytes survive the `runcommand` encoding: splitting
/// the payload at NUL bytes gives back each argument's bytes.
pub proof fn lemma_runcommand_args_roundtrip(args: Seq<Seq<u8>>)
    requires
        args.len() > 0,
        forall|k: int, i: int| 0 <= k < args.len() && 0 <= i < args[k].len() ==> args[k][i] != 0,
    ensures
        split_nul(join_nul(args)) == args,
    decreases args.len(),
{
    let x = args.last();
    assert(forall|i: int| 0 <= i < x.len() ==> x[i] != 0);
    if args.len() == 1 {
        assert(seq![] + x =~= x);
        lemma_split_nul_append(seq![], x);
        assert(split_nul(seq![]) =~= seq![seq![]]);
        assert(seq![seq![]].update(0, Seq::<u8>::empty() + x) =~= args);
    } else {
        let front = args.drop_last();
        lemma_runcommand_args_roundtrip(front);
        let j = join_nul(front).push(0u8);
        assert(j.drop_last() =~= join_nul(front));
        assert(split_nul(j) =~= front.push(seq![]));
        lemma_split_nul_append(j, x);
        assert(front.push(seq![]).update(front.len() as int, Seq::<u8>::empty() + x) =~= args);
    }
}

} // verus!
