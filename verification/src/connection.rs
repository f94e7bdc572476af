//! Decisions of a command-server connection: the hello handshake and the
//! collection of one command's output, message by message.
use vstd::prelude::*;
use vstd::utf8::{decode_utf8, valid_utf8};

use crate::error::Error;
use crate::protocol::{be_i32_value, parse_return_code, return_code_size_message, Channel, ServerMessage};
use crate::text::{
    chars_eq, decode_utf8_lossy, push_all, utf8_lossy_text,
    copy_range, decode_utf8_strict, from_chars, has_prefix, lines, push_str, split_lines, split_whitespace,
    split_words, starts_with, string_views, to_chars, trim, trim_chars, utf8_error_description, views,
};

verus! {

/// Parsed hello message from the command server.
#[derive(Debug)]
pub struct HelloInfo {
    pub capabilities: Vec<String>,
    pub encoding: String,
}

/// Outcome of running a single command.
#[derive(Debug)]
pub struct CommandOutput {
    pub stdout: Vec<u8>,
    pub stderr: Vec<u8>,
    pub return_code: i32,
}

/// The hello line key for the capability list.
pub open spec fn capabilities_key() -> Seq<char> {
    "capabilities: "@
}

/// The hello line key for the encoding.
pub open spec fn encoding_key() -> Seq<char> {
    "encoding: "@
}

/// The encoding assumed when the hello names none.
pub open spec fn default_encoding() -> Seq<char> {
    "UTF-8"@
}

/// The capabilities and encoding that the hello lines announce: the last
/// `capabilities: ` line split at whitespace, and the last `encoding: `
/// line trimmed.
pub open spec fn hello_fields(ls: Seq<Seq<char>>) -> (Seq<Seq<char>>, Seq<char>)
    decreases ls.len(),
{
    if ls.len() == 0 {
        (seq![], default_encoding())
    } else {
        let (caps, enc) = hello_fields(ls.drop_last());
        let l = ls.last();
        if has_prefix(l, capabilities_key()) {
            (split_whitespace(l.skip(capabilities_key().len() as int)), enc)
        } else if has_prefix(l, encoding_key()) {
            (caps, trim(l.skip(encoding_key().len() as int)))
        } else {
            (caps, enc)
        }
    }
}

/// The message of the error for a hello that is not UTF-8.
pub open spec fn hello_utf8_message(bytes: Seq<u8>) -> Seq<char> {
    "hello message is not UTF-8: "@ + utf8_error_description(bytes)
}

/// The message of the error for a hello without capabilities.
pub open spec fn missing_capabilities_message() -> Seq<char> {
    "hello message missing capabilities"@
}

/// The message of the error for a hello that does not offer `runcommand`.
pub open spec fn no_runcommand_message() -> Seq<char> {
    "server does not support 'runcommand' capability"@
}

/// The name `Debug` gives a channel.
pub open spec fn channel_name(c: Channel) -> Seq<char> {
    match c {
        Channel::Output => "Output"@,
        Channel::Error => "Error"@,
        Channel::Result => "Result"@,
        Channel::InputReq => "InputReq"@,
        Channel::LineInputReq => "LineInputReq"@,
        Channel::Debug => "Debug"@,
    }
}

/// The message of the error for a hello on another channel than output.
pub open spec fn wrong_hello_channel_message(c: Channel) -> Seq<char> {
    "expected hello on 'o' channel, got "@ + channel_name(c)
}

/// Parse the hello message payload into structured info.
///
/// The hello message is a series of `key: value` lines. Example:
/// ```text
/// capabilities: runcommand getencoding
/// encoding: UTF-8
/// ```
pub fn parse_hello(data: &[u8]) -> (res: Result<HelloInfo, Error>)
    ensures
        !valid_utf8(data@) ==> (res matches Err(Error::ProtocolError(m)) && m@
            == hello_utf8_message(data@)),
        valid_utf8(data@) ==> ({
            let (caps, enc) = hello_fields(lines(decode_utf8(data@)));
            if caps.len() == 0 {
                res matches Err(Error::ProtocolError(m)) && m@ == missing_capabilities_message()
            } else {
                res matches Ok(info) && string_views(info.capabilities@) == caps
                    && info.encoding@ == enc
            }
        }),
{
    let text = match decode_utf8_strict(data) {
        Ok(t) => t,
        Err(e) => {
            let mut m: Vec<char> = Vec::new();
            push_str(&mut m, "hello message is not UTF-8: ");
            push_str(&mut m, e.as_str());
            proof {
                reveal_strlit("hello message is not UTF-8: ");
            }
            return Err(Error::ProtocolError(from_chars(m.as_slice())));
        },
    };
    let chars = to_chars(text.as_str());
    let ls = split_lines(chars.as_slice());
    let cap_key = to_chars("capabilities: ");
    let enc_key = to_chars("encoding: ");
    proof {
        reveal_strlit("capabilities: ");
        reveal_strlit("encoding: ");
        reveal_strlit("UTF-8");
    }
    let mut capabilities: Vec<Vec<char>> = Vec::new();
    let mut encoding: Vec<char> = to_chars("UTF-8");
    let mut i: usize = 0;
    assert(views(ls@).take(0) =~= seq![]);
    assert(views(capabilities@) =~= seq![]);
    while i < ls.len()
        invariant
            0 <= i <= ls@.len(),
            cap_key@ == capabilities_key(),
            enc_key@ == encoding_key(),
            views(ls@) == lines(decode_utf8(data@)),
            (views(capabilities@), encoding@) == hello_fields(views(ls@).take(i as int)),
        decreases ls.len() - i,
    {
        let line = &ls[i];
        proof {
            assert(views(ls@).take(i + 1).drop_last() =~= views(ls@).take(i as int));
            assert(views(ls@).take(i + 1).last() == line@);
        }
        if starts_with(line.as_slice(), cap_key.as_slice()) {
            let rest = copy_range(line.as_slice(), cap_key.len(), line.len());
            capabilities = split_words(rest.as_slice());
            assert(rest@ =~= line@.skip(capabilities_key().len() as int));
        } else if starts_with(line.as_slice(), enc_key.as_slice()) {
            let rest = copy_range(line.as_slice(), enc_key.len(), line.len());
            encoding = trim_chars(rest.as_slice());
            assert(rest@ =~= line@.skip(encoding_key().len() as int));
        }
        i += 1;
    }
    assert(views(ls@).take(ls@.len() as int) =~= views(ls@));
    if capabilities.len() == 0 {
        proof {
            reveal_strlit("hello message missing capabilities");
        }
        return Err(Error::ProtocolError(from_chars(to_chars("hello message missing capabilities").as_slice())));
    }
    let mut caps: Vec<String> = Vec::new();
    let mut k: usize = 0;
    while k < capabilities.len()
        invariant
            0 <= k <= capabilities@.len(),
            string_views(caps@) == views(capabilities@).take(k as int),
        decreases capabilities.len() - k,
    {
        let s = from_chars(capabilities[k].as_slice());
        let ghost before = caps@;
        caps.push(s);
        proof {
            assert(string_views(caps@) =~= string_views(before).push(s@));
            assert(views(capabilities@).take(k + 1) =~= views(capabilities@).take(k as int).push(
                capabilities@[k as int]@,
            ));
        }
        k += 1;
    }
    assert(views(capabilities@).take(capabilities@.len() as int) =~= views(capabilities@));
    Ok(HelloInfo { capabilities: caps, encoding: from_chars(encoding.as_slice()) })
}

fn channel_debug_name(c: Channel) -> (res: Vec<char>)
    ensures
        res@ == channel_name(c),
{
    proof {
        reveal_strlit("Output");
        reveal_strlit("Error");
        reveal_strlit("Result");
        reveal_strlit("InputReq");
        reveal_strlit("LineInputReq");
        reveal_strlit("Debug");
    }
    match c {
        Channel::Output => to_chars("Output"),
        Channel::Error => to_chars("Error"),
        Channel::Result => to_chars("Result"),
        Channel::InputReq => to_chars("InputReq"),
        Channel::LineInputReq => to_chars("LineInputReq"),
        Channel::Debug => to_chars("Debug"),
    }
}

/// Whether some capability is `runcommand`.
pub open spec fn offers_runcommand(caps: Seq<Seq<char>>) -> bool {
    exists|i: int| 0 <= i < caps.len() && caps[i] == "runcommand"@
}

/// Checks the first message of a freshly started server: it must come on the
/// output channel, parse as a hello, and offer `runcommand`.
pub fn accept_hello(msg: &ServerMessage) -> (res: Result<HelloInfo, Error>)
    ensures
        msg.channel != Channel::Output ==> (res matches Err(Error::ProtocolError(m)) && m@
            == wrong_hello_channel_message(msg.channel)),
        msg.channel == Channel::Output && !valid_utf8(msg.data@) ==> (res matches Err(
            Error::ProtocolError(m),
        ) && m@ == hello_utf8_message(msg.data@)),
        msg.channel == Channel::Output && valid_utf8(msg.data@) ==> ({
            let (caps, enc) = hello_fields(lines(decode_utf8(msg.data@)));
            if caps.len() == 0 {
                res matches Err(Error::ProtocolError(m)) && m@ == missing_capabilities_message()
            } else if !offers_runcommand(caps) {
                res matches Err(Error::ProtocolError(m)) && m@ == no_runcommand_message()
            } else {
                res matches Ok(info) && string_views(info.capabilities@) == caps
                    && info.encoding@ == enc
            }
        }),
{
    if msg.channel != Channel::Output {
        let mut m: Vec<char> = Vec::new();
        push_str(&mut m, "expected hello on 'o' channel, got ");
        let name = channel_debug_name(msg.channel);
        push_all(&mut m, name.as_slice());
        proof {
            reveal_strlit("expected hello on 'o' channel, got ");
        }
        return Err(Error::ProtocolError(from_chars(m.as_slice())));
    }
    let hello = parse_hello(msg.data.as_slice())?;
    let wanted = to_chars("runcommand");
    proof {
        reveal_strlit("runcommand");
    }
    let mut i: usize = 0;
    let mut found = false;
    while i < hello.capabilities.len()
        invariant
            0 <= i <= hello.capabilities@.len(),
            wanted@ == "runcommand"@,
            found <==> exists|j: int| 0 <= j < i && hello.capabilities@[j]@ == "runcommand"@,
        decreases hello.capabilities.len() - i,
    {
        let cap = to_chars(hello.capabilities[i].as_str());
        if chars_eq(cap.as_slice(), wanted.as_slice()) {
            found = true;
        }
        i += 1;
    }
    proof {
        let caps = string_views(hello.capabilities@);
        if found {
            let j = choose|j: int| 0 <= j < hello.capabilities@.len() && hello.capabilities@[j]@ == "runcommand"@;
            assert(caps[j] == "runcommand"@);
        } else {
            assert forall|j: int| 0 <= j < caps.len() implies caps[j] != "runcommand"@ by {
                assert(caps[j] == hello.capabilities@[j]@);
            }
        }
    }
    if !found {
        proof {
            reveal_strlit("server does not support 'runcommand' capability");
        }
        return Err(Error::ProtocolError(from_chars(to_chars("server does not support 'runcommand' capability").as_slice())));
    }
    Ok(hello)
}

/// The output gathered so far while a command runs.
pub struct CommandCollector {
    pub stdout: Vec<u8>,
    pub stderr: Vec<u8>,
}

/// What to do after one message of a running command.
pub enum CollectorStep {
    /// Keep reading messages.
    Continue(CommandCollector),
    /// Answer the input request with an empty payload, then keep reading.
    SendEmptyInput(CommandCollector),
    /// The command finished with this output.
    Finished(CommandOutput),
    /// The result message was malformed.
    Failed(Error),
}

/// The output and error text gathered after one more message.
pub open spec fn after_message(acc: (Seq<u8>, Seq<u8>), msg: ServerMessage) -> (Seq<u8>, Seq<u8>) {
    match msg.channel {
        Channel::Output => (acc.0 + msg.data@, acc.1),
        Channel::Error => (acc.0, acc.1 + msg.data@),
        _ => acc,
    }
}

/// The output and error text gathered from `msgs`, one after the other,
/// starting from `acc`.
pub open spec fn gathered(acc: (Seq<u8>, Seq<u8>), msgs: Seq<ServerMessage>) -> (Seq<u8>, Seq<u8>)
    decreases msgs.len(),
{
    if msgs.len() == 0 {
        acc
    } else {
        gathered(after_message(acc, msgs[0]), msgs.drop_first())
    }
}

/// Everything `msgs` carry on `channel`, in order.
pub open spec fn channel_payloads(msgs: Seq<ServerMessage>, channel: Channel) -> Seq<u8>
    decreases msgs.len(),
{
    if msgs.len() == 0 {
        seq![]
    } else if msgs[0].channel == channel {
        msgs[0].data@ + channel_payloads(msgs.drop_first(), channel)
    } else {
        channel_payloads(msgs.drop_first(), channel)
    }
}

/// What a command's frames come to, starting from the output `acc`
/// gathered so far: at the first result frame, the standard output, the
/// standard error and the return code, or the length of a result payload
/// that is not four bytes; nothing when no result frame comes.
pub open spec fn frames_outcome(acc: (Seq<u8>, Seq<u8>), msgs: Seq<ServerMessage>) -> Option<
    Result<(Seq<u8>, Seq<u8>, int), nat>,
>
    decreases msgs.len(),
{
    if msgs.len() == 0 {
        None
    } else if msgs[0].channel == Channel::Result {
        if msgs[0].data@.len() == 4 {
            Some(Ok((acc.0, acc.1, be_i32_value(msgs[0].data@))))
        } else {
            Some(Err(msgs[0].data@.len()))
        }
    } else {
        frames_outcome(after_message(acc, msgs[0]), msgs.drop_first())
    }
}

/// A whole command: when frame `k` is the first result frame and carries
/// four bytes, the command's standard output is everything the frames
/// before it sent on the output channel, its standard error everything they
/// sent on the error channel, in order, and its return code the big-endian
/// value of the result payload; debug frames add nothing, and a nonzero
/// return code is still an outcome, not an error.
pub proof fn lemma_command_outcome(msgs: Seq<ServerMessage>, k: int)
    requires
        0 <= k < msgs.len(),
        msgs[k].channel == Channel::Result,
        msgs[k].data@.len() == 4,
        forall|j: int| 0 <= j < k ==> msgs[j].channel != Channel::Result,
    ensures
        frames_outcome((seq![], seq![]), msgs) == Some(
            Ok::<(Seq<u8>, Seq<u8>, int), nat>(
                (
                    channel_payloads(msgs.take(k), Channel::Output),
                    channel_payloads(msgs.take(k), Channel::Error),
                    be_i32_value(msgs[k].data@),
                ),
            ),
        ),
{
    lemma_outcome_from((seq![], seq![]), msgs, k);
    assert(Seq::<u8>::empty() + channel_payloads(msgs.take(k), Channel::Output) =~= channel_payloads(
        msgs.take(k),
        Channel::Output,
    ));
    assert(Seq::<u8>::empty() + channel_payloads(msgs.take(k), Channel::Error) =~= channel_payloads(
        msgs.take(k),
        Channel::Error,
    ));
}

proof fn lemma_outcome_from(acc: (Seq<u8>, Seq<u8>), msgs: Seq<ServerMessage>, k: int)
    requires
        0 <= k < msgs.len(),
        msgs[k].channel == Channel::Result,
        msgs[k].data@.len() == 4,
        forall|j: int| 0 <= j < k ==> msgs[j].channel != Channel::Result,
    ensures
        frames_outcome(acc, msgs) == Some(
            Ok::<(Seq<u8>, Seq<u8>, int), nat>(
                (
                    acc.0 + channel_payloads(msgs.take(k), Channel::Output),
                    acc.1 + channel_payloads(msgs.take(k), Channel::Error),
                    be_i32_value(msgs[k].data@),
                ),
            ),
        ),
    decreases k,
{
    if k == 0 {
        assert(msgs.take(0) =~= Seq::<ServerMessage>::empty());
        assert(acc.0 + channel_payloads(msgs.take(0), Channel::Output) =~= acc.0);
        assert(acc.1 + channel_payloads(msgs.take(0), Channel::Error) =~= acc.1);
    } else {
        let rest = msgs.drop_first();
        assert forall|j: int| 0 <= j < k - 1 implies rest[j].channel != Channel::Result by {
            assert(rest[j] == msgs[j + 1]);
        }
        assert(rest[k - 1] == msgs[k]);
        let next = after_message(acc, msgs[0]);
        lemma_outcome_from(next, rest, k - 1);
        assert(msgs.take(k).drop_first() =~= rest.take(k - 1));
        assert(msgs.take(k)[0] == msgs[0]);
        assert(next.0 + channel_payloads(rest.take(k - 1), Channel::Output) =~= acc.0
            + channel_payloads(msgs.take(k), Channel::Output));
        assert(next.1 + channel_payloads(rest.take(k - 1), Channel::Error) =~= acc.1
            + channel_payloads(msgs.take(k), Channel::Error));
    }
}

/// What a collector holds after a message, when the command goes on.
pub open spec fn collected(step: CollectorStep) -> Option<(Seq<u8>, Seq<u8>)> {
    match step {
        CollectorStep::Continue(c) => Some((c.stdout@, c.stderr@)),
        CollectorStep::SendEmptyInput(c) => Some((c.stdout@, c.stderr@)),
        _ => None,
    }
}

/// A command's standard output is everything the server sent on the
/// output channel, and its standard error everything it sent on the error
/// channel, each in the order sent; other messages add nothing.
pub proof fn lemma_gathered_is_payloads(acc: (Seq<u8>, Seq<u8>), msgs: Seq<ServerMessage>)
    ensures
        gathered(acc, msgs) == (
            acc.0 + channel_payloads(msgs, Channel::Output),
            acc.1 + channel_payloads(msgs, Channel::Error),
        ),
    decreases msgs.len(),
{
    if msgs.len() == 0 {
        assert(acc.0 + channel_payloads(msgs, Channel::Output) =~= acc.0);
        assert(acc.1 + channel_payloads(msgs, Channel::Error) =~= acc.1);
    } else {
        let next = after_message(acc, msgs[0]);
        lemma_gathered_is_payloads(next, msgs.drop_first());
        let rest = msgs.drop_first();
        assert(next.0 + channel_payloads(rest, Channel::Output) =~= acc.0 + channel_payloads(
            msgs,
            Channel::Output,
        ));
        assert(next.1 + channel_payloads(rest, Channel::Error) =~= acc.1 + channel_payloads(
            msgs,
            Channel::Error,
        ));
    }
}

impl CommandCollector {
    /// Nothing collected yet.
    pub fn new() -> (res: CommandCollector)
        ensures
            res.stdout@ == Seq::<u8>::empty(),
            res.stderr@ == Seq::<u8>::empty(),
    {
        CommandCollector { stdout: Vec::new(), stderr: Vec::new() }
    }

    /// Takes in one message from the server. Output and error payloads are
    /// appended; debug messages are ignored; an input request is declined
    /// with an empty payload; the result message ends the command with its
    /// return code.
    pub fn handle(self, msg: ServerMessage) -> (res: CollectorStep)
        ensures
            msg.channel == Channel::Output ==> (res matches CollectorStep::Continue(c) && c.stdout@
                == self.stdout@ + msg.data@ && c.stderr@ == self.stderr@),
            msg.channel == Channel::Error ==> (res matches CollectorStep::Continue(c) && c.stdout@
                == self.stdout@ && c.stderr@ == self.stderr@ + msg.data@),
            msg.channel == Channel::Debug ==> (res matches CollectorStep::Continue(c) && c.stdout@
                == self.stdout@ && c.stderr@ == self.stderr@),
            (msg.channel == Channel::InputReq || msg.channel == Channel::LineInputReq) ==> (
            res matches CollectorStep::SendEmptyInput(c) && c.stdout@ == self.stdout@
                && c.stderr@ == self.stderr@),
            msg.channel != Channel::Result ==> collected(res) == Some(
                after_message((self.stdout@, self.stderr@), msg),
            ),
            msg.channel == Channel::Result && msg.data@.len() == 4 ==> (
            res matches CollectorStep::Finished(o) && o.stdout@ == self.stdout@ && o.stderr@
                == self.stderr@ && o.return_code == be_i32_value(msg.data@)),
            msg.channel == Channel::Result && msg.data@.len() != 4 ==> (
            res matches CollectorStep::Failed(Error::ProtocolError(m)) && m@
                == return_code_size_message(msg.data@.len())),
    {
        let mut this = self;
        match msg.channel {
            Channel::Output => {
                append_bytes(&mut this.stdout, msg.data.as_slice());
                CollectorStep::Continue(this)
            },
            Channel::Error => {
                append_bytes(&mut this.stderr, msg.data.as_slice());
                CollectorStep::Continue(this)
            },
            Channel::Result => {
                match parse_return_code(msg.data.as_slice()) {
                    Ok(code) => CollectorStep::Finished(
                        CommandOutput { stdout: this.stdout, stderr: this.stderr, return_code: code },
                    ),
                    Err(e) => CollectorStep::Failed(e),
                }
            },
            Channel::Debug => CollectorStep::Continue(this),
            Channel::InputReq | Channel::LineInputReq => CollectorStep::SendEmptyInput(this),
        }
    }
}

/// Appends `data` to `out`.
pub fn append_bytes(out: &mut Vec<u8>, data: &[u8])
    ensures
        final(out)@ == old(out)@ + data@,
{
    let mut i: usize = 0;
    while i < data.len()
        invariant
            0 <= i <= data@.len(),
            out@ == old(out)@ + data@.take(i as int),
        decreases data.len() - i,
    {
        out.push(data[i]);
        i += 1;
        assert(data@.take(i as int) =~= data@.take(i - 1).push(data@[i - 1]));
    }
    assert(data@.take(data@.len() as int) =~= data@);
}

impl CommandOutput {
    /// The standard output as text, or the failure when the command exited
    /// with a nonzero code.
    pub fn into_string(self) -> (res: Result<String, Error>)
        ensures
            self.return_code != 0 ==> (res matches Err(Error::CommandFailed { code, stderr })
                && code == self.return_code && stderr@ == utf8_lossy_text(self.stderr@)),
            self.return_code == 0 ==> (res matches Ok(s) && s@ == utf8_lossy_text(self.stdout@)),
    {
        if self.return_code != 0 {
            return Err(
                Error::CommandFailed {
                    code: self.return_code,
                    stderr: decode_utf8_lossy(self.stderr.as_slice()),
                },
            );
        }
        Ok(decode_utf8_lossy(self.stdout.as_slice()))
    }
}

} // verus!
