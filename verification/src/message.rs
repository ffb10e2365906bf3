//! Messages: one rendered log line each, held inline in at most
//! [`MAX_LINE_LEN`](crate::config::MAX_LINE_LEN) bytes.

use vstd::prelude::*;
use vstd::string::StringSliceAdditionalSpecFns;
use crate::buffer::{
    buffer_as_str, buffer_new, buffer_push, buffer_push_str, fits, lemma_ascii_char_bytes, put,
    text_bytes,
};
use crate::config::{MAX_LINE_LEN, UPTIME_WIDTH};
use crate::decimal::{
    decimal_digits, lemma_decimal_digits_shape, lemma_decimal_digits_u64, right_aligned, spaces,
};

verus! {

/// How serious a message is. The order `Debug < Info < Warn < Error` is for
/// display only: nothing is filtered by it.
#[derive(Clone, Copy, Debug, PartialEq, Eq, Structural)]
pub enum Severity {
    Debug,
    Info,
    Warn,
    Error,
}

impl Severity {
    /// The level's label as it appears in a line: five bytes, padded with a
    /// space where the word is shorter.
    pub open spec fn label_bytes(self) -> Seq<u8> {
        match self {
            Severity::Debug => seq![68u8, 69, 66, 85, 71],
            Severity::Info => seq![73u8, 78, 70, 79, 32],
            Severity::Warn => seq![87u8, 65, 82, 78, 32],
            Severity::Error => seq![69u8, 82, 82, 79, 82],
        }
    }

    /// Position of the level in the display order.
    pub open spec fn rank_spec(self) -> u8 {
        match self {
            Severity::Debug => 0,
            Severity::Info => 1,
            Severity::Warn => 2,
            Severity::Error => 3,
        }
    }

    /// The label of the level: `DEBUG`, `INFO `, `WARN ` or `ERROR`.
    pub fn label(self) -> (s: &'static str)
        ensures
            s.spec_bytes() == self.label_bytes(),
    {
        broadcast use vstd::string::is_ascii_spec_bytes;
        proof {
            reveal_strlit("DEBUG");
            reveal_strlit("INFO ");
            reveal_strlit("WARN ");
            reveal_strlit("ERROR");
        }
        let s = match self {
            Severity::Debug => "DEBUG",
            Severity::Info => "INFO ",
            Severity::Warn => "WARN ",
            Severity::Error => "ERROR",
        };
        assert(vstd::string::is_ascii(s));
        assert(s.spec_bytes() =~= self.label_bytes());
        s
    }

    /// Position of the level in the display order, from 0 for `Debug` to 3
    /// for `Error`.
    #[verifier::when_used_as_spec(rank_spec)]
    pub fn rank(self) -> (r: u8)
        ensures
            r == self.rank_spec(),
    {
        match self {
            Severity::Debug => 0,
            Severity::Info => 1,
            Severity::Warn => 2,
            Severity::Error => 3,
        }
    }
}

/// The opening of a line: `[`, the uptime right-aligned to eight places,
/// then `ms] [`.
pub open spec fn line_head(uptime_ms: u64) -> Seq<u8> {
    seq![91u8] + right_aligned(decimal_digits(uptime_ms as nat), UPTIME_WIDTH as nat) + seq![
        109u8,
        115,
        93,
        32,
        91,
    ]
}

/// What stands between tag and body: `] [`, the level's label, then `] `.
pub open spec fn level_field(level: Severity) -> Seq<u8> {
    seq![93u8, 32, 91] + level.label_bytes() + seq![93u8, 32]
}

/// The line terminator, carriage return and line feed.
pub open spec fn line_end() -> Seq<u8> {
    seq![13u8, 10]
}

/// The complete line, whatever its length:
/// `[<uptime>ms] [<tag>] [<LEVEL>] <body>\r\n`.
pub open spec fn rendered_line(uptime_ms: u64, tag: Seq<u8>, level: Severity, body: Seq<u8>) -> Seq<u8> {
    line_head(uptime_ms) + tag + level_field(level) + body + line_end()
}

/// What the buffer holds once the part of a line before the body has been
/// written. The parts go in one after the other, each whole or not at all,
/// and the first one that does not fit ends the writing of this part.
pub open spec fn line_prefix(uptime_ms: u64, tag: Seq<u8>, level: Severity) -> Seq<u8> {
    if fits(line_head(uptime_ms), tag) {
        put(line_head(uptime_ms) + tag, level_field(level))
    } else {
        line_head(uptime_ms)
    }
}

/// The text of the message made for a line: the part before the body, then
/// the body if all of it still fits, then the terminator if it still fits.
pub open spec fn line_text(uptime_ms: u64, tag: Seq<u8>, level: Severity, body: Seq<u8>) -> Seq<u8> {
    put(put(line_prefix(uptime_ms, tag, level), body), line_end())
}

/// A text made of a label, the decimal digits of a number and a closing
/// piece, each appended whole or not at all.
pub open spec fn labelled_text(label: Seq<u8>, n: nat, closing: Seq<u8>) -> Seq<u8> {
    put(put(put(Seq::empty(), label), decimal_digits(n)), closing)
}

/// One rendered line of text. A message never holds more than
/// [`MAX_LINE_LEN`] bytes and
/// cannot be changed once it is made; it is moved, not copied, into the
/// queue.
pub struct Message {
    text: heapless::String<256>,
}

impl View for Message {
    type V = Seq<u8>;

    closed spec fn view(&self) -> Seq<u8> {
        text_bytes(self.text)
    }
}

impl Message {
    #[verifier::type_invariant]
    closed spec fn bounded(self) -> bool {
        text_bytes(self.text).len() <= MAX_LINE_LEN
    }

    /// A message without text.
    pub fn new() -> (m: Message)
        ensures
            m@ == Seq::<u8>::empty(),
    {
        Message { text: buffer_new() }
    }

    /// The message with `piece` appended; unchanged if the piece does not
    /// fit whole.
    pub fn with_text(self, piece: &str) -> (m: Message)
        ensures
            m@ == put(self@, piece.spec_bytes()),
    {
        proof {
            use_type_invariant(&self);
        }
        let mut text = self.text;
        let _ = buffer_push_str(&mut text, piece);
        Message { text }
    }

    /// The message with the decimal digits of `n` appended; unchanged if
    /// they do not all fit.
    pub fn with_decimal(self, n: u64) -> (m: Message)
        ensures
            m@ == put(self@, decimal_digits(n as nat)),
    {
        proof {
            use_type_invariant(&self);
        }
        let digits = decimal_text(n, 0);
        let mut text = self.text;
        let _ = buffer_push_str(&mut text, buffer_as_str(&digits));
        Message { text }
    }

    /// A message made of `label`, the decimal digits of `n` and `closing`:
    /// the usual shape of a body that reports one number.
    pub fn labelled(label: &str, n: u64, closing: &str) -> (m: Message)
        ensures
            m@ == labelled_text(label.spec_bytes(), n as nat, closing.spec_bytes()),
    {
        Message::new().with_text(label).with_decimal(n).with_text(closing)
    }

    /// Renders one line: `[<uptime>ms] [<tag>] [<LEVEL>] <body>\r\n`, cut to the
    /// buffer by the rule of [`line_text`].
    pub fn format(uptime_ms: u64, tag: &str, level: Severity, body: &str) -> (m: Message)
        ensures
            m@ == line_text(uptime_ms, tag.spec_bytes(), level, body.spec_bytes()),
            m@.len() <= MAX_LINE_LEN,
    {
        broadcast use vstd::string::is_ascii_spec_bytes;
        let mut text = buffer_new();
        let stamp = decimal_text(uptime_ms, UPTIME_WIDTH);
        proof {
            lemma_decimal_digits_u64(uptime_ms);
            lemma_ascii_char_bytes(91);
            reveal_strlit("ms] [");
            assert(vstd::string::is_ascii("ms] ["));
            assert("ms] [".spec_bytes() =~= seq![109u8, 115, 93, 32, 91]);
        }
        let _ = buffer_push(&mut text, '[');
        let _ = buffer_push_str(&mut text, buffer_as_str(&stamp));
        let _ = buffer_push_str(&mut text, "ms] [");
        assert(text_bytes(text) =~= line_head(uptime_ms));
        if buffer_push_str(&mut text, tag) {
            let _ = buffer_push_str(&mut text, level_literal(level));
        }
        assert(text_bytes(text) == line_prefix(uptime_ms, tag.spec_bytes(), level));
        let _ = buffer_push_str(&mut text, body);
        proof {
            reveal_strlit("\r\n");
            assert(vstd::string::is_ascii("\r\n"));
            assert("\r\n".spec_bytes() =~= line_end());
        }
        let _ = buffer_push_str(&mut text, "\r\n");
        Message { text }
    }

    /// The text as a string slice.
    pub fn as_str(&self) -> (s: &str)
        ensures
            s.spec_bytes() == self@,
    {
        buffer_as_str(&self.text)
    }

    /// The text as bytes.
    pub fn as_bytes(&self) -> (b: &[u8])
        ensures
            b@ == self@,
    {
        buffer_as_str(&self.text).as_bytes()
    }

    /// Number of bytes of text.
    pub fn len(&self) -> (n: usize)
        ensures
            n == self@.len(),
            n <= MAX_LINE_LEN,
    {
        proof {
            use_type_invariant(self);
        }
        buffer_as_str(&self.text).len()
    }

    /// Whether the message holds no text.
    pub fn is_empty(&self) -> (b: bool)
        ensures
            b == (self@.len() == 0),
    {
        self.len() == 0
    }

    /// Gives up the buffer, for storage in a queue slot.
    pub(crate) fn into_buffer(self) -> (text: heapless::String<256>)
        ensures
            text_bytes(text) == self@,
            text_bytes(text).len() <= MAX_LINE_LEN,
    {
        proof {
            use_type_invariant(&self);
        }
        self.text
    }

    /// Makes a message of a buffer taken out of a queue slot.
    pub(crate) fn from_buffer(text: heapless::String<256>) -> (m: Message)
        requires
            text_bytes(text).len() <= MAX_LINE_LEN,
        ensures
            m@ == text_bytes(text),
    {
        Message { text }
    }
}

/// The literal written between tag and body for each level.
fn level_literal(level: Severity) -> (s: &'static str)
    ensures
        s.spec_bytes() == level_field(level),
{
    broadcast use vstd::string::is_ascii_spec_bytes;
    proof {
        reveal_strlit("] [DEBUG] ");
        reveal_strlit("] [INFO ] ");
        reveal_strlit("] [WARN ] ");
        reveal_strlit("] [ERROR] ");
    }
    let s = match level {
        Severity::Debug => "] [DEBUG] ",
        Severity::Info => "] [INFO ] ",
        Severity::Warn => "] [WARN ] ",
        Severity::Error => "] [ERROR] ",
    };
    assert(vstd::string::is_ascii(s));
    assert(s.spec_bytes() =~= level_field(level));
    s
}

/// The decimal digits of `n` in a buffer of their own, right-aligned to
/// `width` places.
fn decimal_text(n: u64, width: usize) -> (text: heapless::String<256>)
    requires
        width <= UPTIME_WIDTH,
    ensures
        text_bytes(text) == right_aligned(decimal_digits(n as nat), width as nat),
{
    // Digits from the least significant up.
    let mut low_first: Vec<u8> = Vec::new();
    let mut rest: u64 = n;
    let ghost mut tail: Seq<u8> = Seq::empty();
    while rest >= 10
        invariant
            decimal_digits(n as nat) == decimal_digits(rest as nat) + tail,
            tail.len() == low_first.len(),
            forall|i: int| 0 <= i < tail.len() ==> tail[i] == low_first[tail.len() - 1 - i],
        decreases rest,
    {
        let digit: u8 = 48 + (rest % 10) as u8;
        proof {
            let ghost next = seq![digit] + tail;
            assert(decimal_digits(rest as nat) == decimal_digits((rest / 10) as nat).push(digit));
            assert(decimal_digits((rest / 10) as nat).push(digit) + tail =~= decimal_digits(
                (rest / 10) as nat,
            ) + next);
            tail = next;
        }
        low_first.push(digit);
        rest = rest / 10;
    }
    let digit: u8 = 48 + rest as u8;
    proof {
        let ghost next = seq![digit] + tail;
        assert(decimal_digits(rest as nat) + tail =~= next);
        tail = next;
        lemma_decimal_digits_u64(n);
        lemma_decimal_digits_shape(n as nat);
    }
    low_first.push(digit);
    assert(tail == decimal_digits(n as nat));

    let count: usize = low_first.len();
    let mut text = buffer_new();
    let mut pad: usize = 0;
    while pad + count < width
        invariant
            count == tail.len(),
            count <= 20,
            width <= 8,
            pad + count <= width || pad == 0,
            text_bytes(text) == spaces(pad as nat),
        decreases width - pad,
    {
        proof {
            lemma_ascii_char_bytes(32);
            assert(spaces(pad as nat) + seq![32u8] =~= spaces((pad + 1) as nat));
        }
        let _ = buffer_push(&mut text, ' ');
        pad = pad + 1;
    }
    assert(text_bytes(text) + tail.take(0) =~= right_aligned(tail, width as nat).take(pad as int));
    let mut done: usize = 0;
    while done < count
        invariant
            count == tail.len(),
            count == low_first.len(),
            count <= 20,
            pad <= 8,
            done <= count,
            forall|i: int| 0 <= i < tail.len() ==> tail[i] == low_first[tail.len() - 1 - i],
            forall|i: int| 0 <= i < tail.len() ==> 48 <= #[trigger] tail[i] <= 57,
            text_bytes(text) == spaces(pad as nat) + tail.take(done as int),
        decreases count - done,
    {
        let digit: u8 = low_first[count - 1 - done];
        proof {
            assert(digit == tail[done as int]);
            lemma_ascii_char_bytes(digit);
            assert(spaces(pad as nat) + tail.take(done as int) + seq![digit] =~= spaces(pad as nat)
                + tail.take(done + 1));
        }
        let _ = buffer_push(&mut text, digit as char);
        done = done + 1;
    }
    assert(tail.take(count as int) =~= tail);
    text
}

/// The opening of a line is between 14 and 26 bytes long, so it
/// always fits.
pub proof fn lemma_line_head_len(uptime_ms: u64)
    ensures
        14 <= line_head(uptime_ms).len() <= 26,
{
    lemma_decimal_digits_u64(uptime_ms);
}

/// A line whose complete rendering fits in a message is stored exactly as
/// rendered.
pub proof fn law_fitting_line_is_exact(uptime_ms: u64, tag: Seq<u8>, level: Severity, body: Seq<u8>)
    requires
        rendered_line(uptime_ms, tag, level, body).len() <= MAX_LINE_LEN,
    ensures
        line_text(uptime_ms, tag, level, body) == rendered_line(uptime_ms, tag, level, body),
{
}

/// The text of a message never exceeds the buffer, whatever the inputs.
pub proof fn law_line_never_overflows(uptime_ms: u64, tag: Seq<u8>, level: Severity, body: Seq<u8>)
    ensures
        line_text(uptime_ms, tag, level, body).len() <= MAX_LINE_LEN,
        line_head(uptime_ms).is_prefix_of(line_text(uptime_ms, tag, level, body)),
{
    lemma_line_head_len(uptime_ms);
    let head = line_head(uptime_ms);
    let prefix = line_prefix(uptime_ms, tag, level);
    assert(head.is_prefix_of(prefix)) by {
        assert(head =~= (head + tag).subrange(0, head.len() as int));
        assert(head =~= (head + tag + level_field(level)).subrange(0, head.len() as int));
    }
    let with_body = put(prefix, body);
    assert(head.is_prefix_of(with_body)) by {
        assert(head =~= prefix.subrange(0, head.len() as int));
        assert(head =~= (prefix + body).subrange(0, head.len() as int));
    }
    assert(head =~= with_body.subrange(0, head.len() as int));
    assert(head =~= (with_body + line_end()).subrange(0, head.len() as int));
}

/// A line whose complete rendering does not fit is cut, never wrapped or
/// flagged: the stored text is shorter than the rendering and within the
/// buffer. Where everything up to the body fits, the body is kept whole or
/// left out whole, and the terminator follows if two bytes are still free.
/// Where the tag or the level after it does not fit, the line goes on with
/// the body directly behind what was written.
pub proof fn law_long_line_is_cut(uptime_ms: u64, tag: Seq<u8>, level: Severity, body: Seq<u8>)
    requires
        rendered_line(uptime_ms, tag, level, body).len() > MAX_LINE_LEN,
    ensures
        line_text(uptime_ms, tag, level, body).len() <= MAX_LINE_LEN,
        line_text(uptime_ms, tag, level, body).len() < rendered_line(
            uptime_ms,
            tag,
            level,
            body,
        ).len(),
        ({
            let start = line_head(uptime_ms) + tag + level_field(level);
            let stored = line_text(uptime_ms, tag, level, body);
            &&& start.len() + body.len() <= MAX_LINE_LEN ==> stored == start + body
            &&& start.len() <= MAX_LINE_LEN < start.len() + body.len() ==> stored == put(
                start,
                line_end(),
            )
            &&& line_head(uptime_ms).len() + tag.len() <= MAX_LINE_LEN < start.len() ==> stored
                == put(put(line_head(uptime_ms) + tag, body), line_end())
            &&& line_head(uptime_ms).len() + tag.len() > MAX_LINE_LEN ==> stored == put(
                put(line_head(uptime_ms), body),
                line_end(),
            )
        }),
{
    law_line_never_overflows(uptime_ms, tag, level, body);
}

} // verus!
