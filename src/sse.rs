//! Server-Sent-Events data lines: `data: <payload>` and the `[DONE]` marker.
use vstd::prelude::*;
use vstd::string::*;

verus! {

/// A character with the Unicode `White_Space` property.
pub open spec fn is_white_space(c: char) -> bool {
    let n = c as u32;
    (0x09 <= n <= 0x0D) || n == 0x20 || n == 0x85 || n == 0xA0 || n == 0x1680 || (0x2000 <= n
        <= 0x200A) || n == 0x2028 || n == 0x2029 || n == 0x202F || n == 0x205F || n == 0x3000
}

pub open spec fn trim_start(s: Seq<char>) -> Seq<char>
    decreases s.len(),
{
    if s.len() > 0 && is_white_space(s[0]) {
        trim_start(s.subrange(1, s.len() as int))
    } else {
        s
    }
}

pub open spec fn trim_end(s: Seq<char>) -> Seq<char>
    decreases s.len(),
{
    if s.len() > 0 && is_white_space(s.last()) {
        trim_end(s.drop_last())
    } else {
        s
    }
}

/// What `str::trim` leaves of `s`: leading and trailing white space removed.
pub open spec fn trimmed(s: Seq<char>) -> Seq<char> {
    trim_end(trim_start(s))
}

/// Relies on `str::trim`: the slice without leading and trailing characters of
/// the Unicode `White_Space` property.
#[verifier::external_body]
pub(crate) fn trim_str<'a>(s: &'a str) -> (r: &'a str)
    ensures
        r@ == trimmed(s@),
{
    s.trim()
}

/// The prefix `data: ` of an SSE data line.
pub open spec fn data_prefix() -> Seq<char> {
    seq!['d', 'a', 't', 'a', ':', ' ']
}

/// The payload `[DONE]` that closes an OpenAI-style event stream.
pub open spec fn done_marker() -> Seq<char> {
    seq!['[', 'D', 'O', 'N', 'E', ']']
}

/// The trimmed payload of a line that starts with `data: `; `None` for any other line.
pub open spec fn spec_parse_sse_line(line: Seq<char>) -> Option<Seq<char>> {
    if line.len() >= 6 && line.subrange(0, 6) == data_prefix() {
        Some(trimmed(line.subrange(6, line.len() as int)))
    } else {
        None
    }
}

/// Extracts the data portion of an SSE line `data: <content>`, trimmed.
pub fn parse_sse_line(line: &str) -> (r: Option<&str>)
    ensures
        r matches Some(d) ==> spec_parse_sse_line(line@) == Some(d@),
        r is None ==> spec_parse_sse_line(line@) is None,
{
    let n = line.unicode_len();
    if n >= 6 && line.get_char(0) == 'd' && line.get_char(1) == 'a' && line.get_char(2) == 't'
        && line.get_char(3) == 'a' && line.get_char(4) == ':' && line.get_char(5) == ' ' {
        assert(line@.subrange(0, 6) =~= data_prefix());
        let rest = line.substring_char(6, n);
        Some(trim_str(rest))
    } else {
        proof {
            if line@.len() >= 6 && line@.subrange(0, 6) == data_prefix() {
                assert(line@[0] == line@.subrange(0, 6)[0]);
                assert(line@[1] == line@.subrange(0, 6)[1]);
                assert(line@[2] == line@.subrange(0, 6)[2]);
                assert(line@[3] == line@.subrange(0, 6)[3]);
                assert(line@[4] == line@.subrange(0, 6)[4]);
                assert(line@[5] == line@.subrange(0, 6)[5]);
            }
        }
        None
    }
}

/// Whether an SSE payload is the end-of-stream marker `[DONE]`.
pub fn is_done_marker(data: &str) -> (r: bool)
    ensures
        r == (data@ == done_marker()),
{
    let n = data.unicode_len();
    if n == 6 && data.get_char(0) == '[' && data.get_char(1) == 'D' && data.get_char(2) == 'O'
        && data.get_char(3) == 'N' && data.get_char(4) == 'E' && data.get_char(5) == ']' {
        assert(data@ =~= done_marker());
        true
    } else {
        proof {
            if data@ == done_marker() {
                assert(data@[0] == '[' && data@[1] == 'D' && data@[2] == 'O');
                assert(data@[3] == 'N' && data@[4] == 'E' && data@[5] == ']');
            }
        }
        false
    }
}


/// An event decoded from an SSE byte stream.
#[derive(Clone, Debug)]
pub enum SseEvent {
    /// The payload of a `data: ` line.
    Data(String),
    /// The `[DONE]` marker: the stream is over.
    Done,
}

pub enum SseEventView {
    Data(Seq<char>),
    Done,
}

impl View for SseEvent {
    type V = SseEventView;

    open spec fn view(&self) -> SseEventView {
        match self {
            SseEvent::Data(s) => SseEventView::Data(s@),
            SseEvent::Done => SseEventView::Done,
        }
    }
}

pub open spec fn is_first_newline(b: Seq<char>, i: int) -> bool {
    0 <= i < b.len() && b[i] == '\n' && forall|j: int| 0 <= j < i ==> b[j] != '\n'
}

pub open spec fn has_newline(b: Seq<char>) -> bool {
    exists|i: int| 0 <= i < b.len() && b[i] == '\n'
}

pub open spec fn first_newline(b: Seq<char>) -> int {
    choose|i: int| is_first_newline(b, i)
}

/// What one line (without its newline) yields: blank and non-data lines
/// nothing, a data line its payload, or the end marker.
pub open spec fn line_event(line: Seq<char>) -> Option<SseEventView> {
    let t = trimmed(line);
    if t.len() == 0 {
        None
    } else {
        match spec_parse_sse_line(t) {
            Some(d) => if d == done_marker() {
                Some(SseEventView::Done)
            } else {
                Some(SseEventView::Data(d))
            },
            None => None,
        }
    }
}

/// The first event among the complete lines of `b`, and what is left of `b`
/// after the line that carried it (all of `b`'s complete lines when none does).
pub open spec fn next_event_of(b: Seq<char>) -> (Option<SseEventView>, Seq<char>)
    decreases b.len(),
{
    if !has_newline(b) {
        (None, b)
    } else {
        let i = first_newline(b);
        let rest = b.subrange(i + 1, b.len() as int);
        if 0 <= i < b.len() {
            match line_event(b.subrange(0, i)) {
                Some(e) => (Some(e), rest),
                None => next_event_of(rest),
            }
        } else {
            (None, b)
        }
    }
}

proof fn lemma_first_newline(b: Seq<char>, i: int)
    requires
        is_first_newline(b, i),
    ensures
        has_newline(b),
        first_newline(b) == i,
{
    assert(b[i] == '\n');
    let c = first_newline(b);
    assert(is_first_newline(b, c));
    if c < i {
        assert(b[c] != '\n');
    } else if c > i {
        assert(b[i] != '\n');
    }
}

fn find_newline(s: &str) -> (r: Option<usize>)
    ensures
        r is None <==> !has_newline(s@),
        r matches Some(i) ==> is_first_newline(s@, i as int),
{
    let n = s.unicode_len();
    let mut i: usize = 0;
    while i < n
        invariant
            n == s@.len(),
            i <= n,
            forall|j: int| 0 <= j < i ==> s@[j] != '\n',
        decreases n - i,
    {
        if s.get_char(i) == '\n' {
            return Some(i);
        }
        i = i + 1;
    }
    None
}

fn event_of_line(line: &str) -> (r: Option<SseEvent>)
    ensures
        (match r {
            Some(e) => Some(e@),
            None => None,
        }) == line_event(line@),
{
    let t = trim_str(line);
    if t.unicode_len() == 0 {
        return None;
    }
    match parse_sse_line(t) {
        Some(d) => if is_done_marker(d) {
            Some(SseEvent::Done)
        } else {
            Some(SseEvent::Data(String::from_str(d)))
        },
        None => None,
    }
}

/// Splits a byte stream's text into SSE events. Text arrives in chunks that
/// may cut lines anywhere; a line counts once its newline has arrived.
pub struct SseDecoder {
    buffer: String,
}

impl SseDecoder {
    pub closed spec fn pending(&self) -> Seq<char> {
        self.buffer@
    }

    /// A decoder with nothing buffered.
    pub fn new() -> (r: SseDecoder)
        ensures
            r.pending() == Seq::<char>::empty(),
    {
        SseDecoder { buffer: String::new() }
    }

    /// Buffers the next chunk of text.
    pub fn push(&mut self, chunk: &str)
        ensures
            final(self).pending() == old(self).pending() + chunk@,
    {
        self.buffer.append(chunk);
    }

    /// The next event among the buffered complete lines, consuming the lines
    /// up to the one that carried it; `None` once no complete line yields one.
    pub fn next_event(&mut self) -> (r: Option<SseEvent>)
        ensures
            (match r {
                Some(e) => Some(e@),
                None => None,
            }) == next_event_of(old(self).pending()).0,
            final(self).pending() == next_event_of(old(self).pending()).1,
    {
        loop
            invariant
                next_event_of(self.pending()) == next_event_of(old(self).pending()),
            decreases self.buffer@.len(),
        {
            let found = find_newline(self.buffer.as_str());
            match found {
                None => {
                    return None;
                },
                Some(i) => {
                    let ghost b = self.buffer@;
                    proof {
                        lemma_first_newline(b, i as int);
                    }
                    let n = self.buffer.as_str().unicode_len();
                    let ev = event_of_line(self.buffer.as_str().substring_char(0, i));
                    let rest = String::from_str(self.buffer.as_str().substring_char(i + 1, n));
                    self.buffer = rest;
                    if ev.is_some() {
                        return ev;
                    }
                },
            }
        }
    }

    /// At the end of the stream: the event of the unterminated last line, if
    /// it carries data (never the end marker). The buffer is emptied.
    pub fn finish(&mut self) -> (r: Option<String>)
        ensures
            final(self).pending() == Seq::<char>::empty(),
            (match r {
                Some(d) => Some(SseEventView::Data(d@)),
                None => None,
            }) == (match line_event(old(self).pending()) {
                Some(SseEventView::Data(d)) => Some(SseEventView::Data(d)),
                _ => None,
            }),
    {
        let ev = event_of_line(self.buffer.as_str());
        self.buffer = String::new();
        match ev {
            Some(SseEvent::Data(d)) => Some(d),
            _ => None,
        }
    }
}
} // verus!
