//! Cutting the output of a process into lines.
//!
//! The output comes in chunks of bytes that end anywhere. A line ends at a
//! carriage return or a line feed; each of the two ends a line by itself,
//! so that two of them in a row enclose an empty line. A run of bytes
//! without either is cut off as a line of its own as soon as it is longer
//! than [`MAX_LINE_LENGTH`], so that a process that never ends a line
//! cannot fill the memory.

use vstd::prelude::*;

use crate::decode::decode_buffer;
use crate::decode::decoded;
use crate::events::UiEvent;
use crate::events::UiEventView;
use crate::platform::Platform;

verus! {

/// The most bytes that are kept waiting for the end of their line.
pub const MAX_LINE_LENGTH: usize = 8192;

/// The most bytes that are read from a stream at once.
pub const READ_CHUNK: usize = 1024;

/// Whether `byte` ends a line: a line feed or a carriage return.
pub open spec fn is_terminator(byte: u8) -> bool {
    byte == 0x0A || byte == 0x0D
}

/// Whether no byte of `s` ends a line.
pub open spec fn unbroken(s: Seq<u8>) -> bool {
    forall|i: int| 0 <= i < s.len() ==> !is_terminator(#[trigger] s[i])
}

/// What may wait for the end of its line: bytes without a terminator,
/// [`MAX_LINE_LENGTH`] at most.
pub open spec fn pending(s: Seq<u8>) -> bool {
    unbroken(s) && s.len() <= MAX_LINE_LENGTH
}

/// Where a line ends.
pub struct Cut {
    /// The length of the line.
    pub line: int,
    /// The number of bytes that the line uses up: one more than its
    /// length where a terminator ends it.
    pub used: int,
}

/// Where the first line of `s` ends, if no terminator stands before
/// `from`: at the first terminator, or behind the first byte that makes
/// the line longer than [`MAX_LINE_LENGTH`], whichever comes first.
pub open spec fn first_cut(s: Seq<u8>, from: int) -> Option<Cut>
    decreases s.len() - from,
{
    if from < 0 || from >= s.len() {
        None
    } else if is_terminator(s[from]) {
        Some(Cut { line: from, used: from + 1 })
    } else if from >= MAX_LINE_LENGTH {
        Some(Cut { line: from + 1, used: from + 1 })
    } else {
        first_cut(s, from + 1)
    }
}

/// A stream cut into lines.
pub struct Split {
    /// The lines that are complete, without their terminators.
    pub lines: Seq<Seq<u8>>,
    /// The bytes behind the last complete line.
    pub rest: Seq<u8>,
}

/// The stream `s` cut into lines.
pub open spec fn split(s: Seq<u8>) -> Split
    decreases s.len(),
{
    match first_cut(s, 0) {
        Some(cut) => if 0 < cut.used <= s.len() {
            let after = split(s.skip(cut.used));
            Split { lines: seq![s.take(cut.line)] + after.lines, rest: after.rest }
        } else {
            Split { lines: Seq::empty(), rest: s }
        },
        None => Split { lines: Seq::empty(), rest: s },
    }
}

/// The shape of a cut: it lies behind `from` and within `s`, the line
/// before it is unbroken from `from` on, and it follows either a
/// terminator or a line of the greatest length.
pub proof fn lemma_cut_shape(s: Seq<u8>, from: int)
    requires
        0 <= from,
    ensures
        match first_cut(s, from) {
            Some(cut) => {
                &&& from <= cut.line <= cut.used <= s.len()
                &&& from < cut.used
                &&& forall|i: int| from <= i < cut.line ==> !is_terminator(#[trigger] s[i])
                &&& (cut.used == cut.line + 1 && is_terminator(s[cut.line]) && (from
                    <= MAX_LINE_LENGTH ==> cut.line <= MAX_LINE_LENGTH)) || (cut.used == cut.line
                    && (from <= MAX_LINE_LENGTH ==> cut.line == MAX_LINE_LENGTH + 1))
            },
            None => {
                &&& forall|i: int| from <= i < s.len() ==> !is_terminator(#[trigger] s[i])
                &&& s.len() <= MAX_LINE_LENGTH || s.len() <= from
            },
        },
    decreases s.len() - from,
{
    if from < s.len() && !is_terminator(s[from]) && from < MAX_LINE_LENGTH {
        lemma_cut_shape(s, from + 1);
    }
}

/// Bytes that may wait are passed over in the search for a cut.
proof fn lemma_cut_passes_pending(s: Seq<u8>, held: int, from: int)
    requires
        0 <= from <= held <= s.len(),
        pending(s.take(held)),
    ensures
        first_cut(s, from) == first_cut(s, held),
    decreases held - from,
{
    if from < held {
        assert(s.take(held)[from] == s[from]);
        lemma_cut_passes_pending(s, held, from + 1);
    }
}

/// A cut stays where it is when more bytes follow.
proof fn lemma_cut_stays(s: Seq<u8>, more: Seq<u8>, from: int)
    requires
        0 <= from,
        first_cut(s, from) is Some,
    ensures
        first_cut(s + more, from) == first_cut(s, from),
    decreases s.len() - from,
{
    assert((s + more)[from] == s[from]);
    if !is_terminator(s[from]) && from < MAX_LINE_LENGTH {
        lemma_cut_stays(s, more, from + 1);
    }
}

/// Bytes that may wait hold no complete line.
pub proof fn lemma_split_pending(s: Seq<u8>)
    requires
        pending(s),
    ensures
        split(s) == (Split { lines: Seq::empty(), rest: s }),
{
    assert(s.take(s.len() as int) == s);
    lemma_cut_passes_pending(s, s.len() as int, 0);
}

/// How one more byte `next`, with `more` behind it, is cut after the bytes
/// `held` that wait.
proof fn lemma_split_step(held: Seq<u8>, next: u8, more: Seq<u8>)
    requires
        pending(held),
    ensures
        is_terminator(next) ==> split(held + seq![next] + more) == (Split {
            lines: seq![held] + split(more).lines,
            rest: split(more).rest,
        }),
        !is_terminator(next) && held.len() == MAX_LINE_LENGTH ==> split(held + seq![next] + more)
            == (Split { lines: seq![held.push(next)] + split(more).lines, rest: split(more).rest }),
        !is_terminator(next) && held.len() < MAX_LINE_LENGTH ==> pending(held.push(next)),
{
    let s = held + seq![next] + more;
    let n = held.len() as int;
    assert(s.take(n) == held);
    assert(s[n] == next);
    lemma_cut_passes_pending(s, n, 0);
    if is_terminator(next) {
        assert(first_cut(s, 0) == Some(Cut { line: n, used: n + 1 }));
        assert(s.skip(n + 1) == more);
    } else if n == MAX_LINE_LENGTH {
        assert(first_cut(s, 0) == Some(Cut { line: n + 1, used: n + 1 }));
        assert(s.skip(n + 1) == more);
        assert(s.take(n + 1) == held.push(next));
    } else {
        assert forall|i: int| 0 <= i < held.push(next).len() implies !is_terminator(
            #[trigger] held.push(next)[i],
        ) by {
            if i < n {
                assert(held.push(next)[i] == held[i]);
            }
        }
    }
}

/// The contents of each of `lines`.
pub open spec fn contents(lines: Seq<Vec<u8>>) -> Seq<Seq<u8>> {
    lines.map_values(|line: Vec<u8>| line@)
}

/// The splitter: it holds the bytes that wait for the end of their line.
pub struct LineSplitter {
    buffer: Vec<u8>,
}

impl View for LineSplitter {
    type V = Seq<u8>;

    /// The bytes that wait.
    closed spec fn view(&self) -> Seq<u8> {
        self.buffer@
    }
}

impl LineSplitter {
    #[verifier::type_invariant]
    closed spec fn holds_pending(self) -> bool {
        pending(self.buffer@)
    }

    /// The number of bytes that wait.
    pub fn held_len(&self) -> (n: usize)
        ensures
            n == self@.len(),
            pending(self@),
    {
        proof {
            use_type_invariant(self);
        }
        self.buffer.len()
    }

    /// A splitter that holds nothing.
    pub fn new() -> (splitter: LineSplitter)
        ensures
            splitter@ == Seq::<u8>::empty(),
    {
        LineSplitter { buffer: Vec::new() }
    }

    /// Takes the next chunk of the stream and gives the lines that it
    /// completes, without their terminators.
    ///
    /// The lines and what waits afterwards are those of the stream cut
    /// anew from what waited before: how the stream is cut into chunks
    /// changes nothing.
    pub fn feed(&mut self, chunk: &[u8]) -> (lines: Vec<Vec<u8>>)
        ensures
            contents(lines@) == split(old(self)@ + chunk@).lines,
            final(self)@ == split(old(self)@ + chunk@).rest,
            forall|i: int|
                0 <= i < lines@.len() ==> unbroken(#[trigger] lines@[i]@) && lines@[i]@.len()
                    <= MAX_LINE_LENGTH + 1,
    {
        proof {
            use_type_invariant(&*self);
        }
        let ghost whole = self@ + chunk@;
        let mut held: Vec<u8> = Vec::new();
        core::mem::swap(&mut self.buffer, &mut held);
        let mut lines: Vec<Vec<u8>> = Vec::new();
        let mut i: usize = 0;
        proof {
            assert(chunk@.skip(0) == chunk@);
            assert(contents(lines@) + split(whole).lines == split(whole).lines);
        }
        while i < chunk.len()
            invariant
                i <= chunk@.len(),
                pending(held@),
                split(whole).lines == contents(lines@) + split(held@ + chunk@.skip(i as int)).lines,
                split(whole).rest == split(held@ + chunk@.skip(i as int)).rest,
                forall|k: int|
                    0 <= k < lines@.len() ==> unbroken(#[trigger] lines@[k]@) && lines@[k]@.len()
                        <= MAX_LINE_LENGTH + 1,
            decreases chunk@.len() - i,
        {
            let byte = chunk[i];
            let ghost more = chunk@.skip(i + 1);
            let ghost before = contents(lines@);
            let ghost waiting = held@;
            proof {
                lemma_split_step(waiting, byte, more);
                assert(waiting + chunk@.skip(i as int) == waiting + seq![byte] + more);
                assert(Seq::<u8>::empty() + more == more);
            }
            if byte == 0x0D || byte == 0x0A {
                lines.push(held);
                held = Vec::new();
                proof {
                    assert(contents(lines@) == before.push(waiting));
                    assert(before + (seq![waiting] + split(more).lines) == before.push(waiting)
                        + split(more).lines);
                    assert(held@ + more == more);
                }
            } else {
                held.push(byte);
                if held.len() > MAX_LINE_LENGTH {
                    let ghost line = waiting.push(byte);
                    proof {
                        assert forall|k: int| 0 <= k < line.len() implies !is_terminator(
                            #[trigger] line[k],
                        ) by {
                            if k < line.len() - 1 {
                                assert(line[k] == waiting[k]);
                            }
                        }
                    }
                    lines.push(held);
                    held = Vec::new();
                    proof {
                        assert(contents(lines@) == before.push(line));
                        assert(before + (seq![line] + split(more).lines) == before.push(line)
                            + split(more).lines);
                        assert(held@ + more == more);
                    }
                } else {
                    proof {
                        assert(held@ + more == waiting + seq![byte] + more);
                    }
                }
            }
            i += 1;
        }
        proof {
            assert(chunk@.skip(i as int) == Seq::<u8>::empty());
            assert(held@ + Seq::<u8>::empty() == held@);
            lemma_split_pending(held@);
            assert(contents(lines@) + Seq::<Seq<u8>>::empty() == contents(lines@));
        }
        self.buffer = held;
        lines
    }

    /// Takes out what waits, at the end of the stream: the last line, if
    /// there is the beginning of one.
    pub fn finish(&mut self) -> (tail: Option<Vec<u8>>)
        ensures
            final(self)@ == Seq::<u8>::empty(),
            match tail {
                Some(line) => line@ == old(self)@ && line@.len() > 0,
                None => old(self)@.len() == 0,
            },
            pending(old(self)@),
    {
        proof {
            use_type_invariant(&*self);
        }
        let mut held: Vec<u8> = Vec::new();
        core::mem::swap(&mut self.buffer, &mut held);
        if held.len() > 0 {
            Some(held)
        } else {
            None
        }
    }
}

/// What came of reading the stream once more.
#[derive(Debug)]
pub enum ReadEvent {
    /// These bytes were read. No bytes at all mean the end of the stream.
    Data(Vec<u8>),
    /// The stream is at its end.
    Eof,
    /// Reading failed.
    Failed,
    /// The stop signal came first.
    Cancelled,
}

/// What is to be done after a read.
#[derive(Debug)]
pub struct Progress {
    /// The lines to send, in order, each as one `process-output`.
    pub events: Vec<UiEvent>,
    /// Whether the forwarding is over.
    pub done: bool,
}

/// Whether `event` ends the forwarding.
pub open spec fn ends_stream(event: ReadEvent) -> bool {
    match event {
        ReadEvent::Data(chunk) => chunk@.len() == 0,
        _ => true,
    }
}

/// The events that send `lines` as text.
pub open spec fn output_events(platform: Platform, lines: Seq<Seq<u8>>) -> Seq<UiEventView> {
    lines.map_values(|line: Seq<u8>| UiEventView::ProcessOutput(decoded(platform, line)))
}

/// The lines that the end of the stream completes: what waits, if
/// anything does.
pub open spec fn last_lines(held: Seq<u8>) -> Seq<Seq<u8>> {
    if held.len() > 0 {
        seq![held]
    } else {
        Seq::empty()
    }
}

/// The bytes that `event` brings.
pub open spec fn bytes_of(event: ReadEvent) -> Seq<u8> {
    match event {
        ReadEvent::Data(chunk) => chunk@,
        _ => Seq::empty(),
    }
}

fn output(line: &Vec<u8>, platform: Platform) -> (event: UiEvent)
    requires
        line@.len() <= MAX_LINE_LENGTH + 1,
    ensures
        event@ == UiEventView::ProcessOutput(decoded(platform, line@)),
{
    UiEvent::ProcessOutput(decode_buffer(line.as_slice(), platform))
}

/// One turn of forwarding a stream: takes what the read gave and says
/// what to send and whether to go on.
///
/// Bytes that were read are cut into lines, and each complete line is
/// sent as text. At the end of the stream, on a failed read and on the
/// stop signal the forwarding is over, and what waited for the end of its
/// line is sent as the last line; nothing more is read after a stop.
pub fn process_lines(splitter: &mut LineSplitter, event: &ReadEvent, platform: Platform) -> (progress:
    Progress)
    ensures
        progress.done == ends_stream(*event),
        !ends_stream(*event) ==> progress.events.deep_view() == output_events(
            platform,
            split(old(splitter)@ + bytes_of(*event)).lines,
        ) && final(splitter)@ == split(old(splitter)@ + bytes_of(*event)).rest,
        ends_stream(*event) ==> progress.events.deep_view() == output_events(
            platform,
            last_lines(old(splitter)@),
        ) && final(splitter)@ == Seq::<u8>::empty(),
{
    let mut events: Vec<UiEvent> = Vec::new();
    match event {
        ReadEvent::Data(chunk) => {
            if chunk.len() > 0 {
                let lines = splitter.feed(chunk.as_slice());
                let mut i: usize = 0;
                while i < lines.len()
                    invariant
                        i <= lines@.len(),
                        events@.len() == i,
                        forall|k: int|
                            0 <= k < lines@.len() ==> (#[trigger] lines@[k])@.len()
                                <= MAX_LINE_LENGTH + 1,
                        forall|k: int|
                            0 <= k < i ==> (#[trigger] events@[k])@ == UiEventView::ProcessOutput(
                                decoded(platform, lines@[k]@),
                            ),
                    decreases lines@.len() - i,
                {
                    events.push(output(&lines[i], platform));
                    i += 1;
                }
                assert(events.deep_view() =~= output_events(platform, contents(lines@)));
                return Progress { events, done: false };
            }
        },
        _ => {},
    }
    match splitter.finish() {
        Some(line) => {
            events.push(output(&line, platform));
        },
        None => {},
    }
    assert(events.deep_view() =~= output_events(platform, last_lines(old(splitter)@)));
    Progress { events, done: true }
}

/// The lines of a stream are bounded: each is unbroken and at most one
/// byte longer than [`MAX_LINE_LENGTH`], and what is left may wait.
pub proof fn law_lines_are_bounded(s: Seq<u8>)
    ensures
        forall|i: int|
            0 <= i < split(s).lines.len() ==> unbroken(#[trigger] split(s).lines[i]) && split(
                s,
            ).lines[i].len() <= MAX_LINE_LENGTH + 1,
        pending(split(s).rest),
    decreases s.len(),
{
    lemma_cut_shape(s, 0);
    match first_cut(s, 0) {
        Some(cut) => {
            let after = split(s.skip(cut.used));
            law_lines_are_bounded(s.skip(cut.used));
            assert forall|i: int| 0 <= i < split(s).lines.len() implies unbroken(
                #[trigger] split(s).lines[i],
            ) && split(s).lines[i].len() <= MAX_LINE_LENGTH + 1 by {
                if i > 0 {
                    assert(split(s).lines[i] == after.lines[i - 1]);
                }
            }
        },
        None => {},
    }
}

/// What is left of a stream is its end.
proof fn lemma_rest_is_suffix(s: Seq<u8>)
    ensures
        split(s).rest.len() <= s.len(),
        split(s).rest == s.skip(s.len() - split(s).rest.len()),
    decreases s.len(),
{
    match first_cut(s, 0) {
        Some(cut) => {
            assert(0 < cut.used <= s.len()) by {
                lemma_cut_shape(s, 0);
            }
            let tail = s.skip(cut.used);
            let rest = split(tail).rest;
            lemma_rest_is_suffix(tail);
            assert(split(s).rest == rest);
            assert(tail.len() == s.len() - cut.used);
            let from = tail.len() - rest.len();
            assert(0 <= from <= tail.len());
            assert(tail.skip(from) == s.skip(cut.used + from)) by {
                assert(tail.skip(from).len() == s.skip(cut.used + from).len());
                assert forall|i: int| 0 <= i < tail.skip(from).len() implies tail.skip(from)[i]
                    == s.skip(cut.used + from)[i] by {
                    assert(tail.skip(from)[i] == tail[from + i]);
                    assert(tail[from + i] == s[cut.used + from + i]);
                }
            }
            assert(cut.used + from == s.len() - rest.len());
        },
        None => {
            assert(split(s).rest == s);
            assert(s.skip(0) == s);
        },
    }
}

/// How a stream is cut into chunks does not matter: cutting `s` and then,
/// from what is left of it, `t` gives the lines of `s` followed by `t`.
pub proof fn law_chunks_do_not_matter(s: Seq<u8>, t: Seq<u8>)
    ensures
        split(s + t).lines == split(s).lines + split(split(s).rest + t).lines,
        split(s + t).rest == split(split(s).rest + t).rest,
    decreases s.len(),
{
    lemma_cut_shape(s, 0);
    match first_cut(s, 0) {
        Some(cut) => {
            lemma_cut_stays(s, t, 0);
            let tail = s.skip(cut.used);
            assert((s + t).take(cut.line) == s.take(cut.line));
            assert((s + t).skip(cut.used) == tail + t);
            law_chunks_do_not_matter(tail, t);
            assert(split(s + t).lines == seq![s.take(cut.line)] + (split(tail).lines + split(
                split(tail).rest + t,
            ).lines));
            assert(seq![s.take(cut.line)] + (split(tail).lines + split(split(tail).rest + t).lines)
                == (seq![s.take(cut.line)] + split(tail).lines) + split(
                split(tail).rest + t,
            ).lines);
        },
        None => {
            assert(Seq::<Seq<u8>>::empty() + split(s + t).lines == split(s + t).lines);
        },
    }
}

/// Whether a byte is kept in a line: every byte but a terminator.
pub open spec fn kept() -> spec_fn(u8) -> bool {
    |byte: u8| !is_terminator(byte)
}

/// Unbroken bytes are all kept.
proof fn lemma_unbroken_is_kept(s: Seq<u8>)
    requires
        unbroken(s),
    ensures
        s.filter(kept()) == s,
    decreases s.len(),
{
    reveal(Seq::filter);
    if s.len() > 0 {
        assert forall|i: int| 0 <= i < s.drop_last().len() implies !is_terminator(
            #[trigger] s.drop_last()[i],
        ) by {
            assert(s.drop_last()[i] == s[i]);
        }
        lemma_unbroken_is_kept(s.drop_last());
        assert(s.drop_last().push(s.last()) == s);
    }
}

/// Of a line with its terminator, the line is kept.
proof fn lemma_terminator_is_dropped(line: Seq<u8>, end: u8)
    requires
        unbroken(line),
        is_terminator(end),
    ensures
        line.push(end).filter(kept()) == line,
{
    lemma_unbroken_is_kept(line);
    reveal(Seq::filter);
    assert(line.push(end).drop_last() == line);
}

/// Of the bytes that the first line uses up, the line is kept.
proof fn lemma_first_line_is_kept(s: Seq<u8>, cut: Cut)
    requires
        first_cut(s, 0) == Some(cut),
    ensures
        0 < cut.used <= s.len(),
        0 <= cut.line <= cut.used,
        s.take(cut.used).filter(kept()) == s.take(cut.line),
{
    lemma_cut_shape(s, 0);
    let head = s.take(cut.used);
    let line = s.take(cut.line);
    assert forall|i: int| 0 <= i < line.len() implies !is_terminator(#[trigger] line[i]) by {
        assert(line[i] == s[i]);
    }
    if cut.used == cut.line {
        assert(head == line);
        lemma_unbroken_is_kept(line);
    } else {
        assert(head == line.push(s[cut.line]));
        lemma_terminator_is_dropped(line, s[cut.line]);
    }
}

/// A line in front of others comes first when they are put one after the
/// other.
proof fn lemma_flatten_first(line: Seq<u8>, others: Seq<Seq<u8>>)
    ensures
        (seq![line] + others).flatten() == line + others.flatten(),
{
    let all = seq![line] + others;
    assert(all.first() == line);
    assert(all.drop_first() == others);
}

/// No byte is lost and none is made up: the lines one after the other,
/// and then what is left, are the stream without its terminators.
pub proof fn law_no_byte_is_lost(s: Seq<u8>)
    ensures
        split(s).lines.flatten() + split(s).rest == s.filter(kept()),
    decreases s.len(),
{
    match first_cut(s, 0) {
        Some(cut) => {
            lemma_first_line_is_kept(s, cut);
            let head = s.take(cut.used);
            let tail = s.skip(cut.used);
            let line = s.take(cut.line);
            let after = split(tail);
            law_no_byte_is_lost(tail);
            assert(s.filter(kept()) == line + tail.filter(kept())) by {
                assert(s == head + tail);
                Seq::filter_distributes_over_add(head, tail, kept());
            }
            assert(split(s).lines.flatten() == line + after.lines.flatten()) by {
                lemma_flatten_first(line, after.lines);
            }
            assert(split(s).rest == after.rest);
            assert((line + after.lines.flatten()) + after.rest == line + (after.lines.flatten()
                + after.rest));
        },
        None => {
            assert(unbroken(s)) by {
                lemma_cut_shape(s, 0);
            }
            lemma_unbroken_is_kept(s);
            assert(split(s).lines.flatten() == Seq::<u8>::empty());
            assert(Seq::<u8>::empty() + s == s);
        },
    }
}

/// A run of more than [`MAX_LINE_LENGTH`] bytes without a terminator is
/// cut: its first [`MAX_LINE_LENGTH`] + 1 bytes are a line by themselves.
pub proof fn law_long_run_is_cut(s: Seq<u8>)
    requires
        unbroken(s),
        s.len() > MAX_LINE_LENGTH,
    ensures
        split(s).lines.len() >= 1,
        split(s).lines[0] == s.take(MAX_LINE_LENGTH + 1),
{
    let most = MAX_LINE_LENGTH as int;
    assert forall|i: int| 0 <= i < s.take(most).len() implies !is_terminator(
        #[trigger] s.take(most)[i],
    ) by {
        assert(s.take(most)[i] == s[i]);
    }
    lemma_cut_passes_pending(s, most, 0);
    assert(first_cut(s, most) == Some(Cut { line: most + 1, used: most + 1 }));
}

/// A stream cut at its terminators and nowhere else: each terminator ends
/// the line before it, which is empty where a terminator comes first or
/// follows another, and what stands behind the last terminator is left.
pub open spec fn cut_at_terminators(s: Seq<u8>) -> Split
    decreases s.len(),
{
    if s.len() == 0 {
        Split { lines: Seq::empty(), rest: Seq::empty() }
    } else {
        let before = cut_at_terminators(s.drop_last());
        if is_terminator(s.last()) {
            Split { lines: before.lines.push(before.rest), rest: Seq::empty() }
        } else {
            Split { lines: before.lines, rest: before.rest.push(s.last()) }
        }
    }
}

/// Whether no run of bytes without a terminator in `s` is longer than
/// [`MAX_LINE_LENGTH`].
pub open spec fn runs_fit(s: Seq<u8>) -> bool {
    forall|i: int, j: int|
        0 <= i <= j <= s.len() && unbroken(#[trigger] s.subrange(i, j)) ==> j - i
            <= MAX_LINE_LENGTH
}

/// Where no line is too long, the lines of a stream are exactly those
/// that its terminators enclose, the empty ones among them, and what is
/// left is what stands behind the last terminator.
pub proof fn law_lines_end_at_terminators(s: Seq<u8>)
    requires
        runs_fit(s),
    ensures
        split(s) == cut_at_terminators(s),
    decreases s.len(),
{
    if s.len() == 0 {
        lemma_split_pending(s);
        assert(s == Seq::<u8>::empty());
    } else {
        let front = s.drop_last();
        let last = s.last();
        assert forall|i: int, j: int|
            0 <= i <= j <= front.len() && unbroken(#[trigger] front.subrange(i, j)) implies j - i
            <= MAX_LINE_LENGTH by {
            assert(front.subrange(i, j) == s.subrange(i, j));
        }
        law_lines_end_at_terminators(front);
        let held = split(front).rest;
        law_lines_are_bounded(front);
        lemma_rest_is_suffix(front);
        law_chunks_do_not_matter(front, seq![last]);
        assert(front + seq![last] == s);
        let nothing = Seq::<u8>::empty();
        lemma_split_step(held, last, nothing);
        lemma_split_pending(nothing);
        assert(held + seq![last] + nothing == held + seq![last]);
        if is_terminator(last) {
            assert(split(held + seq![last]).lines == seq![held] + Seq::<Seq<u8>>::empty());
            assert(split(front).lines + (seq![held] + Seq::<Seq<u8>>::empty()) == split(
                front,
            ).lines.push(held));
            assert(split(s).lines == cut_at_terminators(s).lines);
            assert(split(s).rest == cut_at_terminators(s).rest);
        } else {
            if held.len() == MAX_LINE_LENGTH {
                let start = s.len() - held.len() - 1;
                let run = s.subrange(start, s.len() as int);
                assert(run == held.push(last));
                assert forall|k: int| 0 <= k < run.len() implies !is_terminator(#[trigger] run[k]) by {
                    if k < held.len() {
                        assert(run[k] == held[k]);
                    }
                }
                assert(false);
            }
            lemma_split_pending(held.push(last));
            assert(held + seq![last] == held.push(last));
            assert(split(front).lines + Seq::<Seq<u8>>::empty() == split(front).lines);
            assert(split(s).lines == cut_at_terminators(s).lines);
            assert(split(s).rest == cut_at_terminators(s).rest);
        }
    }
}

} // verus!
