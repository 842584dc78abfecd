//! The diagnostic reporter: text is cut into the NUL-terminated lines that
//! the console takes, one at a time.
//!
//! The console formats what it is given, so every `%` is doubled. A newline
//! ends the line at hand, and so does a line that has grown to
//! `LINE_FLUSH_AT` bytes.

use vstd::prelude::*;
use vstd::string::*;
use vstd::utf8::*;
use vstd::slice::slice_to_vec;
use arrayvec::ArrayString;
use crate::fixed::{
    line_buffer_as_str, line_buffer_bytes, line_buffer_clear, line_buffer_len, line_buffer_new,
    line_buffer_try_push,
};
use crate::name::{nul_encodes_as_terminator, terminator};

verus! {

/// The capacity of the line buffer, terminator included.
pub const LINE_CAPACITY: usize = 1024;

/// A line that holds this many bytes is reported before it takes more.
pub const LINE_FLUSH_AT: usize = 1020;

/// What a writer has done so far: the lines handed over, each with its
/// terminator, and the bytes of the line at hand.
pub struct WriterView {
    pub reported: Seq<Seq<u8>>,
    pub line: Seq<u8>,
}

/// The bytes that the character `c` puts on a line.
pub open spec fn escaped(c: char) -> Seq<u8> {
    if c == '%' {
        encode_utf8(seq![c]) + encode_utf8(seq![c])
    } else {
        encode_utf8(seq![c])
    }
}

/// The writer after its line at hand was handed over.
pub open spec fn flushed(w: WriterView) -> WriterView {
    WriterView { reported: w.reported.push(w.line + terminator()), line: Seq::<u8>::empty() }
}

/// The writer after one more character.
pub open spec fn fed(w: WriterView, c: char) -> WriterView {
    if c == '\n' {
        flushed(w)
    } else if w.line.len() >= LINE_FLUSH_AT {
        WriterView { reported: flushed(w).reported, line: escaped(c) }
    } else {
        WriterView { reported: w.reported, line: w.line + escaped(c) }
    }
}

/// The writer after all of `text`, character by character.
pub open spec fn fed_all(w: WriterView, text: Seq<char>) -> WriterView
    decreases text.len(),
{
    if text.len() == 0 {
        w
    } else {
        fed(fed_all(w, text.drop_last()), text.last())
    }
}

/// The lines that a report of `text` hands to the console: those of the
/// text followed by a NUL, and then whatever the line at hand holds.
pub open spec fn report_lines(text: Seq<char>) -> Seq<Seq<u8>> {
    flushed(
        fed_all(
            WriterView { reported: Seq::<Seq<u8>>::empty(), line: Seq::<u8>::empty() },
            text.push('\0'),
        ),
    ).reported
}

/// The byte content of each line.
pub open spec fn line_views(lines: Seq<Vec<u8>>) -> Seq<Seq<u8>> {
    lines.map_values(|line: Vec<u8>| line@)
}

/// A character takes between one and four bytes, and `%` takes one.
pub proof fn encoding_is_short(c: char)
    ensures
        1 <= encode_utf8(seq![c]).len() <= 4,
        c == '%' ==> encode_utf8(seq![c]).len() == 1,
        escaped(c).len() <= 4,
{
    assert(seq![c].drop_first() =~= Seq::<char>::empty());
    assert(encode_utf8(seq![c]) =~= encode_scalar(c as u32) + encode_utf8(Seq::<char>::empty()));
    assert(encode_utf8(seq![c]) =~= encode_scalar(c as u32));
}

/// Collects text into console lines.
struct Writer {
    line: ArrayString<1024>,
    reported: Vec<Vec<u8>>,
}

impl View for Writer {
    type V = WriterView;

    closed spec fn view(&self) -> WriterView {
        WriterView { reported: line_views(self.reported@), line: line_buffer_bytes(self.line) }
    }
}

impl Writer {
    /// The line at hand leaves room for its terminator.
    spec fn wf(&self) -> bool {
        line_buffer_bytes(self.line).len() < LINE_CAPACITY
    }

    /// A writer that has been given nothing.
    fn new() -> (writer: Writer)
        ensures
            writer.wf(),
            writer@ == (WriterView {
                reported: Seq::<Seq<u8>>::empty(),
                line: Seq::<u8>::empty(),
            }),
    {
        let writer = Writer { line: line_buffer_new(), reported: Vec::new() };
        assert(line_views(writer.reported@) =~= Seq::<Seq<u8>>::empty());
        writer
    }

    /// Hands the line at hand over, terminated, and starts an empty one.
    fn flush(&mut self)
        requires
            old(self).wf(),
        ensures
            final(self).wf(),
            final(self)@ == flushed(old(self)@),
    {
        proof {
            nul_encodes_as_terminator();
        }
        let terminated = line_buffer_try_push(&mut self.line, '\0');
        assert(terminated is Ok);
        let bytes = slice_to_vec(line_buffer_as_str(&self.line).as_bytes());
        let ghost before = line_views(self.reported@);
        self.reported.push(bytes);
        line_buffer_clear(&mut self.line);
        assert(line_views(self.reported@) =~= before.push(bytes@));
    }

    /// Takes the characters of `s`, one by one.
    fn write_str(&mut self, s: &str)
        requires
            old(self).wf(),
        ensures
            final(self).wf(),
            final(self)@ == fed_all(old(self)@, s@),
    {
        let ghost start = self@;
        for c in it: s.chars()
            invariant
                it.seq() == s@,
                self.wf(),
                self@ == fed_all(start, s@.take(it.index())),
        {
            let ghost before = self@;
            proof {
                encoding_is_short(c);
                assert(s@.take(it.index() + 1).drop_last() =~= s@.take(it.index()));
                assert(s@.take(it.index() + 1).last() == c);
            }
            if c == '\n' {
                self.flush();
            } else {
                if line_buffer_len(&self.line) >= LINE_FLUSH_AT {
                    self.flush();
                }
                let pushed = line_buffer_try_push(&mut self.line, c);
                assert(pushed is Ok);
                if c == '%' {
                    let doubled = line_buffer_try_push(&mut self.line, c);
                    assert(doubled is Ok);
                }
            }
            assert(self@.line =~= fed(before, c).line);
            assert(self@.reported =~= fed(before, c).reported);
        }
        assert(s@.take(s@.len() as int) =~= s@);
    }

    /// The lines handed over so far. The line at hand is not among them.
    fn into_lines(self) -> (lines: Vec<Vec<u8>>)
        ensures
            line_views(lines@) == self@.reported,
    {
        self.reported
    }
}

/// Cuts `text` into the lines that the console is to print, in order. Each
/// line ends in a NUL and holds no more than `LINE_CAPACITY` bytes.
pub fn report(text: &str) -> (lines: Vec<Vec<u8>>)
    ensures
        line_views(lines@) == report_lines(text@),
        lines@.len() >= 1,
        forall|i: int|
            0 <= i < lines@.len() ==> 1 <= (#[trigger] lines@[i])@.len() <= LINE_CAPACITY
                && lines@[i]@.last() == 0u8,
{
    let mut writer = Writer::new();
    writer.write_str(text);
    let ghost after_text = writer@;
    writer.write_str("\0");
    proof {
        reveal_strlit("\0");
        assert("\0"@ =~= Seq::<char>::empty().push('\0'));
        fed_all_appends(after_text, Seq::<char>::empty(), '\0');
        fed_all_appends(
            WriterView { reported: Seq::<Seq<u8>>::empty(), line: Seq::<u8>::empty() },
            text@,
            '\0',
        );
    }
    writer.flush();
    let lines = writer.into_lines();
    proof {
        report_lines_fit(text@);
        assert forall|i: int| 0 <= i < lines@.len() implies 1 <= (#[trigger] lines@[i])@.len()
            <= LINE_CAPACITY && lines@[i]@.last() == 0u8 by {
            assert(line_views(lines@)[i] == lines@[i]@);
        }
    }
    lines
}

/// Feeding a text and then one more character is feeding the longer text.
pub proof fn fed_all_appends(w: WriterView, text: Seq<char>, c: char)
    ensures
        fed_all(w, text.push(c)) == fed(fed_all(w, text), c),
{
    assert(text.push(c).drop_last() =~= text);
}

/// Whether every line handed over ends in the terminator and fits the line
/// buffer, and the line at hand leaves room for its terminator.
pub open spec fn lines_fit(w: WriterView) -> bool {
    &&& w.line.len() < LINE_CAPACITY
    &&& forall|i: int|
        0 <= i < w.reported.len() ==> 1 <= (#[trigger] w.reported[i]).len() <= LINE_CAPACITY
            && w.reported[i].last() == 0u8
}

/// One more character keeps the lines fitting.
pub proof fn fed_keeps_lines_fit(w: WriterView, c: char)
    requires
        lines_fit(w),
    ensures
        lines_fit(fed(w, c)),
{
    encoding_is_short(c);
    let line = w.line + terminator();
    assert(line.len() == w.line.len() + 1);
    assert(line.last() == 0u8);
    assert forall|i: int| 0 <= i < flushed(w).reported.len() implies 1 <= (
    #[trigger] flushed(w).reported[i]).len() <= LINE_CAPACITY && flushed(w).reported[i].last()
        == 0u8 by {
        if i < w.reported.len() {
            assert(flushed(w).reported[i] == w.reported[i]);
        } else {
            assert(flushed(w).reported[i] == line);
        }
    }
}

/// Any text keeps the lines fitting.
pub proof fn fed_all_keeps_lines_fit(w: WriterView, text: Seq<char>)
    requires
        lines_fit(w),
    ensures
        lines_fit(fed_all(w, text)),
    decreases text.len(),
{
    if text.len() > 0 {
        fed_all_keeps_lines_fit(w, text.drop_last());
        fed_keeps_lines_fit(fed_all(w, text.drop_last()), text.last());
    }
}

/// Every line of a report ends in the terminator and fits the console's
/// line buffer, and a report always has a last line.
pub proof fn report_lines_fit(text: Seq<char>)
    ensures
        report_lines(text).len() >= 1,
        forall|i: int|
            0 <= i < report_lines(text).len() ==> 1 <= (#[trigger] report_lines(text)[i]).len()
                <= LINE_CAPACITY && report_lines(text)[i].last() == 0u8,
{
    let start = WriterView { reported: Seq::<Seq<u8>>::empty(), line: Seq::<u8>::empty() };
    fed_all_keeps_lines_fit(start, text.push('\0'));
    let end = fed_all(start, text.push('\0'));
    fed_keeps_lines_fit(end, '\n');
}

} // verus!
