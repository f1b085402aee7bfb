use vstd::prelude::*;
use vstd::string::*;

verus! {

/// The characters that Unicode gives the White_Space property.
pub open spec fn is_ws(c: char) -> bool {
    ||| ('\u{9}' <= c && c <= '\u{d}')
    ||| c == ' '
    ||| c == '\u{85}'
    ||| c == '\u{a0}'
    ||| c == '\u{1680}'
    ||| ('\u{2000}' <= c && c <= '\u{200a}')
    ||| c == '\u{2028}'
    ||| c == '\u{2029}'
    ||| c == '\u{202f}'
    ||| c == '\u{205f}'
    ||| c == '\u{3000}'
}

/// A line is blank when nothing but whitespace is left after trimming it.
pub open spec fn is_blank(line: Seq<char>) -> bool {
    forall|i: int| 0 <= i < line.len() ==> is_ws(#[trigger] line[i])
}

/// The abstract state of a capture: what was buffered, how many blank lines
/// came in a row, and whether input has ended.
pub ghost struct CaptureState {
    pub buffer: Seq<char>,
    pub blanks: nat,
    pub terminated: bool,
}

pub open spec fn initial_state() -> CaptureState {
    CaptureState { buffer: Seq::empty(), blanks: 0, terminated: false }
}

/// One input line applied to a capture.
pub open spec fn step(s: CaptureState, line: Seq<char>) -> CaptureState {
    if s.terminated {
        s
    } else if is_blank(line) {
        if s.blanks + 1 >= 2 {
            CaptureState { buffer: s.buffer, blanks: s.blanks + 1, terminated: true }
        } else {
            CaptureState { buffer: s.buffer.push('\n'), blanks: s.blanks + 1, terminated: false }
        }
    } else {
        CaptureState { buffer: s.buffer + line.push('\n'), blanks: 0, terminated: false }
    }
}

/// The capture after the given lines, from the initial state.
pub open spec fn run(lines: Seq<Seq<char>>) -> CaptureState
    decreases lines.len(),
{
    if lines.len() == 0 {
        initial_state()
    } else {
        step(run(lines.drop_last()), lines.last())
    }
}

/// The text that a capture of `lines` writes out.
pub open spec fn captured(lines: Seq<Seq<char>>) -> Seq<char> {
    run(lines).buffer
}

/// Whether `c` is a whitespace character.
pub fn is_whitespace_char(c: char) -> (r: bool)
    ensures
        r == is_ws(c),
{
    ('\u{9}' <= c && c <= '\u{d}') || c == ' ' || c == '\u{85}' || c == '\u{a0}' || c
        == '\u{1680}' || ('\u{2000}' <= c && c <= '\u{200a}') || c == '\u{2028}' || c
        == '\u{2029}' || c == '\u{202f}' || c == '\u{205f}' || c == '\u{3000}'
}

/// Whether `line` holds whitespace only.
pub fn line_is_blank(line: &str) -> (r: bool)
    ensures
        r == is_blank(line@),
{
    let n = line.unicode_len();
    let mut i: usize = 0;
    while i < n
        invariant
            n == line@.len(),
            i <= n,
            forall|j: int| 0 <= j < i ==> is_ws(#[trigger] line@[j]),
        decreases n - i,
    {
        let c = line.get_char(i);
        if !is_whitespace_char(c) {
            return false;
        }
        i = i + 1;
    }
    true
}

/// Captures text line by line until two blank lines come in a row.
pub struct InteractiveWriter {
    buffer: String,
    blanks: u8,
    terminated: bool,
}

impl View for InteractiveWriter {
    type V = CaptureState;

    closed spec fn view(&self) -> CaptureState {
        CaptureState { buffer: self.buffer@, blanks: self.blanks as nat, terminated: self.terminated }
    }
}

impl InteractiveWriter {
    /// Whether the counters are in range: while reading, at most one blank
    /// line has come in a row.
    pub closed spec fn wf(&self) -> bool {
        self.terminated || self.blanks <= 1
    }

    /// A capture that has read nothing yet.
    pub fn new() -> (r: Self)
        ensures
            r@ == initial_state(),
            r.wf(),
    {
        InteractiveWriter { buffer: String::new(), blanks: 0, terminated: false }
    }

    /// Whether input has ended with two blank lines in a row.
    pub fn is_terminated(&self) -> (r: bool)
        ensures
            r == self@.terminated,
    {
        self.terminated
    }

    /// The text buffered so far.
    pub fn content(&self) -> (r: &String)
        ensures
            r@ == self@.buffer,
    {
        &self.buffer
    }

    /// Takes in one line; returns whether more lines are wanted.
    pub fn feed(&mut self, line: &str) -> (more: bool)
        requires
            old(self).wf(),
        ensures
            final(self).wf(),
            final(self)@ == step(old(self)@, line@),
            more == !final(self)@.terminated,
    {
        if self.terminated {
            return false;
        }
        if line_is_blank(line) {
            self.blanks = self.blanks + 1;
            if self.blanks >= 2 {
                self.terminated = true;
                return false;
            }
            self.buffer.append("\n");
            proof {
                reveal_strlit("\n");
                assert(self.buffer@ =~= old(self)@.buffer.push('\n'));
            }
        } else {
            self.blanks = 0;
            self.buffer.append(line);
            self.buffer.append("\n");
            proof {
                reveal_strlit("\n");
                assert(self.buffer@ =~= old(self)@.buffer + line@.push('\n'));
            }
        }
        true
    }
}

/// The text written for the given input lines: every line up to the second
/// of two blank lines in a row, or all of them where that never comes.
pub fn capture(lines: &Vec<String>) -> (r: String)
    ensures
        r@ == captured(lines@.map_values(|l: String| l@)),
{
    let ghost views = lines@.map_values(|l: String| l@);
    let mut w = InteractiveWriter::new();
    let mut i: usize = 0;
    loop
        invariant
            w.wf(),
            i <= lines.len(),
            views == lines@.map_values(|l: String| l@),
            w@ == run(views.subrange(0, i as int)),
        ensures
            w@ == run(views),
        decreases lines.len() - i,
    {
        if i >= lines.len() {
            proof {
                assert(views.subrange(0, i as int) =~= views);
            }
            break;
        }
        proof {
            assert(views.subrange(0, i + 1).drop_last() =~= views.subrange(0, i as int));
        }
        let more = w.feed(lines[i].as_str());
        i = i + 1;
        if !more {
            proof {
                lemma_run_stops(views, i as int);
            }
            break;
        }
    }
    w.buffer
}

/// Once a capture has ended, further lines leave it as it is.
pub proof fn lemma_run_stops(lines: Seq<Seq<char>>, k: int)
    requires
        0 <= k <= lines.len(),
        k < lines.len() ==> run(lines.subrange(0, k)).terminated,
    ensures
        run(lines) == run(lines.subrange(0, k)),
    decreases lines.len() - k,
{
    if k < lines.len() {
        assert(lines.subrange(0, k + 1).drop_last() =~= lines.subrange(0, k));
        lemma_run_stops(lines, k + 1);
    } else {
        assert(lines.subrange(0, k) =~= lines);
    }
}

/// Once two blank lines have come in a row, nothing read after them reaches
/// the text that is written.
pub proof fn lemma_rest_is_never_written(read: Seq<Seq<char>>, rest: Seq<Seq<char>>)
    requires
        run(read).terminated,
    ensures
        captured(read + rest) == captured(read),
{
    let all = read + rest;
    assert(all.subrange(0, read.len() as int) =~= read);
    lemma_run_stops(all, read.len() as int);
}

} // verus!
