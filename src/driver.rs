//! The interactive upgrade driver: assembles the child's output into lines,
//! drops known noise, spots prompts in the unterminated line, and after the
//! first prompt passes everything through untouched.
use vstd::prelude::*;
use crate::progress::clean_line;
use crate::text::{contains, contains_str, ends_with, ends_with_str, strip_ansi, trim_str};

verus! {

/// Lines that carry information the tool already shows in its summary.
pub open spec fn is_noise(t: Seq<char>) -> bool {
    ||| contains(t, "Total Download Size:"@)
    ||| contains(t, "Total Installed Size:"@)
    ||| contains(t, "Net Upgrade Size:"@)
    ||| contains(t, "resolving dependencies"@)
    ||| contains(t, "looking for conflicting packages"@)
    ||| contains(t, ":: Starting full system upgrade..."@)
}

/// A line worth showing: visible text that is not blank and not noise.
pub open spec fn keep_line(line: Seq<char>) -> bool {
    let t = clean_line(line);
    t.len() > 0 && !is_noise(t)
}

pub open spec fn should_print_spec(line: Seq<char>, filter: bool) -> bool {
    !filter || keep_line(line)
}

/// The unterminated output asks the operator something.
pub open spec fn is_prompt(b: Seq<char>) -> bool {
    ends_with(b, "[Y/n] "@) || (contains(b, "::"@) && ends_with(b, "]: "@))
}

/// The prompt that gets a blank line before it.
pub open spec fn is_install_prompt(b: Seq<char>) -> bool {
    contains(b, "Proceed with installation"@)
}

/// Whether a finished line of upgrade output is shown.
pub fn filter_upgrade_line(line: &str) -> (r: bool)
    ensures
        r == keep_line(line@),
{
    let clean = strip_ansi(line);
    let t = trim_str(clean.as_str());
    let ts = t.as_str();
    if ts.unicode_len() == 0 {
        return false;
    }
    if contains_str(ts, "Total Download Size:") || contains_str(ts, "Total Installed Size:")
        || contains_str(ts, "Net Upgrade Size:") {
        return false;
    }
    if contains_str(ts, "resolving dependencies") || contains_str(
        ts,
        "looking for conflicting packages",
    ) || contains_str(ts, ":: Starting full system upgrade...") {
        return false;
    }
    true
}

pub fn should_print(line: &str, filter: bool) -> (r: bool)
    ensures
        r == should_print_spec(line@, filter),
{
    if filter {
        filter_upgrade_line(line)
    } else {
        true
    }
}

/// Collects characters into lines: `\n` ends a line, `\r` is dropped.
pub struct LineAssembler {
    pub buffer: String,
}

impl LineAssembler {
    pub fn new() -> (r: LineAssembler)
        ensures
            r.buffer@ == Seq::<char>::empty(),
    {
        LineAssembler { buffer: String::new() }
    }

    /// The line collected so far, not yet terminated.
    pub fn partial(&self) -> (r: &str)
        ensures
            r@ == self.buffer@,
    {
        self.buffer.as_str()
    }

    /// Feeds one character; a finished line comes back and the buffer empties.
    pub fn push(&mut self, c: char) -> (r: Option<String>)
        ensures
            c == '\n' ==> (r matches Some(l) && l@ == old(self).buffer@),
            c == '\n' ==> final(self).buffer@ == Seq::<char>::empty(),
            c == '\r' ==> r is None && final(self).buffer@ == old(self).buffer@,
            c != '\n' && c != '\r' ==> r is None && final(self).buffer@ == old(
                self,
            ).buffer@.push(c),
    {
        if c == '\n' {
            let line = self.buffer.clone();
            self.buffer = String::new();
            Some(line)
        } else if c == '\r' {
            None
        } else {
            self.buffer.push(c);
            None
        }
    }

    /// Hands out the unterminated line and empties the buffer.
    pub fn take_partial(&mut self) -> (r: String)
        ensures
            r@ == old(self).buffer@,
            final(self).buffer@ == Seq::<char>::empty(),
    {
        let line = self.buffer.clone();
        self.buffer = String::new();
        line
    }
}

/// Whether output is still read line by line, or passed through raw.
#[derive(Clone, Copy, Debug, PartialEq, Eq, Structural)]
pub enum DriverMode {
    LineFiltered,
    RawPassthrough,
}

/// What the driver asks its caller to write.
pub enum DriverOutput {
    /// A finished line, to be printed with a newline.
    Line(String),
    /// A prompt: print it when `visible` (after a blank line when `separate`),
    /// then read one line from the operator and send it to the child.
    Prompt { text: String, visible: bool, separate: bool },
    /// Text to write verbatim.
    Raw(String),
}

/// A driver output, with its text as characters.
pub enum OutputView {
    Line(Seq<char>),
    Prompt(Seq<char>, bool, bool),
    Raw(Seq<char>),
}

impl View for DriverOutput {
    type V = OutputView;

    open spec fn view(&self) -> OutputView {
        match self {
            DriverOutput::Line(l) => OutputView::Line(l@),
            DriverOutput::Prompt { text, visible, separate } => OutputView::Prompt(
                text@,
                *visible,
                *separate,
            ),
            DriverOutput::Raw(s) => OutputView::Raw(s@),
        }
    }
}

pub open spec fn outputs_view(v: Seq<DriverOutput>) -> Seq<OutputView> {
    v.map_values(|o: DriverOutput| o@)
}

/// One character in line mode: whether a prompt switched to raw mode, the
/// new partial line, and what is written.
pub open spec fn drive_char(filter: bool, buf: Seq<char>, c: char) -> (bool, Seq<char>, Seq<OutputView>) {
    if c == '\n' {
        (
            false,
            Seq::empty(),
            if should_print_spec(buf, filter) {
                seq![OutputView::Line(buf)]
            } else {
                Seq::empty()
            },
        )
    } else if c == '\r' {
        (false, buf, Seq::empty())
    } else {
        let b = buf.push(c);
        if is_prompt(b) {
            (
                true,
                Seq::empty(),
                seq![OutputView::Prompt(b, should_print_spec(b, filter), is_install_prompt(b))],
            )
        } else {
            (false, b, Seq::empty())
        }
    }
}

/// A chunk of output: final raw flag, partial line, and what is written.
/// Once raw, the rest of the chunk is written as it came.
pub open spec fn drive(filter: bool, raw: bool, buf: Seq<char>, s: Seq<char>) -> (bool, Seq<char>, Seq<OutputView>)
    decreases s.len(),
{
    if raw {
        (true, buf, if s.len() > 0 { seq![OutputView::Raw(s)] } else { Seq::empty() })
    } else if s.len() == 0 {
        (false, buf, Seq::empty())
    } else {
        let a = drive_char(filter, buf, s[0]);
        let b = drive(filter, a.0, a.1, s.drop_first());
        (b.0, b.1, a.2 + b.2)
    }
}

/// The style reset written when a session ends.
pub open spec fn style_reset() -> Seq<char> {
    "\u{1b}[0m"@
}

/// The interactive driver's state.
pub struct InteractiveDriver {
    pub mode: DriverMode,
    pub lines: LineAssembler,
    pub filter: bool,
}

impl InteractiveDriver {
    pub open spec fn is_raw(&self) -> bool {
        self.mode == DriverMode::RawPassthrough
    }

    pub fn new(filter: bool) -> (r: InteractiveDriver)
        ensures
            r.mode == DriverMode::LineFiltered,
            r.lines.buffer@ == Seq::<char>::empty(),
            r.filter == filter,
    {
        InteractiveDriver { mode: DriverMode::LineFiltered, lines: LineAssembler::new(), filter }
    }

    pub fn raw(&self) -> (r: bool)
        ensures
            r == self.is_raw(),
    {
        match self.mode {
            DriverMode::RawPassthrough => true,
            DriverMode::LineFiltered => false,
        }
    }

    /// Feeds a chunk of the child's output; returns what to write, in order.
    /// Raw pass-through, once entered, is never left.
    pub fn feed(&mut self, chunk: &str) -> (r: Vec<DriverOutput>)
        ensures
            ({
                let d = drive(old(self).filter, old(self).is_raw(), old(self).lines.buffer@, chunk@);
                &&& final(self).is_raw() == d.0
                &&& final(self).lines.buffer@ == d.1
                &&& outputs_view(r@) == d.2
            }),
            final(self).filter == old(self).filter,
            old(self).is_raw() ==> final(self).is_raw(),
    {
        let ghost d = drive(self.filter, self.is_raw(), self.lines.buffer@, chunk@);
        let n = chunk.unicode_len();
        let mut out: Vec<DriverOutput> = Vec::new();
        if self.raw() {
            if n > 0 {
                out.push(DriverOutput::Raw(chunk.to_owned()));
            }
            assert(outputs_view(out@) =~= d.2);
            return out;
        }
        let mut i: usize = 0;
        proof {
            assert(chunk@.skip(0) =~= chunk@);
        }
        while i < n
            invariant
                n == chunk@.len(),
                i <= n,
                !self.is_raw(),
                self.filter == old(self).filter,
                d == drive(old(self).filter, old(self).is_raw(), old(self).lines.buffer@, chunk@),
                ({
                    let rest = drive(self.filter, false, self.lines.buffer@, chunk@.skip(i as int));
                    &&& rest.0 == d.0
                    &&& rest.1 == d.1
                    &&& outputs_view(out@) + rest.2 == d.2
                }),
            decreases n - i,
        {
            let c = chunk.get_char(i);
            let ghost buf0 = self.lines.buffer@;
            let ghost outs0 = out@;
            proof {
                assert(chunk@.skip(i as int).drop_first() =~= chunk@.skip(i + 1));
                assert(chunk@.skip(i as int)[0] == c);
            }
            match self.lines.push(c) {
                Some(line) => {
                    if should_print(line.as_str(), self.filter) {
                        out.push(DriverOutput::Line(line));
                    }
                    proof {
                        assert(outputs_view(out@) =~= outputs_view(outs0) + drive_char(
                            self.filter,
                            buf0,
                            c,
                        ).2);
                    }
                },
                None => {
                    if c != '\r' {
                        let b = self.lines.partial();
                        if ends_with_str(b, "[Y/n] ") || (contains_str(b, "::") && ends_with_str(
                            b,
                            "]: ",
                        )) {
                            let visible = should_print(b, self.filter);
                            let separate = contains_str(b, "Proceed with installation");
                            let text = self.lines.take_partial();
                            let ghost b = text@;
                            out.push(DriverOutput::Prompt { text, visible, separate });
                            self.mode = DriverMode::RawPassthrough;
                            if i + 1 < n {
                                out.push(DriverOutput::Raw(chunk.substring_char(i + 1, n).to_owned()));
                            }
                            proof {
                                let rest = chunk@.skip(i + 1);
                                assert(chunk@.subrange(i + 1, n as int) =~= rest);
                                assert(b == buf0.push(c));
                                let a = drive_char(self.filter, buf0, c);
                                assert(a.0);
                                assert(a.1 == Seq::<char>::empty());
                                assert(a.2 == seq![OutputView::Prompt(b, visible, separate)]);
                                let tail = drive(self.filter, true, Seq::empty(), rest);
                                assert(drive(self.filter, false, buf0, chunk@.skip(i as int)) == (
                                    tail.0,
                                    tail.1,
                                    a.2 + tail.2,
                                ));
                                assert(outputs_view(out@) =~= outputs_view(outs0) + a.2 + tail.2);
                            }
                            return out;
                        }
                    }
                    assert(outputs_view(out@) =~= outputs_view(outs0));
                },
            }
            i += 1;
        }
        assert(outputs_view(out@) =~= d.2);
        out
    }

    /// Ends the session: the unterminated line, when it is worth showing,
    /// then the style reset.
    pub fn finish(&mut self) -> (r: Vec<DriverOutput>)
        ensures
            ({
                let buf = old(self).lines.buffer@;
                outputs_view(r@) == (if buf.len() > 0 && should_print_spec(buf, old(self).filter) {
                    seq![OutputView::Line(buf)]
                } else {
                    Seq::empty()
                }) + seq![OutputView::Raw(style_reset())]
            }),
            final(self).lines.buffer@ == Seq::<char>::empty(),
            final(self).mode == old(self).mode,
    {
        let mut out: Vec<DriverOutput> = Vec::new();
        let line = self.lines.take_partial();
        if line.as_str().unicode_len() > 0 && should_print(line.as_str(), self.filter) {
            out.push(DriverOutput::Line(line));
        }
        out.push(DriverOutput::Raw("\u{1b}[0m".to_owned()));
        proof {
            let buf = old(self).lines.buffer@;
            assert(outputs_view(out@) =~= (if buf.len() > 0 && should_print_spec(buf, self.filter) {
                seq![OutputView::Line(buf)]
            } else {
                Seq::empty()
            }) + seq![OutputView::Raw(style_reset())]);
        }
        out
    }
}

} // verus!
