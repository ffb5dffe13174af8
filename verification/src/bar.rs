//! The progress bar itself: a counter with a fixed target plus the
//! display configuration, and the formatter that renders both into a
//! single terminal line.
use vstd::prelude::*;
use vstd::string::StrSliceExecFns;
use vstd::string::StringExecFns;

verus! {

use crate::text::dec_spec;
use crate::text::dec_string;
use crate::text::digit_char;
use crate::text::digit_exec;
use crate::text::push_repeat;
use crate::text::repeat_char;
use crate::outside::bytes_str_of;

/// Configuration or construction failure.
#[derive(Clone, Copy, Debug, PartialEq, Eq, Structural)]
pub enum Error {
    /// A bar cannot be built with a total of zero: percent would be undefined.
    ZeroTotal,
    /// A bar format specification must hold exactly five glyphs.
    InvalidFormatSpec,
}

/// Unit of display for the progress counter.
#[derive(Clone, Copy, Debug, PartialEq, Eq, Structural)]
pub enum Units {
    /// Plain decimal integers.
    Plain,
    /// Humanized byte sizes.
    Bytes,
}

impl Default for Units {
    fn default() -> (r: Units)
        ensures
            r == Units::Plain,
    {
        Units::Plain
    }
}

/// Preference for reporting progress.
pub enum Reporter {
    /// Write each rendered line to standard output.
    StdOut,
    /// Write each rendered line to standard error.
    StdErr,
    /// Hand each rendered line to a callback.
    Callback(crate::outside::Sink),
    /// Produce no output.
    Suppressed,
}

impl Reporter {
    /// Both values route output the same way; a callback sink may
    /// have changed its own state.
    pub open spec fn same_kind(self, other: Reporter) -> bool {
        &&& self is StdOut <==> other is StdOut
        &&& self is StdErr <==> other is StdErr
        &&& self is Callback <==> other is Callback
        &&& self is Suppressed <==> other is Suppressed
    }
}

impl Default for Reporter {
    fn default() -> (r: Reporter)
        ensures
            r is StdErr,
    {
        Reporter::StdErr
    }
}

/// The mathematical content of a `Bar`: the counter, its target, and
/// the display configuration.
pub struct BarView {
    /// The fixed target the counter counts toward.
    pub total: nat,
    /// The progress counted so far.
    pub current: nat,
    /// Whether the rendered line carries the percent suffix.
    pub show_percent: bool,
    /// Whether the rendered line carries the counter segment.
    pub show_counter: bool,
    /// Whether the rendered line carries the bar segment.
    pub show_bar: bool,
    /// The label the line starts with.
    pub prefix: Seq<char>,
    /// Unit of display for the counter segment.
    pub units: Units,
    /// Preference for reporting progress.
    pub reporter: Reporter,
    /// The five glyphs of the bar segment, in display order: start,
    /// fill, leading edge of the fill, empty, end.
    pub glyphs: Seq<char>,
}

/// Percent completion in hundredths of a percent, rounded half up:
/// the nearest integer to `current * 10000 / total`.
pub open spec fn percent_hundredths(current: nat, total: nat) -> nat
    recommends
        total >= 1,
{
    (((current as int * 20000) / (total as int) + 1) / 2) as nat
}

/// The percent suffix of a rendered line: the percent completed to
/// exactly two decimal places, between a leading space and ` %`.
pub open spec fn percent_str_spec(current: nat, total: nat) -> Seq<char>
    recommends
        total >= 1,
{
    let h = percent_hundredths(current, total);
    seq![' '] + dec_spec(h / 100) + seq!['.', digit_char((h / 10) % 10), digit_char(h % 10), ' ', '%']
}

/// One counter value as displayed: plain decimal, or the humanized
/// byte size the outside formatter gives it.
pub open spec fn unit_spec(value: nat, units: Units) -> Seq<char> {
    match units {
        Units::Plain => dec_spec(value),
        Units::Bytes => bytes_str_of(value as i64 as int),
    }
}

/// The counter segment of a rendered line: `current / total `.
pub open spec fn counter_spec(b: BarView) -> Seq<char> {
    unit_spec(b.current, b.units) + seq![' ', '/', ' '] + unit_spec(b.total, b.units) + seq![' ']
}

/// How many of the `available` bar cells are filled: the fraction
/// completed times the cell count, rounded up.
pub open spec fn fill_count(current: nat, total: nat, available: nat) -> nat
    recommends
        total >= 1,
{
    ((current as int * available as int + total as int - 1) / (total as int)) as nat
}

/// The bar segment over `available` cells: the start glyph, the
/// filled cells (their last one the leading edge, where empty cells
/// follow), the empty cells, and the end glyph. At zero fill there is
/// no leading edge.
pub open spec fn bar_spec(b: BarView, available: nat) -> Seq<char>
    recommends
        b.total >= 1,
        b.glyphs.len() == 5,
{
    let fc = fill_count(b.current, b.total, available);
    if fc == 0 {
        seq![b.glyphs[0]] + repeat_char(b.glyphs[3], available) + seq![b.glyphs[4]]
    } else if fc >= available {
        seq![b.glyphs[0]] + repeat_char(b.glyphs[1], available) + seq![b.glyphs[4]]
    } else {
        seq![b.glyphs[0]] + repeat_char(b.glyphs[1], (fc - 1) as nat) + seq![b.glyphs[2]]
            + repeat_char(b.glyphs[3], (available - fc) as nat) + seq![b.glyphs[4]]
    }
}

/// Law: at zero progress the bar segment is the start glyph, empty
/// glyphs across every available cell, and the end glyph — no fill
/// and no leading edge.
pub proof fn lemma_bar_at_zero(b: BarView, available: nat)
    requires
        b.total >= 1,
        b.current == 0,
        available >= 1,
    ensures
        bar_spec(b, available) == seq![b.glyphs[0]] + repeat_char(b.glyphs[3], available)
            + seq![b.glyphs[4]],
{
    let t = b.total as int;
    let a = available as int;
    assert((0 * a + t - 1) / t == 0) by (nonlinear_arith)
        requires
            1 <= t,
    ;
    assert(fill_count(0, b.total, available) == 0);
}

/// Law: at full progress the bar segment is the start glyph, fill
/// glyphs across every available cell, and the end glyph — no leading
/// edge and no empty glyph.
pub proof fn lemma_bar_at_total(b: BarView, available: nat)
    requires
        b.total >= 1,
        b.current == b.total,
        available >= 1,
    ensures
        bar_spec(b, available) == seq![b.glyphs[0]] + repeat_char(b.glyphs[1], available)
            + seq![b.glyphs[4]],
{
    let t = b.total as int;
    let a = available as int;
    assert((t * a + t - 1) / t == a) by (nonlinear_arith)
        requires
            1 <= t,
            1 <= a,
    ;
    assert(fill_count(b.current, b.total, available) == available);
}

/// What a rendered line starts with: the prefix label, then the
/// counter segment where it is shown.
pub open spec fn pre_spec(b: BarView) -> Seq<char> {
    b.prefix + if b.show_counter {
        counter_spec(b)
    } else {
        Seq::<char>::empty()
    }
}

/// What a rendered line ends with: the percent suffix where it is
/// shown.
pub open spec fn suf_spec(b: BarView) -> Seq<char>
    recommends
        b.total >= 1,
{
    if b.show_percent {
        percent_str_spec(b.current, b.total)
    } else {
        Seq::<char>::empty()
    }
}

/// The whole rendered line at the given terminal width: prefix and
/// counter, then the bar segment where at least one cell is left for
/// it, then the percent suffix, padded with spaces up to the width.
pub open spec fn line_spec(b: BarView, width: nat) -> Seq<char>
    recommends
        b.total >= 1,
{
    let pre = pre_spec(b);
    let suf = suf_spec(b);
    let mid = if b.show_bar && width > pre.len() + suf.len() + 3 {
        bar_spec(b, (width - pre.len() - suf.len() - 3) as nat)
    } else {
        Seq::<char>::empty()
    };
    let line = pre + mid + suf;
    if line.len() < width {
        line + repeat_char(' ', (width - line.len()) as nat)
    } else {
        line
    }
}

/// The bar segment spans its cells and the two bounding glyphs.
pub proof fn lemma_bar_len(b: BarView, available: nat)
    requires
        b.total >= 1,
        b.current <= b.total,
    ensures
        bar_spec(b, available).len() == available + 2,
{
    let t = b.total as int;
    let a = available as int;
    let c = b.current as int;
    assert((c * a + t - 1) / t <= a) by (nonlinear_arith)
        requires
            1 <= t,
            0 <= c <= t,
            0 <= a,
    ;
    assert(fill_count(b.current, b.total, available) <= available);
}

/// Law: a rendered line is never shorter than the terminal width — a
/// shorter body is padded with spaces — so each redraw fully
/// overwrites the line before it.
pub proof fn lemma_line_covers_width(b: BarView, width: nat)
    requires
        b.total >= 1,
    ensures
        line_spec(b, width).len() >= width,
{
}

/// Law: when the bar segment is drawn — the bar is shown and at least
/// one cell is left for it — the rendered line is the terminal width
/// exactly.
pub proof fn lemma_line_fills_width(b: BarView, width: nat)
    requires
        b.total >= 1,
        b.current <= b.total,
        b.show_bar,
        width > pre_spec(b).len() + suf_spec(b).len() + 3,
    ensures
        line_spec(b, width).len() == width,
{
    let available = (width - pre_spec(b).len() - suf_spec(b).len() - 3) as nat;
    lemma_bar_len(b, available);
}

fn unit_string(value: usize, units: Units) -> (r: String)
    ensures
        r@ == unit_spec(value as nat, units),
{
    match units {
        Units::Plain => dec_string(value),
        Units::Bytes => crate::outside::humanize(#[verifier::truncate] (value as i64)),
    }
}

/// A bar of progress information.
pub struct Bar {
    total: usize,
    /// show progress percent, defaults to true
    pub show_percent: bool,
    /// show progress counter, defaults to true
    pub show_counter: bool,
    /// show the main progress bar UI, defaults to true
    pub show_bar: bool,
    /// an arbitrary string label to prefix the display with
    pub prefix: String,
    /// preference for reporting progress
    pub reporter: Reporter,
    current: usize,
    /// unit of display for the counter
    pub units: Units,
    bar_start: char,
    bar_current: char,
    bar_current_n: char,
    bar_empty: char,
    bar_end: char,
}

impl View for Bar {
    type V = BarView;

    closed spec fn view(&self) -> BarView {
        BarView {
            total: self.total as nat,
            current: self.current as nat,
            show_percent: self.show_percent,
            show_counter: self.show_counter,
            show_bar: self.show_bar,
            prefix: self.prefix@,
            units: self.units,
            reporter: self.reporter,
            glyphs: seq![
                self.bar_start,
                self.bar_current,
                self.bar_current_n,
                self.bar_empty,
                self.bar_end,
            ],
        }
    }
}

impl BarView {
    /// Everything but the counter and the reporter: the target, the
    /// toggles, the prefix, the units and the glyphs. The reporter
    /// stands apart because a callback sink may carry state of its
    /// own.
    pub open spec fn same_config(self, other: BarView) -> bool {
        &&& self.total == other.total
        &&& self.show_percent == other.show_percent
        &&& self.show_counter == other.show_counter
        &&& self.show_bar == other.show_bar
        &&& self.prefix == other.prefix
        &&& self.units == other.units
        &&& self.glyphs == other.glyphs
    }
}

impl Bar {
    /// A bar is well formed when its target is positive, so that
    /// percent completion is defined.
    pub open spec fn wf(&self) -> bool {
        self@.total >= 1
    }

    /// Creates a new bar counting from zero toward `total`.
    ///
    /// A zero total is rejected: percent completion would be
    /// undefined. A fresh bar shows counter, percent and bar, has an
    /// empty prefix, plain units, reports to standard error, and uses
    /// the format `[=>_]`.
    pub fn new(total: usize) -> (r: Result<Bar, Error>)
        ensures
            total == 0 <==> r is Err,
            r is Err ==> r->Err_0 == Error::ZeroTotal,
            r is Ok ==> ({
                let b = r->Ok_0;
                &&& b.wf()
                &&& b@.total == total
                &&& b@.current == 0
                &&& b@.show_percent
                &&& b@.show_counter
                &&& b@.show_bar
                &&& b@.prefix == Seq::<char>::empty()
                &&& b@.reporter is StdErr
                &&& b@.units == Units::Plain
                &&& b@.glyphs == seq!['[', '=', '>', '_', ']']
            }),
    {
        if total == 0 {
            return Err(Error::ZeroTotal);
        }
        let bar = Bar {
            total,
            show_percent: true,
            show_counter: true,
            show_bar: true,
            prefix: String::new(),
            reporter: Reporter::StdErr,
            current: 0,
            units: Units::Plain,
            bar_start: '[',
            bar_current: '=',
            bar_current_n: '>',
            bar_empty: '_',
            bar_end: ']',
        };
        proof {
            assert(bar@.glyphs =~= seq!['[', '=', '>', '_', ']']);
        }
        Ok(bar)
    }

    /// Installs a custom five-glyph format, in display order: start,
    /// fill, leading edge, empty, end. Example: `bar.format("[=>_]")`.
    ///
    /// A specification of any other length is rejected and the
    /// previous format is retained.
    pub fn format(&mut self, spec: &str) -> (r: Result<(), Error>)
        ensures
            final(self)@.current == old(self)@.current,
            final(self)@.total == old(self)@.total,
            final(self)@.show_percent == old(self)@.show_percent,
            final(self)@.show_counter == old(self)@.show_counter,
            final(self)@.show_bar == old(self)@.show_bar,
            final(self)@.prefix == old(self)@.prefix,
            final(self)@.reporter == old(self)@.reporter,
            final(self)@.units == old(self)@.units,
            spec@.len() == 5 <==> r is Ok,
            r is Ok ==> final(self)@.glyphs == spec@,
            r is Err ==> r->Err_0 == Error::InvalidFormatSpec && final(self)@.glyphs == old(
                self,
            )@.glyphs,
    {
        if spec.unicode_len() == 5 {
            self.bar_start = spec.get_char(0);
            self.bar_current = spec.get_char(1);
            self.bar_current_n = spec.get_char(2);
            self.bar_empty = spec.get_char(3);
            self.bar_end = spec.get_char(4);
            proof {
                assert(self@.glyphs =~= spec@);
            }
            Ok(())
        } else {
            Err(Error::InvalidFormatSpec)
        }
    }

    /// Installs the label the display is prefixed with.
    pub fn set_prefix(&mut self, prefix: String)
        ensures
            final(self)@ == (BarView { prefix: prefix@, ..old(self)@ }),
    {
        self.prefix = prefix;
    }

    /// Toggles the percent suffix.
    pub fn set_show_percent(&mut self, show: bool)
        ensures
            final(self)@ == (BarView { show_percent: show, ..old(self)@ }),
    {
        self.show_percent = show;
    }

    /// Toggles the counter segment.
    pub fn set_show_counter(&mut self, show: bool)
        ensures
            final(self)@ == (BarView { show_counter: show, ..old(self)@ }),
    {
        self.show_counter = show;
    }

    /// Toggles the bar segment.
    pub fn set_show_bar(&mut self, show: bool)
        ensures
            final(self)@ == (BarView { show_bar: show, ..old(self)@ }),
    {
        self.show_bar = show;
    }

    /// Chooses the unit the counter is displayed in.
    pub fn set_units(&mut self, units: Units)
        ensures
            final(self)@ == (BarView { units, ..old(self)@ }),
    {
        self.units = units;
    }

    /// Chooses where rendered lines are reported.
    pub fn set_reporter(&mut self, reporter: Reporter)
        ensures
            final(self)@ == (BarView { reporter, ..old(self)@ }),
    {
        self.reporter = reporter;
    }

    /// The progress counted so far.
    pub fn current(&self) -> (c: usize)
        ensures
            c == self@.current,
    {
        self.current
    }

    /// The fixed target the bar counts toward.
    pub fn total(&self) -> (t: usize)
        ensures
            t == self@.total,
    {
        self.total
    }

    /// The percent completed, to exactly two decimal places, between
    /// a leading space and ` %`.
    pub fn percent_completed_str(&self) -> (r: String)
        requires
            self.wf(),
            self@.current <= self@.total,
        ensures
            r@ == percent_str_spec(self@.current, self@.total),
    {
        let c = self.current as u128;
        let t = self.total as u128;
        let q = (c * 20000) / t;
        proof {
            assert(q <= 20000) by (nonlinear_arith)
                requires
                    1 <= t,
                    c <= t,
                    q == (c as int * 20000) / (t as int),
            ;
        }
        let h = ((q + 1) / 2) as usize;
        let mut s = String::new();
        s.push(' ');
        let whole = dec_string(h / 100);
        s.append(whole.as_str());
        s.push('.');
        s.push(digit_exec((h / 10) % 10));
        s.push(digit_exec(h % 10));
        s.push(' ');
        s.push('%');
        proof {
            assert(s@ =~= percent_str_spec(self@.current, self@.total));
        }
        s
    }

    /// The counter segment: `current / total `, each value displayed
    /// in the bar's units.
    pub fn counter_str(&self) -> (r: String)
        requires
            self.wf(),
        ensures
            r@ == counter_spec(self@),
    {
        let mut s = unit_string(self.current, self.units);
        s.push(' ');
        s.push('/');
        s.push(' ');
        let t = unit_string(self.total, self.units);
        s.append(t.as_str());
        s.push(' ');
        proof {
            assert(s@ =~= counter_spec(self@));
        }
        s
    }

    /// Appends the bar segment over `available` cells to `line`.
    fn push_bar(&self, line: &mut String, available: usize)
        requires
            self.wf(),
            self@.current <= self@.total,
            available >= 1,
        ensures
            final(line)@ == old(line)@ + bar_spec(self@, available as nat),
    {
        let c = self.current as u128;
        let t = self.total as u128;
        let a = available as u128;
        proof {
            assert(c * a + (t - 1) <= u128::MAX) by (nonlinear_arith)
                requires
                    c < 0x10000000000000000,
                    a < 0x10000000000000000,
                    1 <= t <= 0xffffffffffffffff,
            ;
        }
        let num = c * a + (t - 1);
        let fc128 = num / t;
        proof {
            assert(fc128 <= a) by (nonlinear_arith)
                requires
                    1 <= t,
                    c <= t,
                    fc128 == (c as int * a as int + t as int - 1) / (t as int),
            ;
        }
        let fc = fc128 as usize;
        proof {
            assert(fc as nat == fill_count(self@.current, self@.total, available as nat));
        }
        let ghost prev = line@;
        line.push(self.bar_start);
        if fc == 0 {
            push_repeat(line, self.bar_empty, available);
            line.push(self.bar_end);
            proof {
                assert(line@ =~= prev + bar_spec(self@, available as nat));
            }
        } else if fc >= available {
            push_repeat(line, self.bar_current, available);
            line.push(self.bar_end);
            proof {
                assert(line@ =~= prev + bar_spec(self@, available as nat));
            }
        } else {
            push_repeat(line, self.bar_current, fc - 1);
            line.push(self.bar_current_n);
            push_repeat(line, self.bar_empty, available - fc);
            line.push(self.bar_end);
            proof {
                assert(line@ =~= prev + bar_spec(self@, available as nat));
            }
        }
    }

    /// Renders the one-line display for a terminal of the given
    /// width.
    pub fn render(&self, width: usize) -> (r: String)
        requires
            self.wf(),
            self@.current <= self@.total,
        ensures
            r@ == line_spec(self@, width as nat),
    {
        let mut line = self.prefix.clone();
        if self.show_counter {
            let cs = self.counter_str();
            line.append(cs.as_str());
        }
        let mut suf = String::new();
        if self.show_percent {
            let ps = self.percent_completed_str();
            suf.append(ps.as_str());
        }
        let pre_len = line.as_str().unicode_len();
        let suf_len = suf.as_str().unicode_len();
        if self.show_bar {
            let used = pre_len as u128 + suf_len as u128 + 3;
            if (width as u128) > used {
                let available = (width as u128 - used) as usize;
                self.push_bar(&mut line, available);
            }
        }
        line.append(suf.as_str());
        let line_len = line.as_str().unicode_len();
        if line_len < width {
            push_repeat(&mut line, ' ', width - line_len);
        }
        proof {
            assert(line@ =~= line_spec(self@, width as nat));
        }
        line
    }

    fn width(&self) -> usize {
        match crate::outside::term_cols() {
            Some(c) => c as usize,
            None => 80,
        }
    }

    /// Renders the one-line display at the terminal's current width,
    /// 80 columns when there is no terminal to ask.
    pub fn to_str(&self) -> (r: String)
        requires
            self.wf(),
            self@.current <= self@.total,
        ensures
            exists|w: nat| r@ == line_spec(self@, w),
    {
        let width = self.width();
        let r = self.render(width);
        proof {
            assert(r@ == line_spec(self@, width as nat));
        }
        r
    }

    /// Renders the current line and delivers it as the reporter
    /// directs: preceded by a carriage return on a standard stream,
    /// as it stands to a callback, nowhere when suppressed.
    fn progress(&mut self)
        requires
            old(self).wf(),
            old(self)@.current <= old(self)@.total,
        ensures
            final(self).wf(),
            final(self)@.current == old(self)@.current,
            final(self)@.same_config(old(self)@),
            final(self)@.reporter.same_kind(old(self)@.reporter),
    {
        let line = self.to_str();
        match &mut self.reporter {
            Reporter::StdOut => {
                let mut out = String::new();
                out.push('\r');
                out.append(line.as_str());
                crate::outside::emit_stdout(out.as_str());
            },
            Reporter::StdErr => {
                let mut out = String::new();
                out.push('\r');
                out.append(line.as_str());
                crate::outside::emit_stderr(out.as_str());
            },
            Reporter::Callback(sink) => {
                sink.accept(line);
            },
            Reporter::Suppressed => {},
        }
    }

    /// Redraws the display without changing the counter. Nothing is
    /// drawn once the counter exceeds the total.
    pub fn update(&mut self)
        requires
            old(self).wf(),
        ensures
            final(self).wf(),
            final(self)@.current == old(self)@.current,
            final(self)@.same_config(old(self)@),
            final(self)@.reporter.same_kind(old(self)@.reporter),
    {
        if self.current <= self.total {
            self.progress();
        }
    }

    /// Adds `delta` to the counter, returns the value the counter had
    /// before, and redraws the display.
    pub fn add(&mut self, delta: usize) -> (prev: usize)
        requires
            old(self).wf(),
            old(self)@.current + delta <= usize::MAX,
        ensures
            final(self).wf(),
            prev == old(self)@.current,
            final(self)@.current == old(self)@.current + delta,
            final(self)@.same_config(old(self)@),
            final(self)@.reporter.same_kind(old(self)@.reporter),
    {
        let prev = self.current;
        self.current = prev + delta;
        self.update();
        prev
    }

    /// Adds one to the counter, returns the value the counter had
    /// before, and redraws the display.
    pub fn incr(&mut self) -> (prev: usize)
        requires
            old(self).wf(),
            old(self)@.current + 1 <= usize::MAX,
        ensures
            final(self).wf(),
            prev == old(self)@.current,
            final(self)@.current == old(self)@.current + 1,
            final(self)@.same_config(old(self)@),
            final(self)@.reporter.same_kind(old(self)@.reporter),
    {
        self.add(1)
    }

    /// Overwrites the counter with `value`, which may move it up or
    /// down, and redraws the display.
    pub fn set(&mut self, value: usize)
        requires
            old(self).wf(),
        ensures
            final(self).wf(),
            final(self)@.current == value,
            final(self)@.same_config(old(self)@),
            final(self)@.reporter.same_kind(old(self)@.reporter),
    {
        self.current = value;
        self.update();
    }

    /// Ends the progress line and prints `msg` on a line of its own,
    /// on standard output.
    pub fn finish_print(&self, msg: &str) {
        let text = finish_text(msg);
        crate::outside::emit_stdout(text.as_str());
    }
}

/// The text a finished bar leaves behind: a line break ending the
/// progress line, then the message on a line of its own.
pub fn finish_text(msg: &str) -> (r: String)
    ensures
        r@ == seq!['\n'] + msg@ + seq!['\n'],
{
    let mut s = String::new();
    s.push('\n');
    s.append(msg);
    s.push('\n');
    proof {
        assert(s@ =~= seq!['\n'] + msg@ + seq!['\n']);
    }
    s
}

} // verus!
