use std::sync::mpsc::Sender;
use std::time::Instant;
use vstd::arithmetic::div_mod::{
    lemma_div_is_ordered, lemma_div_multiples_vanish, lemma_fundamental_div_mod,
    lemma_hoist_over_denominator,
};
use vstd::prelude::*;
use vstd::string::*;

use crate::format::{count_text, span_text, FormattedTime, FormattedUnit, TimeFormat, UnitFormat};
use crate::style::{glyphs, is_default_layout, Component, ProgressBarStyle};
use crate::sys::{handed, send_draw_info, time_between};
use crate::term::{cursor_down_text, cursor_up_text, Term, TERM_DEFAULT_WIDTH};
use crate::text::{
    dec_digits, div_round_even, pad_left, pad_right, push_decimal, push_pad_left, push_pad_right,
    push_repeat, repeat_char, round_half_even,
};
use crate::util::{clamp_span, TimeSpan, MAX_SPAN_NANOS, NANOS_PER_SEC};

verus! {

/// A rendered line and whether its bar has finished.
pub struct ProgressBarDrawInfo {
    pub line: String,
    pub done: bool,
}

/// Where a bar's lines go: straight to a terminal stream, or into the queue
/// of a coordinator, tagged with the bar's slot.
pub enum ProgressBarTargetKind {
    Term(Term),
    Channel(usize, Sender<(usize, ProgressBarDrawInfo)>),
}

/// What a target is, for proofs: a terminal, or a relay to the slot `index`
/// of a coordinator.
pub enum TargetModel {
    Terminal,
    Relay(usize),
}

/// The place that a bar, or a coordinator, draws on.
pub struct ProgressBarTarget {
    kind: ProgressBarTargetKind,
}

impl View for ProgressBarTarget {
    type V = TargetModel;

    closed spec fn view(&self) -> TargetModel {
        match self.kind {
            ProgressBarTargetKind::Term(_) => TargetModel::Terminal,
            ProgressBarTargetKind::Channel(index, _) => TargetModel::Relay(index),
        }
    }
}

/// What a target puts on the terminal for `s`: all of it on a terminal,
/// nothing on a relay.
pub open spec fn terminal_bytes(t: TargetModel, s: Seq<char>) -> Seq<char> {
    match t {
        TargetModel::Terminal => s,
        TargetModel::Relay(_) => Seq::empty(),
    }
}

impl ProgressBarTarget {
    /// The messages that the coordinator's queue has taken from this target:
    /// none for a terminal.
    pub closed spec fn queued(&self) -> Seq<(usize, Seq<char>, bool)> {
        match self.kind {
            ProgressBarTargetKind::Term(_) => Seq::empty(),
            ProgressBarTargetKind::Channel(_, tx) => handed(tx),
        }
    }

    /// The standard output stream.
    pub fn stdout() -> (r: ProgressBarTarget)
        ensures
            r@ == TargetModel::Terminal,
            r.queued() == Seq::<(usize, Seq<char>, bool)>::empty(),
    {
        ProgressBarTarget { kind: ProgressBarTargetKind::Term(Term::stdout()) }
    }

    /// The standard error stream.
    pub fn stderr() -> (r: ProgressBarTarget)
        ensures
            r@ == TargetModel::Terminal,
            r.queued() == Seq::<(usize, Seq<char>, bool)>::empty(),
    {
        ProgressBarTarget { kind: ProgressBarTargetKind::Term(Term::stderr()) }
    }

    /// The slot `index` of the coordinator that receives from `tx`.
    pub fn channel(index: usize, tx: Sender<(usize, ProgressBarDrawInfo)>) -> (r:
        ProgressBarTarget)
        ensures
            r@ == TargetModel::Relay(index),
            r.queued() == handed(tx),
    {
        ProgressBarTarget { kind: ProgressBarTargetKind::Channel(index, tx) }
    }

    /// The terminal stream of a terminal target.
    pub fn terminal(&self) -> (r: Option<Term>)
        ensures
            r is Some <==> self@ is Terminal,
    {
        match self.kind {
            ProgressBarTargetKind::Term(term) => Some(term),
            ProgressBarTargetKind::Channel(_, _) => None,
        }
    }

    /// The width to draw in, given the window size that the terminal
    /// reported, if any: the reported width, or 79 columns where the
    /// terminal reports none; a relay has no width of its own.
    pub fn terminal_width(&self, reported: Option<(usize, usize)>) -> (r: usize)
        ensures
            r == match self@ {
                TargetModel::Terminal => match reported {
                    Some((w, _)) => w,
                    None => TERM_DEFAULT_WIDTH,
                },
                TargetModel::Relay(_) => 0,
            },
    {
        match self.kind {
            ProgressBarTargetKind::Term(_) => match reported {
                Some((w, _)) => w,
                None => TERM_DEFAULT_WIDTH,
            },
            ProgressBarTargetKind::Channel(_, _) => 0,
        }
    }

    /// The bytes that move this target's cursor `n` lines up.
    pub fn move_cursor_up(&self, n: usize) -> (r: String)
        ensures
            r@ == terminal_bytes(self@, cursor_up_text(n as nat)),
    {
        match self.kind {
            ProgressBarTargetKind::Term(ref term) => term.move_cursor_up(n),
            ProgressBarTargetKind::Channel(_, _) => String::new(),
        }
    }

    /// The bytes that move this target's cursor `n` lines down.
    pub fn move_cursor_down(&self, n: usize) -> (r: String)
        ensures
            r@ == terminal_bytes(self@, cursor_down_text(n as nat)),
    {
        match self.kind {
            ProgressBarTargetKind::Term(ref term) => term.move_cursor_down(n),
            ProgressBarTargetKind::Channel(_, _) => String::new(),
        }
    }

    /// The bytes that this target puts on the terminal for `line`.
    pub fn draw(&self, line: &str) -> (r: String)
        ensures
            r@ == terminal_bytes(self@, line@),
    {
        match self.kind {
            ProgressBarTargetKind::Term(_) => line.to_owned(),
            ProgressBarTargetKind::Channel(_, _) => String::new(),
        }
    }

    /// Hands a bar's line on: a terminal target appends it to `out`, the
    /// bytes to write; a relay queues it for its coordinator, tagged with its
    /// slot. Tells whether the line was taken: a relay whose coordinator is
    /// gone drops it.
    pub fn handle_draw_info(&mut self, info: ProgressBarDrawInfo, out: &mut String) -> (taken: bool)
        ensures
            final(self)@ == old(self)@,
            final(out)@ == old(out)@ + terminal_bytes(old(self)@, info.line@),
            final(self).queued() == queued_after(
                old(self)@,
                old(self).queued(),
                info.line@,
                info.done,
                taken,
            ),
            old(self)@ is Terminal ==> taken,
    {
        match &mut self.kind {
            ProgressBarTargetKind::Term(_) => {
                out.append(info.line.as_str());
                true
            },
            ProgressBarTargetKind::Channel(index, tx) => send_draw_info(tx, *index, info),
        }
    }
}

/// The messages a coordinator's queue holds from a target after the line
/// `(line, done)` is handed to it: one more, tagged with the slot, where a
/// relay's queue took it.
pub open spec fn queued_after(
    t: TargetModel,
    queued: Seq<(usize, Seq<char>, bool)>,
    line: Seq<char>,
    done: bool,
    taken: bool,
) -> Seq<(usize, Seq<char>, bool)> {
    match t {
        TargetModel::Relay(index) => if taken {
            queued.push((index, line, done))
        } else {
            queued
        },
        TargetModel::Terminal => queued,
    }
}

/// The stage of a bar's life.
#[derive(Clone, Copy, PartialEq, Eq, Structural, Debug)]
pub enum BarStatus {
    InProgress,
    /// Finished, with the full bar left on screen.
    DoneVisible,
    /// Finished, with the bar replaced by a message.
    DoneClear,
}

/// The default least time between two redraws, in milliseconds.
pub const DEFAULT_REFRESH_MILLIS: u64 = 500;

/// The state of one bar: its counter, title and clock.
pub struct ProgressBarContext {
    /// The width of the terminal line.
    pub width: usize,
    pub current: u64,
    pub total: u64,
    pub title: String,
    /// The time from the bar's start to its last redraw; zero until the
    /// first redraw after the one at its start.
    pub last_refresh_time: TimeSpan,
    /// The least time between two redraws that are not forced.
    pub refresh_rate: TimeSpan,
    pub status: BarStatus,
}

impl ProgressBarContext {
    /// The counter stays within the total, and a finished bar is full.
    pub open spec fn wf(&self) -> bool {
        &&& self.current <= self.total
        &&& self.status != BarStatus::InProgress ==> self.current == self.total
    }

    /// The time from the start to the last redraw, in nanoseconds.
    pub open spec fn elapsed_nanos(&self) -> nat {
        self.last_refresh_time@
    }

    /// The estimated time left, in nanoseconds: the elapsed time scaled by
    /// what is left over what is done; zero once finished or before any
    /// progress.
    pub open spec fn left_nanos(&self) -> nat {
        if self.current >= self.total || self.current == 0 {
            0
        } else {
            clamp_span(
                (self.elapsed_nanos() * (self.total - self.current) as nat) as int
                    / self.current as int,
            )
        }
    }

    /// The elapsed and the estimated time left together, in nanoseconds.
    pub open spec fn total_nanos(&self) -> nat {
        clamp_span(self.elapsed_nanos() + self.left_nanos() as int)
    }

    /// Counts per second, rounded half to even; zero before any time has
    /// passed.
    pub open spec fn speed_value(&self) -> nat {
        if self.elapsed_nanos() == 0 {
            0
        } else {
            let s = div_round_even((self.current * NANOS_PER_SEC) as nat, self.elapsed_nanos());
            if s > u64::MAX {
                u64::MAX as nat
            } else {
                s
            }
        }
    }

    /// The share done in whole percent, rounded down; a bar with nothing
    /// to count is complete.
    pub open spec fn percent_points(&self) -> nat {
        if self.total == 0 {
            100
        } else {
            (self.current * 100) as nat / (self.total as nat)
        }
    }

    /// The number of filled cells of a bar `width` cells wide.
    pub open spec fn fill_len(&self, width: nat) -> nat {
        if self.total == 0 {
            width
        } else {
            (self.current * width) as nat / (self.total as nat)
        }
    }

    /// A fresh bar counting to `total`: at zero, untitled, 79 columns wide,
    /// redrawn at most every 500 ms.
    pub fn new(total: u64) -> (r: ProgressBarContext)
        ensures
            r.wf(),
            r.current == 0,
            r.total == total,
            r.title@ == Seq::<char>::empty(),
            r.width == TERM_DEFAULT_WIDTH,
            r.last_refresh_time@ == 0,
            r.refresh_rate@ == DEFAULT_REFRESH_MILLIS * 1_000_000,
            r.status == BarStatus::InProgress,
    {
        ProgressBarContext {
            width: TERM_DEFAULT_WIDTH,
            current: 0,
            total,
            title: String::new(),
            last_refresh_time: TimeSpan::zero(),
            refresh_rate: TimeSpan::from_millis(DEFAULT_REFRESH_MILLIS),
            status: BarStatus::InProgress,
        }
    }

    /// Whether the counter has reached the total.
    pub fn is_finish(&self) -> (r: bool)
        ensures
            r == (self.current >= self.total),
    {
        self.current >= self.total
    }

    /// The counter and the total.
    pub fn current(&self) -> (r: (u64, u64))
        ensures
            r == (self.current, self.total),
    {
        (self.current, self.total)
    }

    /// The share done, as a fraction (numerator, denominator): one when
    /// there is nothing to count, else the counter over the total.
    pub fn percent(&self) -> (r: (u64, u64))
        ensures
            r.1 > 0,
            self.total == 0 ==> r == (1u64, 1u64),
            self.total > 0 ==> r == (self.current, self.total),
            self.current == 0 && self.total > 0 ==> r.0 == 0,
    {
        if self.total == 0 {
            (1, 1)
        } else {
            (self.current, self.total)
        }
    }

    /// Counts per second since the start, rounded half to even; zero before
    /// any time has passed.
    pub fn speed(&self) -> (r: u64)
        ensures
            r == self.speed_value(),
            self.current == 0 ==> r == 0,
    {
        let e = self.time_elapsed().as_nanos();
        if e == 0 {
            return 0;
        }
        assert(self.current * NANOS_PER_SEC <= u64::MAX * NANOS_PER_SEC) by (nonlinear_arith)
            requires
                self.current <= u64::MAX,
        ;
        let s = round_half_even(self.current as u128 * NANOS_PER_SEC, e);
        proof {
            if self.current == 0 {
                assert(div_round_even(0, e as nat) == 0);
            }
        }
        if s > u64::MAX as u128 {
            u64::MAX
        } else {
            s as u64
        }
    }

    /// The time from the start to the last redraw.
    pub fn time_elapsed(&self) -> (r: TimeSpan)
        ensures
            r@ == self.elapsed_nanos(),
    {
        self.last_refresh_time
    }

    /// The estimated time left.
    pub fn time_left(&self) -> (r: TimeSpan)
        ensures
            r@ == self.left_nanos(),
    {
        if self.current >= self.total || self.current == 0 {
            return TimeSpan::zero();
        }
        let e = self.time_elapsed().as_nanos();
        let c = self.current as u128;
        let k = (self.total - self.current) as u128;
        let a = e / c;
        let b = e % c;
        proof {
            lemma_scaled_quotient(e as nat, k as nat, c as nat);
            assert(b * k < 0x1_0000_0000_0000_0000_0000_0000_0000_0000) by (nonlinear_arith)
                requires
                    b < c,
                    c <= u64::MAX,
                    k <= u64::MAX,
            ;
        }
        let low = b * k / c;
        if a > MAX_SPAN_NANOS / k {
            proof {
                lemma_above_quotient(a as nat, k as nat, MAX_SPAN_NANOS as nat);
                assert(low >= 0);
            }
            return TimeSpan::from_nanos_saturating(MAX_SPAN_NANOS);
        }
        proof {
            lemma_within_quotient(a as nat, k as nat, MAX_SPAN_NANOS as nat);
            assert(low <= k) by {
                assert(b * k <= c * k) by (nonlinear_arith)
                    requires
                        b < c,
                ;
                lemma_div_is_ordered((b * k) as int, (c * k) as int, c as int);
                lemma_div_multiples_vanish(k as int, c as int);
            }
        }
        TimeSpan::from_nanos_saturating(a * k + low)
    }

    /// The elapsed and the estimated time left together.
    pub fn time_total(&self) -> (r: TimeSpan)
        ensures
            r@ == self.total_nanos(),
    {
        self.time_elapsed().saturating_add(self.time_left())
    }
}

/// Scaling by `k` before dividing by `c` splits into the whole quotient and
/// the remainder.
proof fn lemma_scaled_quotient(e: nat, k: nat, c: nat)
    requires
        c > 0,
    ensures
        (e * k) / c == (e / c) * k + ((e % c) * k) / c,
{
    lemma_fundamental_div_mod(e as int, c as int);
    let a = e / c;
    let b = e % c;
    assert(e * k == (b * k) + (a * k) * c) by (nonlinear_arith)
        requires
            e == c * a + b,
    ;
    lemma_hoist_over_denominator((b * k) as int, (a * k) as int, c);
}

proof fn lemma_above_quotient(a: nat, k: nat, m: nat)
    requires
        k > 0,
        a > m / k,
    ensures
        a * k > m,
{
    lemma_fundamental_div_mod(m as int, k as int);
    let q = m / k;
    assert(a * k >= (q + 1) * k) by (nonlinear_arith)
        requires
            a >= q + 1,
            k > 0,
    ;
    assert((q + 1) * k == k * q + k) by (nonlinear_arith);
}

proof fn lemma_within_quotient(a: nat, k: nat, m: nat)
    requires
        k > 0,
        a <= m / k,
    ensures
        a * k <= m,
{
    lemma_fundamental_div_mod(m as int, k as int);
    assert(a * k <= m) by (nonlinear_arith)
        requires
            a <= m / k,
            m == k * (m / k) + m % k,
            m % k >= 0,
    ;
}

/// The title cell: a carriage return, the title and a space.
pub open spec fn title_text(c: ProgressBarContext) -> Seq<char> {
    seq!['\r'] + c.title@ + seq![' ']
}

/// The counter cell: the count, the delimiter and the total.
pub open spec fn counter_text(c: ProgressBarContext, delimiter: Seq<char>, fmt: UnitFormat) -> Seq<
    char,
> {
    count_text(fmt, c.current as nat) + seq![' '] + delimiter + seq![' '] + count_text(
        fmt,
        c.total as nat,
    )
}

/// The percent cell, three characters wide before the sign.
pub open spec fn percent_text(c: ProgressBarContext) -> Seq<char> {
    pad_left(dec_digits(c.percent_points()), 3) + seq!['%']
}

/// The bar cell: begin, the filled cells, then the current marker and the
/// empty cells while unfinished, and end.
pub open spec fn bar_text(c: ProgressBarContext, symbols: Seq<char>, width: nat) -> Seq<char> {
    let g = glyphs(symbols);
    let fill = c.fill_len(width);
    let empty: nat = if width > fill {
        (width - fill - 1) as nat
    } else {
        0
    };
    if c.current >= c.total {
        seq![g[0]] + repeat_char(g[1], fill) + seq![g[4]]
    } else {
        seq![g[0]] + repeat_char(g[1], fill) + seq![g[2]] + repeat_char(g[3], empty) + seq![g[4]]
    }
}

/// A time cell, ten characters wide.
pub open spec fn time_cell_text(fmt: TimeFormat, nanos: nat) -> Seq<char> {
    pad_right(span_text(fmt, nanos), 10)
}

/// The speed cell: the speed eight characters wide, then its unit.
pub open spec fn speed_text(c: ProgressBarContext, fmt: UnitFormat) -> Seq<char> {
    pad_left(count_text(fmt, c.speed_value()), 8) + match fmt {
        UnitFormat::Default => seq!['i', 't', '/', 's'],
        _ => seq!['/', 's'],
    }
}

/// The cell of one component.
pub open spec fn component_text(c: ProgressBarContext, comp: Component) -> Seq<char> {
    match comp {
        Component::Counter(delimiter, fmt) => counter_text(c, delimiter@, fmt),
        Component::Speed(fmt) => speed_text(c, fmt),
        Component::Percent => percent_text(c),
        Component::Bar(symbols, width) => bar_text(c, symbols@, width as nat),
        Component::TimeLeft(fmt) => time_cell_text(fmt, c.left_nanos()),
        Component::TimeElapsed(fmt) => time_cell_text(fmt, c.elapsed_nanos()),
        Component::TimeTotal(fmt) => time_cell_text(fmt, c.total_nanos()),
        Component::Str(s) => s@,
    }
}

/// The cells of a layout in order, each followed by a space.
pub open spec fn layout_text(c: ProgressBarContext, layout: Seq<Component>) -> Seq<char>
    decreases layout.len(),
{
    if layout.len() == 0 {
        Seq::empty()
    } else {
        layout_text(c, layout.drop_last()) + component_text(c, layout.last()) + seq![' ']
    }
}

/// The whole line of a bar in state `c` drawn with `layout`.
pub open spec fn line_text(c: ProgressBarContext, layout: Seq<Component>) -> Seq<char> {
    title_text(c) + layout_text(c, layout)
}

/// A single progress bar: its state, its style, and where it draws.
pub struct ProgressBar {
    target: ProgressBarTarget,
    ctxt: ProgressBarContext,
    style: ProgressBarStyle,
    start_time: Instant,
    output: String,
}

/// What a bar is, for proofs.
pub struct BarView {
    pub ctxt: ProgressBarContext,
    pub layout: Seq<Component>,
    pub target: TargetModel,
    /// Bytes for the terminal that were drawn and not yet taken.
    pub output: Seq<char>,
    /// The lines, as (slot, line, done), that a coordinator's queue has taken
    /// from the bar; none for a bar on a terminal.
    pub sent: Seq<(usize, Seq<char>, bool)>,
}

impl View for ProgressBar {
    type V = BarView;

    closed spec fn view(&self) -> BarView {
        BarView {
            ctxt: self.ctxt,
            layout: self.style.layout@,
            target: self.target@,
            output: self.output@,
            sent: self.target.queued(),
        }
    }
}

/// `m` with `line`, marked `done` or not, handed to its target: the bytes
/// for a terminal, or a message to the coordinator, which is recorded where
/// the queue took it (`taken`).
pub open spec fn emitted(m: BarView, line: Seq<char>, done: bool, taken: bool) -> BarView {
    BarView {
        output: m.output + terminal_bytes(m.target, line),
        sent: queued_after(m.target, m.sent, line, done, taken),
        ..m
    }
}

/// Whether a bar in state `c` redraws at `now`, the time since its start:
/// when forced, when full, or once the refresh interval has passed since
/// the last redraw (or the start).
pub open spec fn redraw_due(c: ProgressBarContext, is_force: bool, now: nat) -> bool {
    ||| is_force
    ||| c.current >= c.total
    ||| (if now >= c.last_refresh_time@ {
        now - c.last_refresh_time@
    } else {
        0
    }) >= c.refresh_rate@
}

/// `m` after an update at `now` (the time since its start): redrawn if a
/// redraw is due, else unchanged.
pub open spec fn after_update(m: BarView, is_force: bool, now: TimeSpan, taken: bool) -> BarView {
    if redraw_due(m.ctxt, is_force, now@) {
        let c = ProgressBarContext { last_refresh_time: now, ..m.ctxt };
        emitted(
            BarView { ctxt: c, ..m },
            line_text(c, m.layout),
            c.status != BarStatus::InProgress,
            taken,
        )
    } else {
        m
    }
}

/// A bar just made: at zero of `total`, untitled, in the default style, with
/// its 0% line drawn once at its start. `before` is what its queue had
/// taken through its sending end beforehand.
pub open spec fn is_fresh(m: BarView, total: u64, before: Seq<(usize, Seq<char>, bool)>) -> bool {
    &&& m.ctxt.wf()
    &&& m.ctxt.current == 0
    &&& m.ctxt.total == total
    &&& m.ctxt.title@ == Seq::<char>::empty()
    &&& m.ctxt.width == TERM_DEFAULT_WIDTH
    &&& m.ctxt.last_refresh_time@ == 0
    &&& m.ctxt.refresh_rate@ == DEFAULT_REFRESH_MILLIS * 1_000_000
    &&& m.ctxt.status == BarStatus::InProgress
    &&& is_default_layout(m.layout)
    &&& m.output == terminal_bytes(m.target, line_text(m.ctxt, m.layout))
    &&& (m.sent == queued_after(m.target, before, line_text(m.ctxt, m.layout), false, true)
        || m.sent == before)
}

/// The glyph `i` that a bar with `symbols` is drawn with.
fn glyph(symbols: &Vec<char>, i: usize) -> (r: char)
    requires
        i < 5,
    ensures
        r == glyphs(symbols@)[i as int],
{
    if symbols.len() == 5 {
        symbols[i]
    } else {
        if i == 0 {
            '['
        } else if i == 1 {
            '#'
        } else if i == 2 {
            '>'
        } else if i == 3 {
            '-'
        } else {
            ']'
        }
    }
}

impl ProgressBar {
    fn with_target(total: u64, target: ProgressBarTarget) -> (r: ProgressBar)
        ensures
            is_fresh(r@, total, target.queued()),
            r@.target == target@,
    {
        let mut bar = ProgressBar {
            target,
            ctxt: ProgressBarContext::new(total),
            style: ProgressBarStyle::default(),
            start_time: Instant::now(),
            output: String::new(),
        };
        assert(bar@.output =~= Seq::<char>::empty());
        let line = bar.dispatch();
        bar.emit(line, false);
        bar
    }

    /// A bar counting to `total` in the default style, drawn on standard
    /// output; its 0% line is drawn at once.
    pub fn stdout(total: u64) -> (r: ProgressBar)
        ensures
            is_fresh(r@, total, Seq::empty()),
            r@.target == TargetModel::Terminal,
    {
        ProgressBar::with_target(total, ProgressBarTarget::stdout())
    }

    /// A bar counting to `total` in the default style, drawn on standard
    /// error; its 0% line is drawn at once.
    pub fn stderr(total: u64) -> (r: ProgressBar)
        ensures
            is_fresh(r@, total, Seq::empty()),
            r@.target == TargetModel::Terminal,
    {
        ProgressBar::with_target(total, ProgressBarTarget::stderr())
    }

    /// A bar counting to `total` in the default style, drawn in slot `index`
    /// of the coordinator that receives from `tx`; its 0% line is sent at
    /// once.
    pub fn channel(total: u64, index: usize, tx: Sender<(usize, ProgressBarDrawInfo)>) -> (r:
        ProgressBar)
        ensures
            is_fresh(r@, total, handed(tx)),
            r@.target == TargetModel::Relay(index),
    {
        ProgressBar::with_target(total, ProgressBarTarget::channel(index, tx))
    }

    fn fmt_title(&self) -> (r: String)
        ensures
            r@ == title_text(self.ctxt),
    {
        let mut out = String::new();
        out.push('\r');
        out.append(self.ctxt.title.as_str());
        out.push(' ');
        assert(out@ =~= title_text(self.ctxt));
        out
    }

    fn fmt_counter(&self, delimiter: &str, fmt: UnitFormat) -> (r: String)
        ensures
            r@ == counter_text(self.ctxt, delimiter@, fmt),
    {
        let mut out = FormattedUnit::new(fmt, self.ctxt.current).to_string();
        out.push(' ');
        out.append(delimiter);
        out.push(' ');
        let total = FormattedUnit::new(fmt, self.ctxt.total).to_string();
        out.append(total.as_str());
        assert(out@ =~= counter_text(self.ctxt, delimiter@, fmt));
        out
    }

    fn fmt_bar(&self, symbols: &Vec<char>, bar_width: usize) -> (r: String)
        requires
            self.ctxt.wf(),
        ensures
            r@ == bar_text(self.ctxt, symbols@, bar_width as nat),
    {
        let fill: usize = if self.ctxt.total == 0 {
            bar_width
        } else {
            let c = self.ctxt.current as u128;
            let t = self.ctxt.total as u128;
            let w = bar_width as u128;
            proof {
                assert(c * w <= t * w) by (nonlinear_arith)
                    requires
                        c <= t,
                ;
                lemma_div_is_ordered((c * w) as int, (t * w) as int, t as int);
                lemma_div_multiples_vanish(w as int, t as int);
                assert(c * w <= u64::MAX * u64::MAX) by (nonlinear_arith)
                    requires
                        c <= u64::MAX,
                        w <= u64::MAX,
                ;
            }
            (c * w / t) as usize
        };
        let mut out = String::new();
        out.push(glyph(symbols, 0));
        push_repeat(&mut out, glyph(symbols, 1), fill);
        if !self.ctxt.is_finish() {
            out.push(glyph(symbols, 2));
            let empty: usize = if bar_width > fill {
                bar_width - fill - 1
            } else {
                0
            };
            push_repeat(&mut out, glyph(symbols, 3), empty);
        }
        out.push(glyph(symbols, 4));
        assert(out@ =~= bar_text(self.ctxt, symbols@, bar_width as nat));
        out
    }

    fn fmt_percent(&self) -> (r: String)
        requires
            self.ctxt.wf(),
        ensures
            r@ == percent_text(self.ctxt),
    {
        let points: u64 = if self.ctxt.total == 0 {
            100
        } else {
            let c = self.ctxt.current as u128;
            let t = self.ctxt.total as u128;
            proof {
                assert(c * 100 <= t * 100) by (nonlinear_arith)
                    requires
                        c <= t,
                ;
                lemma_div_is_ordered((c * 100) as int, (t * 100) as int, t as int);
                lemma_div_multiples_vanish(100, t as int);
            }
            (c * 100 / t) as u64
        };
        let mut digits = String::new();
        push_decimal(&mut digits, points as u128);
        let mut out = String::new();
        push_pad_left(&mut out, digits.as_str(), 3);
        out.push('%');
        assert(out@ =~= percent_text(self.ctxt));
        out
    }

    fn fmt_time(&self, time: TimeSpan, fmt: TimeFormat) -> (r: String)
        ensures
            r@ == time_cell_text(fmt, time@),
    {
        let text = FormattedTime::new(fmt, time).to_string();
        let mut out = String::new();
        push_pad_right(&mut out, text.as_str(), 10);
        assert(out@ =~= time_cell_text(fmt, time@));
        out
    }

    fn fmt_speed(&self, speed: u64, fmt: UnitFormat) -> (r: String)
        requires
            speed == self.ctxt.speed_value(),
        ensures
            r@ == speed_text(self.ctxt, fmt),
    {
        let text = FormattedUnit::new(fmt, speed).to_string();
        let mut out = String::new();
        push_pad_left(&mut out, text.as_str(), 8);
        match fmt {
            UnitFormat::Default => {
                proof {
                    reveal_strlit("it/s");
                }
                out.append("it/s");
            },
            _ => {
                proof {
                    reveal_strlit("/s");
                }
                out.append("/s");
            },
        }
        assert(out@ =~= speed_text(self.ctxt, fmt));
        out
    }

    /// The bar's whole line, as the style lays it out.
    fn dispatch(&self) -> (r: String)
        requires
            self.ctxt.wf(),
        ensures
            r@ == line_text(self.ctxt, self.style.layout@),
    {
        let mut out = self.fmt_title();
        let n = self.style.layout.len();
        let mut i: usize = 0;
        while i < n
            invariant
                self.ctxt.wf(),
                n == self.style.layout@.len(),
                i <= n,
                out@ == title_text(self.ctxt) + layout_text(
                    self.ctxt,
                    self.style.layout@.subrange(0, i as int),
                ),
            decreases n - i,
        {
            let s = match &self.style.layout[i] {
                Component::Counter(delimiter, fmt) => self.fmt_counter(delimiter.as_str(), *fmt),
                Component::Percent => self.fmt_percent(),
                Component::Bar(symbols, width) => self.fmt_bar(symbols, *width),
                Component::TimeLeft(fmt) => self.fmt_time(self.ctxt.time_left(), *fmt),
                Component::TimeElapsed(fmt) => self.fmt_time(self.ctxt.time_elapsed(), *fmt),
                Component::TimeTotal(fmt) => self.fmt_time(self.ctxt.time_total(), *fmt),
                Component::Speed(fmt) => self.fmt_speed(self.ctxt.speed(), *fmt),
                Component::Str(s) => s.clone(),
            };
            assert(s@ == component_text(self.ctxt, self.style.layout@[i as int]));
            out.append(s.as_str());
            out.push(' ');
            proof {
                let l = self.style.layout@;
                assert(l.subrange(0, i + 1).drop_last() =~= l.subrange(0, i as int));
            }
            i = i + 1;
            assert(out@ =~= title_text(self.ctxt) + layout_text(
                self.ctxt,
                self.style.layout@.subrange(0, i as int),
            ));
        }
        assert(self.style.layout@.subrange(0, n as int) =~= self.style.layout@);
        out
    }

    /// The time since the bar started, by the clock.
    fn now(&self) -> TimeSpan {
        let (secs, nanos) = time_between(&Instant::now(), &self.start_time);
        assert(secs * NANOS_PER_SEC + nanos <= MAX_SPAN_NANOS) by (nonlinear_arith)
            requires
                secs <= u64::MAX,
                nanos < 1_000_000_000,
        ;
        TimeSpan::new(secs, nanos)
    }

    /// Hands `line` to the target; tells whether it was taken.
    fn emit(&mut self, line: String, done: bool) -> (taken: bool)
        ensures
            final(self)@ == emitted(old(self)@, line@, done, taken),
    {
        self.target.handle_draw_info(ProgressBarDrawInfo { line, done }, &mut self.output)
    }

    /// Redraws the bar as of `now` if due; tells whether a relay's queue
    /// took the line.
    fn refresh(&mut self, is_force: bool, now: TimeSpan) -> (taken: bool)
        requires
            old(self)@.ctxt.wf(),
        ensures
            final(self)@ == after_update(old(self)@, is_force, now, taken),
    {
        let due = is_force || self.ctxt.is_finish()
            || now.saturating_sub(self.ctxt.last_refresh_time).as_nanos()
            >= self.ctxt.refresh_rate.as_nanos();
        if due {
            self.ctxt.last_refresh_time = now;
            let line = self.dispatch();
            let done = self.ctxt.status != BarStatus::InProgress;
            self.emit(line, done)
        } else {
            false
        }
    }

    /// Redraws the bar as of `now`, the time since its start, if a redraw is
    /// due; tells whether it redrew. An update that is not forced, of an
    /// unfinished bar, within the refresh interval of the last redraw (or of
    /// the start) draws nothing.
    pub fn update_at(&mut self, is_force: bool, now: TimeSpan) -> (drawn: bool)
        requires
            old(self)@.ctxt.wf(),
        ensures
            exists|taken: bool| final(self)@ == after_update(old(self)@, is_force, now, taken),
            drawn == redraw_due(old(self)@.ctxt, is_force, now@),
            !drawn ==> final(self)@ == old(self)@,
            !is_force && old(self)@.ctxt.current < old(self)@.ctxt.total && (if now@
                >= old(self)@.ctxt.last_refresh_time@ {
                now@ - old(self)@.ctxt.last_refresh_time@
            } else {
                0
            }) < old(self)@.ctxt.refresh_rate@ ==> !drawn,
            final(self)@.ctxt.wf(),
    {
        let due = is_force || self.ctxt.is_finish()
            || now.saturating_sub(self.ctxt.last_refresh_time).as_nanos()
            >= self.ctxt.refresh_rate.as_nanos();
        self.refresh(is_force, now);
        due
    }

    /// Redraws the bar if due, by the clock; gives the clock's reading and
    /// whether a relay's queue took the line.
    fn update(&mut self, is_force: bool) -> (r: (TimeSpan, bool))
        requires
            old(self)@.ctxt.wf(),
        ensures
            final(self)@ == after_update(old(self)@, is_force, r.0, r.1),
    {
        let now = self.now();
        let taken = self.refresh(is_force, now);
        (now, taken)
    }

    /// Sets the counter to `value`, clamped to the total; reaching the total
    /// finishes the bar and forces a redraw, else the bar redraws when
    /// `is_force` or when due. A finished bar is left as it is. Gives the
    /// counter.
    pub fn set(&mut self, value: u64, is_force: bool) -> (r: u64)
        requires
            old(self)@.ctxt.wf(),
        ensures
            exists|now: TimeSpan, taken: bool|
                final(self)@ == set_spec(old(self)@, value, is_force, now, taken),
            final(self)@.ctxt.wf(),
            r == final(self)@.ctxt.current,
            old(self)@.ctxt.status == BarStatus::InProgress ==> r == (if value > old(self)@.ctxt.total {
                old(self)@.ctxt.total
            } else {
                value
            }),
            value >= old(self)@.ctxt.total ==> r == old(self)@.ctxt.total
                && final(self)@.ctxt.status != BarStatus::InProgress,
    {
        if self.ctxt.status != BarStatus::InProgress {
            assert(self@ == set_spec(old(self)@, value, is_force, self.ctxt.refresh_rate, true));
            return self.ctxt.current;
        }
        let v = if value > self.ctxt.total {
            self.ctxt.total
        } else {
            value
        };
        self.ctxt.current = v;
        if v >= self.ctxt.total {
            self.ctxt.status = BarStatus::DoneVisible;
        }
        assert(self@ == counter_set(old(self)@, value));
        let (now, taken) = self.update(is_force);
        assert(self@ == set_spec(old(self)@, value, is_force, now, taken));
        self.ctxt.current
    }

    /// Adds `value` to the counter, saturating, as `set` does without
    /// forcing a redraw.
    pub fn add(&mut self, value: u64) -> (r: u64)
        requires
            old(self)@.ctxt.wf(),
        ensures
            exists|now: TimeSpan, taken: bool|
                final(self)@ == set_spec(
                    old(self)@,
                    saturated_sum(old(self)@.ctxt.current, value),
                    false,
                    now,
                    taken,
                ),
            final(self)@.ctxt.wf(),
            r == final(self)@.ctxt.current,
    {
        let v = self.ctxt.current.saturating_add(value);
        assert(v == saturated_sum(old(self)@.ctxt.current, value));
        self.set(v, false)
    }

    /// Adds one to the counter, as `add` does.
    pub fn increase(&mut self) -> (r: u64)
        requires
            old(self)@.ctxt.wf(),
        ensures
            exists|now: TimeSpan, taken: bool|
                final(self)@ == set_spec(
                    old(self)@,
                    saturated_sum(old(self)@.ctxt.current, 1),
                    false,
                    now,
                    taken,
                ),
            final(self)@.ctxt.wf(),
            r == final(self)@.ctxt.current,
    {
        self.add(1)
    }

    /// Fills the counter and finishes the bar with a forced redraw, marked
    /// done; a finished bar is left as it is.
    pub fn finish(&mut self)
        requires
            old(self)@.ctxt.wf(),
        ensures
            exists|now: TimeSpan, taken: bool| final(self)@ == finish_spec(old(self)@, now, taken),
            final(self)@.ctxt.wf(),
            final(self)@.ctxt.current == old(self)@.ctxt.total,
            final(self)@.ctxt.status != BarStatus::InProgress,
            old(self)@.ctxt.status != BarStatus::InProgress ==> final(self)@ == old(self)@,
    {
        if self.ctxt.status != BarStatus::InProgress {
            assert(self@ == finish_spec(old(self)@, self.ctxt.refresh_rate, true));
            return;
        }
        self.ctxt.current = self.ctxt.total;
        self.ctxt.status = BarStatus::DoneVisible;
        assert(self@ == finished(old(self)@, BarStatus::DoneVisible));
        let (now, taken) = self.update(true);
        assert(self@ == finish_spec(old(self)@, now, taken));
    }

    /// Finishes the bar as `finish` does, then writes `msg` on the line
    /// below it.
    pub fn finish_with_msg(&mut self, msg: &str)
        requires
            old(self)@.ctxt.wf(),
        ensures
            exists|now: TimeSpan, taken: bool, msg_taken: bool|
                final(self)@ == emitted(
                    finish_spec(old(self)@, now, taken),
                    seq!['\n'] + msg@,
                    true,
                    msg_taken,
                ),
            final(self)@.ctxt.wf(),
            final(self)@.ctxt.status != BarStatus::InProgress,
    {
        self.finish();
        let mut line = String::new();
        line.push('\n');
        line.append(msg);
        assert(line@ =~= seq!['\n'] + msg@);
        self.emit(line, true);
    }

    /// Finishes the bar, redrawing it full if it was unfinished, then
    /// replaces its line with `msg` padded with spaces to the line's width.
    pub fn finish_and_clear(&mut self, msg: &str)
        requires
            old(self)@.ctxt.wf(),
        ensures
            exists|now: TimeSpan, taken: bool, msg_taken: bool|
                final(self)@ == emitted(
                    cleared(old(self)@, now, taken),
                    seq!['\r'] + pad_right(msg@, old(self)@.ctxt.width as nat),
                    true,
                    msg_taken,
                ),
            final(self)@.ctxt.wf(),
            final(self)@.ctxt.status == BarStatus::DoneClear,
    {
        let ghost start = self@;
        let mut now = self.ctxt.refresh_rate;
        let mut taken = true;
        if self.ctxt.status == BarStatus::InProgress {
            self.ctxt.current = self.ctxt.total;
            self.ctxt.status = BarStatus::DoneClear;
            assert(self@ == finished(start, BarStatus::DoneClear));
            let r = self.update(true);
            now = r.0;
            taken = r.1;
        }
        let ghost mid = self@;
        self.ctxt.status = BarStatus::DoneClear;
        assert(self@ == BarView {
            ctxt: ProgressBarContext { status: BarStatus::DoneClear, ..mid.ctxt },
            ..mid
        });
        let mut line = String::new();
        line.push('\r');
        push_pad_right(&mut line, msg, self.ctxt.width);
        assert(line@ =~= seq!['\r'] + pad_right(msg@, start.ctxt.width as nat));
        assert(self@ == cleared(start, now, taken));
        self.emit(line, true);
    }

    /// Sets the style that the bar is drawn in.
    pub fn set_style(&mut self, style: ProgressBarStyle) -> (r: &mut Self)
        ensures
            r@ == (BarView { layout: style.layout@, ..old(self)@ }),
            *final(self) == *final(r),
    {
        self.style = style;
        self
    }

    /// Sets the title; it shows from the next redraw.
    pub fn set_title(&mut self, s: &str) -> (r: &mut Self)
        ensures
            r@ == (BarView {
                ctxt: ProgressBarContext { title: r@.ctxt.title, ..old(self)@.ctxt },
                ..old(self)@
            }),
            r@.ctxt.title@ == s@,
            *final(self) == *final(r),
    {
        self.ctxt.title = s.to_owned();
        self
    }

    /// Sets the width of the terminal line.
    pub fn set_width(&mut self, width: usize) -> (r: &mut Self)
        ensures
            r@ == (BarView { ctxt: ProgressBarContext { width, ..old(self)@.ctxt }, ..old(self)@ }),
            *final(self) == *final(r),
    {
        self.ctxt.width = width;
        self
    }

    /// Sets the least time between two redraws that are not forced.
    pub fn set_refresh_rate(&mut self, rate: TimeSpan) -> (r: &mut Self)
        ensures
            r@ == (BarView {
                ctxt: ProgressBarContext { refresh_rate: rate, ..old(self)@.ctxt },
                ..old(self)@
            }),
            *final(self) == *final(r),
    {
        self.ctxt.refresh_rate = rate;
        self
    }

    /// The bar's state.
    pub fn context(&self) -> (r: &ProgressBarContext)
        ensures
            *r == self@.ctxt,
    {
        &self.ctxt
    }

    /// Where the bar draws.
    pub fn target(&self) -> (r: &ProgressBarTarget)
        ensures
            r@ == self@.target,
    {
        &self.target
    }

    /// Takes the bytes drawn for the terminal since they were last taken.
    pub fn take_output(&mut self) -> (r: String)
        ensures
            r@ == old(self)@.output,
            final(self)@ == (BarView { output: Seq::empty(), ..old(self)@ }),
    {
        let mut out = String::new();
        std::mem::swap(&mut out, &mut self.output);
        out
    }
}

/// `a + b`, or the largest `u64` where the sum exceeds it.
pub open spec fn saturated_sum(a: u64, b: u64) -> u64 {
    if a + b > u64::MAX {
        u64::MAX
    } else {
        (a + b) as u64
    }
}

/// `m` with its counter at `value` clamped to the total; reaching the total
/// finishes it.
pub open spec fn counter_set(m: BarView, value: u64) -> BarView {
    let v = if value > m.ctxt.total {
        m.ctxt.total
    } else {
        value
    };
    BarView {
        ctxt: ProgressBarContext {
            current: v,
            status: if v >= m.ctxt.total {
                BarStatus::DoneVisible
            } else {
                BarStatus::InProgress
            },
            ..m.ctxt
        },
        ..m
    }
}

/// `m` after `set(value, is_force)` with the clock at `now`; `taken` is
/// whether a relay's queue took the redrawn line.
pub open spec fn set_spec(m: BarView, value: u64, is_force: bool, now: TimeSpan, taken: bool) -> BarView {
    if m.ctxt.status != BarStatus::InProgress {
        m
    } else {
        after_update(counter_set(m, value), is_force, now, taken)
    }
}

/// `m` with its counter full and its status `status`.
pub open spec fn finished(m: BarView, status: BarStatus) -> BarView {
    BarView { ctxt: ProgressBarContext { current: m.ctxt.total, status, ..m.ctxt }, ..m }
}

/// `m` after `finish()` with the clock at `now`; `taken` is whether a
/// relay's queue took the final line.
pub open spec fn finish_spec(m: BarView, now: TimeSpan, taken: bool) -> BarView {
    if m.ctxt.status != BarStatus::InProgress {
        m
    } else {
        after_update(finished(m, BarStatus::DoneVisible), true, now, taken)
    }
}

/// `m` finished with its bar cleared, before the message is drawn, with
/// the clock at `now`.
pub open spec fn cleared(m: BarView, now: TimeSpan, taken: bool) -> BarView {
    let m1 = if m.ctxt.status != BarStatus::InProgress {
        m
    } else {
        after_update(finished(m, BarStatus::DoneClear), true, now, taken)
    };
    BarView { ctxt: ProgressBarContext { status: BarStatus::DoneClear, ..m1.ctxt }, ..m1 }
}

/// Finishing is idempotent: whatever the clock reads and whatever the queue
/// does at each call, a second `finish` leaves the bar, its output and the
/// lines it sent as the first left them.
pub proof fn lemma_finish_idempotent(
    m: BarView,
    first: TimeSpan,
    first_taken: bool,
    second: TimeSpan,
    second_taken: bool,
)
    ensures
        finish_spec(finish_spec(m, first, first_taken), second, second_taken) == finish_spec(
            m,
            first,
            first_taken,
        ),
{
}

/// A coordinator hears of a bar's end once: finishing an unfinished bar on
/// a relay sends exactly one line, marked done, where the queue takes it,
/// and nothing else; finishing it again sends nothing more.
pub proof fn lemma_finish_sends_done_once(
    m: BarView,
    first: TimeSpan,
    first_taken: bool,
    second: TimeSpan,
    second_taken: bool,
)
    requires
        m.ctxt.status == BarStatus::InProgress,
        m.target is Relay,
    ensures
        ({
            let once = finish_spec(m, first, first_taken);
            let twice = finish_spec(once, second, second_taken);
            &&& twice.sent == once.sent
            &&& first_taken ==> once.sent.len() == m.sent.len() + 1 && once.sent.drop_last()
                == m.sent && once.sent.last().0 == m.target->0 && once.sent.last().2
            &&& !first_taken ==> once.sent == m.sent
        }),
{
    let once = finish_spec(m, first, first_taken);
    if first_taken {
        assert(once.sent.drop_last() =~= m.sent);
    }
}

/// A bar on a relay never writes to the terminal: whatever it draws goes to
/// the coordinator's queue, and its terminal output stays as it was.
pub proof fn lemma_relay_bar_writes_nothing(
    m: BarView,
    is_force: bool,
    now: TimeSpan,
    taken: bool,
    line: Seq<char>,
    done: bool,
)
    requires
        m.target is Relay,
    ensures
        after_update(m, is_force, now, taken).output == m.output,
        emitted(m, line, done, taken).output == m.output,
{
    assert(m.output + Seq::<char>::empty() =~= m.output);
}

} // verus!
