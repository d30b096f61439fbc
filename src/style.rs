use vstd::prelude::*;
use vstd::string::*;

use crate::format::{TimeFormat, UnitFormat};

verus! {

/// One part of a bar's line.
#[derive(Clone)]
pub enum Component {
    /// The current count, a delimiter, then the total.
    Counter(String, UnitFormat),
    /// The counts per second.
    Speed(UnitFormat),
    /// The share done, in whole percent.
    Percent,
    /// The bar itself: five glyphs (begin, fill, current, empty, end) and
    /// a width.
    Bar(Vec<char>, usize),
    /// The estimated time left.
    TimeLeft(TimeFormat),
    /// The time since the bar started.
    TimeElapsed(TimeFormat),
    /// The time elapsed and the time left together.
    TimeTotal(TimeFormat),
    /// A fixed text.
    Str(String),
}

/// The width of a bar that a style does not set.
pub const DEFAULT_BAR_WIDTH: usize = 30;

/// The glyphs of a bar that a style does not set, or sets wrongly.
pub open spec fn default_glyphs() -> Seq<char> {
    seq!['[', '#', '>', '-', ']']
}

/// The glyphs that a bar is drawn with: `symbols` where they are five,
/// else the default ones.
pub open spec fn glyphs(symbols: Seq<char>) -> Seq<char> {
    if symbols.len() == 5 {
        symbols
    } else {
        default_glyphs()
    }
}

/// The layout of the default style: counter, percent, bar and time left.
pub open spec fn is_default_layout(layout: Seq<Component>) -> bool {
    &&& layout.len() == 4
    &&& layout[0] matches Component::Counter(d, f) && d@ == seq!['/'] && f == UnitFormat::Default
    &&& layout[1] is Percent
    &&& layout[2] matches Component::Bar(s, w) && s@ == default_glyphs() && w
        == DEFAULT_BAR_WIDTH
    &&& layout[3] == Component::TimeLeft(TimeFormat::Fmt1)
}

/// The parts of a bar's line, in the order they are drawn.
#[derive(Clone)]
pub struct ProgressBarStyle {
    pub layout: Vec<Component>,
}

fn default_glyph_vec() -> (r: Vec<char>)
    ensures
        r@ == default_glyphs(),
{
    let mut v: Vec<char> = Vec::new();
    v.push('[');
    v.push('#');
    v.push('>');
    v.push('-');
    v.push(']');
    assert(v@ =~= default_glyphs());
    v
}

fn slash() -> (r: String)
    ensures
        r@ == seq!['/'],
{
    let mut s = String::new();
    s.push('/');
    assert(s@ =~= seq!['/']);
    s
}

impl ProgressBarStyle {
    /// The default style: counter, percent, bar and time left.
    pub fn default() -> (r: ProgressBarStyle)
        ensures
            is_default_layout(r.layout@),
    {
        let mut layout: Vec<Component> = Vec::new();
        layout.push(Component::Counter(slash(), UnitFormat::Default));
        layout.push(Component::Percent);
        layout.push(Component::Bar(default_glyph_vec(), DEFAULT_BAR_WIDTH));
        layout.push(Component::TimeLeft(TimeFormat::Fmt1));
        ProgressBarStyle { layout }
    }

    /// A style with no parts, to be built up.
    pub fn customizable() -> (r: ProgressBarStyle)
        ensures
            r.layout@ == Seq::<Component>::empty(),
    {
        ProgressBarStyle { layout: Vec::new() }
    }

    /// Adds a counter; the delimiter is `/` and the format the plain number
    /// unless given.
    pub fn counter(&mut self, delimiter: Option<String>, fmt: Option<UnitFormat>) -> (r: &mut Self)
        ensures
            r.layout@.len() == old(self).layout@.len() + 1,
            r.layout@.drop_last() == old(self).layout@,
            r.layout@.last() matches Component::Counter(d, f) && d@ == (match delimiter {
                Some(s) => s@,
                None => seq!['/'],
            }) && f == (match fmt {
                Some(f) => f,
                None => UnitFormat::Default,
            }),
            *final(self) == *final(r),
    {
        let d = match delimiter {
            Some(s) => s,
            None => slash(),
        };
        let f = match fmt {
            Some(f) => f,
            None => UnitFormat::Default,
        };
        self.layout.push(Component::Counter(d, f));
        assert(self.layout@.drop_last() =~= old(self).layout@);
        self
    }

    /// Adds the percent done.
    pub fn percent(&mut self) -> (r: &mut Self)
        ensures
            r.layout@ == old(self).layout@.push(Component::Percent),
            *final(self) == *final(r),
    {
        self.layout.push(Component::Percent);
        self
    }

    /// Adds the bar itself, drawn with the five glyphs of `s` (begin, fill,
    /// current, empty, end) or, where `s` does not hold five, the default
    /// `[#>-]`; the width is 30 unless given.
    pub fn bar(&mut self, s: &str, width: Option<usize>) -> (r: &mut Self)
        ensures
            r.layout@.len() == old(self).layout@.len() + 1,
            r.layout@.drop_last() == old(self).layout@,
            r.layout@.last() matches Component::Bar(g, w) && g@ == glyphs(s@) && w == (match width {
                Some(w) => w,
                None => DEFAULT_BAR_WIDTH,
            }),
            *final(self) == *final(r),
    {
        let symbols = if s.unicode_len() == 5 {
            chars_of(s)
        } else {
            default_glyph_vec()
        };
        let w = match width {
            Some(w) => w,
            None => DEFAULT_BAR_WIDTH,
        };
        self.layout.push(Component::Bar(symbols, w));
        assert(self.layout@.drop_last() =~= old(self).layout@);
        self
    }

    /// Adds the estimated time left, as `MM:SS` and longer unless given.
    pub fn time_left(&mut self, fmt: Option<TimeFormat>) -> (r: &mut Self)
        ensures
            r.layout@ == old(self).layout@.push(Component::TimeLeft(time_format_or_default(fmt))),
            *final(self) == *final(r),
    {
        self.layout.push(Component::TimeLeft(time_format_or(fmt)));
        self
    }

    /// Adds the time elapsed, as `MM:SS` and longer unless given.
    pub fn time_elapsed(&mut self, fmt: Option<TimeFormat>) -> (r: &mut Self)
        ensures
            r.layout@ == old(self).layout@.push(
                Component::TimeElapsed(time_format_or_default(fmt)),
            ),
            *final(self) == *final(r),
    {
        self.layout.push(Component::TimeElapsed(time_format_or(fmt)));
        self
    }

    /// Adds the time elapsed and left together, as `MM:SS` and longer unless
    /// given.
    pub fn time_total(&mut self, fmt: Option<TimeFormat>) -> (r: &mut Self)
        ensures
            r.layout@ == old(self).layout@.push(Component::TimeTotal(time_format_or_default(fmt))),
            *final(self) == *final(r),
    {
        self.layout.push(Component::TimeTotal(time_format_or(fmt)));
        self
    }

    /// Adds the speed, as a plain number unless a format is given.
    pub fn speed(&mut self, fmt: Option<UnitFormat>) -> (r: &mut Self)
        ensures
            r.layout@ == old(self).layout@.push(
                Component::Speed(
                    match fmt {
                        Some(f) => f,
                        None => UnitFormat::Default,
                    },
                ),
            ),
            *final(self) == *final(r),
    {
        let f = match fmt {
            Some(f) => f,
            None => UnitFormat::Default,
        };
        self.layout.push(Component::Speed(f));
        self
    }

    /// Adds a fixed text, such as a delimiter.
    pub fn str(&mut self, s: &str) -> (r: &mut Self)
        ensures
            r.layout@.len() == old(self).layout@.len() + 1,
            r.layout@.drop_last() == old(self).layout@,
            r.layout@.last() matches Component::Str(t) && t@ == s@,
            *final(self) == *final(r),
    {
        self.layout.push(Component::Str(s.to_owned()));
        assert(self.layout@.drop_last() =~= old(self).layout@);
        self
    }
}

/// The time format `fmt`, or `MM:SS` and longer where none is given.
pub open spec fn time_format_or_default(fmt: Option<TimeFormat>) -> TimeFormat {
    match fmt {
        Some(f) => f,
        None => TimeFormat::Fmt1,
    }
}

fn time_format_or(fmt: Option<TimeFormat>) -> (r: TimeFormat)
    ensures
        r == time_format_or_default(fmt),
{
    match fmt {
        Some(f) => f,
        None => TimeFormat::Fmt1,
    }
}

/// The characters of `s`, in order.
fn chars_of(s: &str) -> (r: Vec<char>)
    ensures
        r@ == s@,
{
    let n = s.unicode_len();
    let mut v: Vec<char> = Vec::new();
    let mut i: usize = 0;
    while i < n
        invariant
            n == s@.len(),
            i <= n,
            v@ == s@.subrange(0, i as int),
        decreases n - i,
    {
        v.push(s.get_char(i));
        i = i + 1;
        assert(v@ =~= s@.subrange(0, i as int));
    }
    assert(v@ =~= s@);
    v
}

} // verus!
