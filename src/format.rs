use vstd::prelude::*;
use vstd::string::*;

use crate::text::{
    dec_digits, div_round_even, push_decimal, push_zero_pad2, round_half_even, zero_pad2,
};
use crate::util::{datetime_parts, duration_to_datetime, whole_secs, TimeSpan};

verus! {

pub const KIB: u64 = 1024;
pub const MIB: u64 = 1_048_576;
pub const GIB: u64 = 1_073_741_824;
pub const TIB: u64 = 1_099_511_627_776;

pub const KB: u64 = 1_000;
pub const MB: u64 = 1_000_000;
pub const GB: u64 = 1_000_000_000;
pub const TB: u64 = 1_000_000_000_000;

/// How a count is written.
#[derive(Clone, Copy, PartialEq, Eq, Debug)]
pub enum UnitFormat {
    /// The plain number, such as `123456`.
    Default,
    /// Bytes in binary multiples: `567B`, or one decimal with
    /// KiB/MiB/GiB/TiB (`5678` bytes is `5.5KiB`).
    Bytes,
    /// Bytes in decimal multiples: `567B`, or one decimal with KB/MB/GB/TB
    /// (`5678` bytes is `5.7KB`).
    BytesDec,
}

/// A count together with the way it is written.
#[derive(Clone, Copy, PartialEq, Eq, Debug)]
pub enum FormattedUnit {
    Default(u64),
    Bytes(u64),
    BytesDec(u64),
}

/// `n` in units of `unit`, with one decimal rounded half to even, then
/// `suffix`.
pub open spec fn scaled_text(n: nat, unit: nat, suffix: Seq<char>) -> Seq<char> {
    let t = div_round_even(n * 10, unit);
    dec_digits(t / 10) + seq!['.'] + dec_digits(t % 10) + suffix
}

/// A byte count in the largest binary multiple that it reaches.
pub open spec fn binary_bytes_text(n: nat) -> Seq<char> {
    if n >= TIB {
        scaled_text(n, TIB as nat, seq!['T', 'i', 'B'])
    } else if n >= GIB {
        scaled_text(n, GIB as nat, seq!['G', 'i', 'B'])
    } else if n >= MIB {
        scaled_text(n, MIB as nat, seq!['M', 'i', 'B'])
    } else if n >= KIB {
        scaled_text(n, KIB as nat, seq!['K', 'i', 'B'])
    } else {
        dec_digits(n) + seq!['B']
    }
}

/// A byte count in the largest decimal multiple that it reaches.
pub open spec fn decimal_bytes_text(n: nat) -> Seq<char> {
    if n >= TB {
        scaled_text(n, TB as nat, seq!['T', 'B'])
    } else if n >= GB {
        scaled_text(n, GB as nat, seq!['G', 'B'])
    } else if n >= MB {
        scaled_text(n, MB as nat, seq!['M', 'B'])
    } else if n >= KB {
        scaled_text(n, KB as nat, seq!['K', 'B'])
    } else {
        dec_digits(n) + seq!['B']
    }
}

/// `n` written in the format `fmt`.
pub open spec fn count_text(fmt: UnitFormat, n: nat) -> Seq<char> {
    match fmt {
        UnitFormat::Default => dec_digits(n),
        UnitFormat::Bytes => binary_bytes_text(n),
        UnitFormat::BytesDec => decimal_bytes_text(n),
    }
}

/// The text of a formatted count.
pub open spec fn unit_text(u: FormattedUnit) -> Seq<char> {
    match u {
        FormattedUnit::Default(n) => count_text(UnitFormat::Default, n as nat),
        FormattedUnit::Bytes(n) => count_text(UnitFormat::Bytes, n as nat),
        FormattedUnit::BytesDec(n) => count_text(UnitFormat::BytesDec, n as nat),
    }
}

/// Appends `n / unit` with one decimal, then `suffix`.
fn push_scaled(out: &mut String, n: u64, unit: u64, suffix: &str)
    requires
        unit > 0,
    ensures
        final(out)@ == old(out)@ + scaled_text(n as nat, unit as nat, suffix@),
{
    let tenths = round_half_even(n as u128 * 10, unit as u128);
    push_decimal(out, tenths / 10);
    out.push('.');
    push_decimal(out, tenths % 10);
    out.append(suffix);
    assert(out@ =~= old(out)@ + scaled_text(n as nat, unit as nat, suffix@));
}

impl FormattedUnit {
    /// The count `n` in the format `fmt`.
    pub fn new(fmt: UnitFormat, n: u64) -> (r: FormattedUnit)
        ensures
            unit_text(r) == count_text(fmt, n as nat),
    {
        match fmt {
            UnitFormat::Default => FormattedUnit::Default(n),
            UnitFormat::Bytes => FormattedUnit::Bytes(n),
            UnitFormat::BytesDec => FormattedUnit::BytesDec(n),
        }
    }

    /// The count as text.
    pub fn to_string(&self) -> (r: String)
        ensures
            r@ == unit_text(*self),
    {
        let mut out = String::new();
        match *self {
            FormattedUnit::Default(n) => {
                push_decimal(&mut out, n as u128);
            },
            FormattedUnit::Bytes(n) => {
                proof {
                    reveal_strlit("TiB");
                    reveal_strlit("GiB");
                    reveal_strlit("MiB");
                    reveal_strlit("KiB");
                }
                if n >= TIB {
                    push_scaled(&mut out, n, TIB, "TiB");
                } else if n >= GIB {
                    push_scaled(&mut out, n, GIB, "GiB");
                } else if n >= MIB {
                    push_scaled(&mut out, n, MIB, "MiB");
                } else if n >= KIB {
                    push_scaled(&mut out, n, KIB, "KiB");
                } else {
                    push_decimal(&mut out, n as u128);
                    out.push('B');
                }
            },
            FormattedUnit::BytesDec(n) => {
                proof {
                    reveal_strlit("TB");
                    reveal_strlit("GB");
                    reveal_strlit("MB");
                    reveal_strlit("KB");
                }
                if n >= TB {
                    push_scaled(&mut out, n, TB, "TB");
                } else if n >= GB {
                    push_scaled(&mut out, n, GB, "GB");
                } else if n >= MB {
                    push_scaled(&mut out, n, MB, "MB");
                } else if n >= KB {
                    push_scaled(&mut out, n, KB, "KB");
                } else {
                    push_decimal(&mut out, n as u128);
                    out.push('B');
                }
            },
        }
        assert(out@ =~= unit_text(*self));
        out
    }
}

/// How a length of time is written.
#[derive(Clone, Copy, PartialEq, Eq, Debug)]
pub enum TimeFormat {
    /// `MM:SS`, `HH:MM:SS` or `Dd:HH:MM:SS`, such as `00:01`, `01:00:01`
    /// or `1234d:23:05:10`.
    Fmt1,
    /// `Ss`, `MmSs`, `HhMmSs` or `DdHhMmSs`, without padding, such as `59s`,
    /// `59m1s` or `1d1h1m30s`.
    Fmt2,
}

/// A length of time together with the way it is written.
#[derive(Clone, Copy, PartialEq, Eq, Debug)]
pub enum FormattedTime {
    Fmt1(TimeSpan),
    Fmt2(TimeSpan),
}

/// The colon-separated form of days, hours, minutes and seconds.
pub open spec fn colon_time_text(p: (nat, nat, nat, nat)) -> Seq<char> {
    let (d, h, m, s) = p;
    if d != 0 {
        dec_digits(d) + seq!['d', ':'] + zero_pad2(h) + seq![':'] + zero_pad2(m) + seq![':']
            + zero_pad2(s)
    } else if h != 0 {
        zero_pad2(h) + seq![':'] + zero_pad2(m) + seq![':'] + zero_pad2(s)
    } else {
        zero_pad2(m) + seq![':'] + zero_pad2(s)
    }
}

/// The lettered form of days, hours, minutes and seconds, without padding.
pub open spec fn letter_time_text(p: (nat, nat, nat, nat)) -> Seq<char> {
    let (d, h, m, s) = p;
    if d != 0 {
        dec_digits(d) + seq!['d'] + dec_digits(h) + seq!['h'] + dec_digits(m) + seq!['m']
            + dec_digits(s) + seq!['s']
    } else if h != 0 {
        dec_digits(h) + seq!['h'] + dec_digits(m) + seq!['m'] + dec_digits(s) + seq!['s']
    } else if m != 0 {
        dec_digits(m) + seq!['m'] + dec_digits(s) + seq!['s']
    } else {
        dec_digits(s) + seq!['s']
    }
}

/// A span of `nanos` nanoseconds written in the format `fmt`.
pub open spec fn span_text(fmt: TimeFormat, nanos: nat) -> Seq<char> {
    match fmt {
        TimeFormat::Fmt1 => colon_time_text(datetime_parts(whole_secs(nanos))),
        TimeFormat::Fmt2 => letter_time_text(datetime_parts(whole_secs(nanos))),
    }
}

/// The text of a formatted length of time.
pub open spec fn time_text(t: FormattedTime) -> Seq<char> {
    match t {
        FormattedTime::Fmt1(d) => span_text(TimeFormat::Fmt1, d@),
        FormattedTime::Fmt2(d) => span_text(TimeFormat::Fmt2, d@),
    }
}

impl FormattedTime {
    /// The span `d` in the format `fmt`.
    pub fn new(fmt: TimeFormat, d: TimeSpan) -> (r: FormattedTime)
        ensures
            time_text(r) == span_text(fmt, d@),
    {
        match fmt {
            TimeFormat::Fmt1 => FormattedTime::Fmt1(d),
            TimeFormat::Fmt2 => FormattedTime::Fmt2(d),
        }
    }

    /// The length of time as text.
    pub fn to_string(&self) -> (r: String)
        ensures
            r@ == time_text(*self),
    {
        let mut out = String::new();
        match self {
            FormattedTime::Fmt1(d) => {
                let (days, hours, mins, secs) = duration_to_datetime(*d);
                if days != 0 {
                    push_decimal(&mut out, days as u128);
                    out.push('d');
                    out.push(':');
                    push_zero_pad2(&mut out, hours);
                    out.push(':');
                    push_zero_pad2(&mut out, mins);
                    out.push(':');
                    push_zero_pad2(&mut out, secs);
                } else if hours != 0 {
                    push_zero_pad2(&mut out, hours);
                    out.push(':');
                    push_zero_pad2(&mut out, mins);
                    out.push(':');
                    push_zero_pad2(&mut out, secs);
                } else {
                    push_zero_pad2(&mut out, mins);
                    out.push(':');
                    push_zero_pad2(&mut out, secs);
                }
            },
            FormattedTime::Fmt2(d) => {
                let (days, hours, mins, secs) = duration_to_datetime(*d);
                if days != 0 {
                    push_decimal(&mut out, days as u128);
                    out.push('d');
                }
                if days != 0 || hours != 0 {
                    push_decimal(&mut out, hours as u128);
                    out.push('h');
                }
                if days != 0 || hours != 0 || mins != 0 {
                    push_decimal(&mut out, mins as u128);
                    out.push('m');
                }
                push_decimal(&mut out, secs as u128);
                out.push('s');
            },
        }
        assert(out@ =~= time_text(*self));
        out
    }
}

} // verus!
