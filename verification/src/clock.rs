//! Calendar timestamps as plain field values, and their rendering in the
//! `YYYY-MM-DD HH:MM:SS` shape that outward representations carry.

use vstd::prelude::*;

verus! {

/// A civil timestamp held as plain numeric fields. The store assigns one to
/// each record at insertion; the core never computes with it beyond
/// rendering, so no calendar arithmetic is modelled.
#[derive(Clone, Copy, Debug, PartialEq, Eq, Structural)]
pub struct Timestamp {
    pub year: u16,
    pub month: u8,
    pub day: u8,
    pub hour: u8,
    pub minute: u8,
    pub second: u8,
}

impl Timestamp {
    /// Field ranges of a renderable civil timestamp.
    pub open spec fn wf(self) -> bool {
        &&& self.year <= 9999
        &&& 1 <= self.month <= 12
        &&& 1 <= self.day <= 31
        &&& self.hour < 24
        &&& self.minute < 60
        &&& self.second < 60
    }
}

/// The decimal digit character for `d % 10`.
pub open spec fn digit_char(d: int) -> char {
    let r = d % 10;
    if r == 0 {
        '0'
    } else if r == 1 {
        '1'
    } else if r == 2 {
        '2'
    } else if r == 3 {
        '3'
    } else if r == 4 {
        '4'
    } else if r == 5 {
        '5'
    } else if r == 6 {
        '6'
    } else if r == 7 {
        '7'
    } else if r == 8 {
        '8'
    } else {
        '9'
    }
}

/// Two decimal digits, zero-padded, of `n % 100`.
pub open spec fn two_digits(n: int) -> Seq<char> {
    seq![digit_char(n / 10), digit_char(n)]
}

/// Four decimal digits, zero-padded, of `n % 10000`.
pub open spec fn four_digits(n: int) -> Seq<char> {
    seq![digit_char(n / 1000), digit_char(n / 100), digit_char(n / 10), digit_char(n)]
}

/// The `YYYY-MM-DD HH:MM:SS` rendering of a timestamp.
pub open spec fn timestamp_display(t: Timestamp) -> Seq<char> {
    four_digits(t.year as int) + seq!['-'] + two_digits(t.month as int) + seq!['-'] + two_digits(
        t.day as int,
    ) + seq![' '] + two_digits(t.hour as int) + seq![':'] + two_digits(t.minute as int)
        + seq![':'] + two_digits(t.second as int)
}

/// Appends the decimal digit character for `d` to `out`.
fn push_digit(out: &mut String, d: u16)
    requires
        d < 10,
    ensures
        final(out)@ == old(out)@.push(digit_char(d as int)),
{
    let piece: &str = if d == 0 {
        "0"
    } else if d == 1 {
        "1"
    } else if d == 2 {
        "2"
    } else if d == 3 {
        "3"
    } else if d == 4 {
        "4"
    } else if d == 5 {
        "5"
    } else if d == 6 {
        "6"
    } else if d == 7 {
        "7"
    } else if d == 8 {
        "8"
    } else {
        "9"
    };
    proof {
        reveal_strlit("0");
        reveal_strlit("1");
        reveal_strlit("2");
        reveal_strlit("3");
        reveal_strlit("4");
        reveal_strlit("5");
        reveal_strlit("6");
        reveal_strlit("7");
        reveal_strlit("8");
        reveal_strlit("9");
    }
    out.append(piece);
    proof {
        assert(out@ =~= old(out)@.push(digit_char(d as int)));
    }
}

/// Appends the zero-padded two-digit rendering of `n % 100` to `out`.
fn push_two_digits(out: &mut String, n: u16)
    ensures
        final(out)@ == old(out)@ + two_digits(n as int),
{
    push_digit(out, (n / 10) % 10);
    push_digit(out, n % 10);
    proof {
        assert(digit_char((n as int / 10) % 10) == digit_char(n as int / 10));
        assert(out@ =~= old(out)@ + two_digits(n as int));
    }
}

/// The calendar date `days` whole days after 1970-01-01, in the proleptic
/// Gregorian calendar, as (year, month, day). The verified guarantee is the
/// field ranges; a day count the calendar arithmetic cannot place (past year
/// 9999) falls back to the epoch date.
fn civil_of_days(days: u64) -> (r: (u16, u8, u8))
    ensures
        r.0 <= 9999,
        1 <= r.1 <= 12,
        1 <= r.2 <= 31,
{
    let epoch: (u16, u8, u8) = (1970, 1, 1);
    let z = match days.checked_add(719468) {
        Some(v) => v,
        None => {
            return epoch;
        },
    };
    let era = z / 146097;
    let doe = z % 146097;
    let a = match doe.checked_sub(doe / 1460) {
        Some(v) => v,
        None => {
            return epoch;
        },
    };
    let b = match a.checked_add(doe / 36524) {
        Some(v) => v,
        None => {
            return epoch;
        },
    };
    let c = match b.checked_sub(doe / 146096) {
        Some(v) => v,
        None => {
            return epoch;
        },
    };
    let yoe = c / 365;
    let year_start = match (yoe / 4).checked_add(match yoe.checked_mul(365) {
        Some(v) => v,
        None => {
            return epoch;
        },
    }) {
        Some(v) => v,
        None => {
            return epoch;
        },
    };
    let year_start = match year_start.checked_sub(yoe / 100) {
        Some(v) => v,
        None => {
            return epoch;
        },
    };
    let doy = match doe.checked_sub(year_start) {
        Some(v) => v,
        None => {
            return epoch;
        },
    };
    let mp = match doy.checked_mul(5) {
        Some(v) => (v + 2) / 153,
        None => {
            return epoch;
        },
    };
    let month_days = match mp.checked_mul(153) {
        Some(v) => (v + 2) / 5,
        None => {
            return epoch;
        },
    };
    let day = match doy.checked_sub(month_days) {
        Some(v) => v + 1,
        None => {
            return epoch;
        },
    };
    let month = if mp < 10 {
        mp + 3
    } else {
        match mp.checked_sub(9) {
            Some(v) => v,
            None => {
                return epoch;
            },
        }
    };
    let year = match era.checked_mul(400) {
        Some(v) => match v.checked_add(yoe) {
            Some(w) => w,
            None => {
                return epoch;
            },
        },
        None => {
            return epoch;
        },
    };
    let year = if month <= 2 {
        year + 1
    } else {
        year
    };
    if year > 9999 || month < 1 || month > 12 || day < 1 || day > 31 {
        epoch
    } else {
        (year as u16, month as u8, day as u8)
    }
}

/// The civil timestamp `secs` seconds after the epoch 1970-01-01 00:00:00.
/// The time of day is exact; the calendar date follows the proleptic
/// Gregorian calendar, verified here to stay within renderable ranges.
pub fn timestamp_from_unix(secs: u64) -> (t: Timestamp)
    ensures
        t.wf(),
        t.hour as int == (secs as int % 86400) / 3600,
        t.minute as int == ((secs as int % 86400) % 3600) / 60,
        t.second as int == secs as int % 60,
{
    let day_secs = secs % 86400;
    proof {
        assert(day_secs < 86400);
        assert(day_secs / 3600 < 24) by (nonlinear_arith)
            requires
                day_secs < 86400,
        ;
        assert((day_secs % 3600) / 60 < 60) by (nonlinear_arith);
    }
    let hour = (day_secs / 3600) as u8;
    let minute = ((day_secs % 3600) / 60) as u8;
    let second = (secs % 60) as u8;
    let (year, month, day) = civil_of_days(secs / 86400);
    Timestamp { year, month, day, hour, minute, second }
}

/// Renders a timestamp as `YYYY-MM-DD HH:MM:SS`, zero-padded in every field.
pub fn format_timestamp(t: &Timestamp) -> (r: String)
    ensures
        r@ == timestamp_display(*t),
{
    let mut out = String::new();
    push_digit(&mut out, (t.year / 1000) % 10);
    push_digit(&mut out, (t.year / 100) % 10);
    push_digit(&mut out, (t.year / 10) % 10);
    push_digit(&mut out, t.year % 10);
    out.append("-");
    push_two_digits(&mut out, t.month as u16);
    out.append("-");
    push_two_digits(&mut out, t.day as u16);
    out.append(" ");
    push_two_digits(&mut out, t.hour as u16);
    out.append(":");
    push_two_digits(&mut out, t.minute as u16);
    out.append(":");
    push_two_digits(&mut out, t.second as u16);
    proof {
        reveal_strlit("-");
        reveal_strlit(" ");
        reveal_strlit(":");
        assert(digit_char((t.year as int / 1000) % 10) == digit_char(t.year as int / 1000));
        assert(digit_char((t.year as int / 100) % 10) == digit_char(t.year as int / 100));
        assert(digit_char((t.year as int / 10) % 10) == digit_char(t.year as int / 10));
        assert(out@ =~= timestamp_display(*t));
    }
    out
}

} // verus!
