//! Wall-clock stamps and the file names derived from them.
//!
//! A stamp is a plain local calendar time; the formatting into
//! `YYYY-MM-DD-HH-MM-SS` file names is done here, verified, so a screenshot
//! taken at a known wall-clock time gets exactly the expected name. Only the
//! reading of the clock itself is trusted.

use chrono::Datelike;
use chrono::Timelike;
use vstd::prelude::*;

verus! {

/// A local calendar time, split into plain fields.
#[derive(Clone, Copy, PartialEq, Eq, Structural, Debug)]
pub struct DateStamp {
    pub year: i32,
    pub month: u32,
    pub day: u32,
    pub hour: u32,
    pub minute: u32,
    pub second: u32,
}

impl DateStamp {
    pub open spec fn wf(self) -> bool {
        &&& 1 <= self.month <= 12
        &&& 1 <= self.day <= 31
        &&& self.hour <= 23
        &&& self.minute <= 59
        &&& self.second <= 59
    }
}

/// Relies on chrono's `Local::now` and its `Datelike` / `Timelike`
/// accessors; the field ranges in `DateStamp::wf` are exactly the ranges
/// chrono documents for `month`, `day`, `hour`, `minute` and `second`.
#[verifier::external_body]
pub(crate) fn local_now() -> (r: DateStamp)
    ensures
        r.wf(),
{
    let t = chrono::Local::now();
    DateStamp {
        year: t.year(),
        month: t.month(),
        day: t.day(),
        hour: t.hour(),
        minute: t.minute(),
        second: t.second(),
    }
}

pub open spec fn digit_char(d: int) -> char {
    if d == 0 {
        '0'
    } else if d == 1 {
        '1'
    } else if d == 2 {
        '2'
    } else if d == 3 {
        '3'
    } else if d == 4 {
        '4'
    } else if d == 5 {
        '5'
    } else if d == 6 {
        '6'
    } else if d == 7 {
        '7'
    } else if d == 8 {
        '8'
    } else {
        '9'
    }
}

/// Decimal digits of `n`, most significant first, without leading zeros.
pub open spec fn dec_str(n: nat) -> Seq<char>
    decreases n,
{
    if n < 10 {
        seq![digit_char(n as int)]
    } else {
        dec_str(n / 10) + seq![digit_char((n % 10) as int)]
    }
}

/// `n` zero-padded to at least four decimal digits.
pub open spec fn pad4(n: nat) -> Seq<char> {
    if n < 10 {
        seq!['0', '0', '0'] + dec_str(n)
    } else if n < 100 {
        seq!['0', '0'] + dec_str(n)
    } else if n < 1000 {
        seq!['0'] + dec_str(n)
    } else {
        dec_str(n)
    }
}

/// Two decimal digits, zero-padded; meant for `n < 100`.
pub open spec fn dec2(n: nat) -> Seq<char> {
    seq![digit_char((n / 10) as int), digit_char((n % 10) as int)]
}

/// A year as printed in a stamp: zero-padded to four digits, with a leading
/// minus sign for years before the common era.
pub open spec fn year_seq(y: int) -> Seq<char> {
    if y >= 0 {
        pad4(y as nat)
    } else {
        seq!['-'] + pad4((-y) as nat)
    }
}

/// The `YYYY-MM-DD-HH-MM-SS` form of a stamp.
pub open spec fn stamp_seq(st: DateStamp) -> Seq<char> {
    year_seq(st.year as int) + seq!['-'] + dec2(st.month as nat) + seq!['-'] + dec2(
        st.day as nat,
    ) + seq!['-'] + dec2(st.hour as nat) + seq!['-'] + dec2(st.minute as nat) + seq!['-'] + dec2(
        st.second as nat,
    )
}

pub open spec fn screenshot_name_seq(st: DateStamp) -> Seq<char> {
    "screenshot-"@ + stamp_seq(st) + ".png"@
}

pub open spec fn record_name_seq(st: DateStamp) -> Seq<char> {
    "record-"@ + stamp_seq(st) + ".gif"@
}

fn digit_str(d: u32) -> (r: &'static str)
    requires
        d < 10,
    ensures
        r@ == seq![digit_char(d as int)],
{
    proof {
        reveal_strlit("0");
        reveal_strlit("1");
        reveal_strlit("2");
        reveal_strlit("3");
        reveal_strlit("4");
        reveal_strlit("5");
        reveal_strlit("6");
        reveal_strlit("7");
        reveal_strlit("8");
        reveal_strlit("9");
    }
    let r = if d == 0 {
        "0"
    } else if d == 1 {
        "1"
    } else if d == 2 {
        "2"
    } else if d == 3 {
        "3"
    } else if d == 4 {
        "4"
    } else if d == 5 {
        "5"
    } else if d == 6 {
        "6"
    } else if d == 7 {
        "7"
    } else if d == 8 {
        "8"
    } else {
        "9"
    };
    proof {
        assert(r@ =~= seq![digit_char(d as int)]);
    }
    r
}

/// The decimal digits of `n`, as a string.
fn dec_string(n: u32) -> (r: String)
    ensures
        r@ == dec_str(n as nat),
    decreases n,
{
    if n < 10 {
        String::from_str(digit_str(n))
    } else {
        proof {
            assert(n / 10 < n) by (nonlinear_arith)
                requires
                    n >= 10,
            ;
            assert(n % 10 < 10) by (nonlinear_arith);
        }
        let mut s = dec_string(n / 10);
        s.append(digit_str(n % 10));
        s
    }
}

fn pad4_string(n: u32) -> (r: String)
    ensures
        r@ == pad4(n as nat),
{
    proof {
        reveal_strlit("000");
        reveal_strlit("00");
        reveal_strlit("0");
        reveal_strlit("");
    }
    let mut s = if n < 10 {
        String::from_str("000")
    } else if n < 100 {
        String::from_str("00")
    } else if n < 1000 {
        String::from_str("0")
    } else {
        String::from_str("")
    };
    let d = dec_string(n);
    s.append(d.as_str());
    proof {
        assert(s@ =~= pad4(n as nat));
    }
    s
}

fn dec2_string(n: u32) -> (r: String)
    requires
        n < 100,
    ensures
        r@ == dec2(n as nat),
{
    proof {
        assert(n / 10 < 10) by (nonlinear_arith)
            requires
                n < 100,
        ;
        assert(n % 10 < 10) by (nonlinear_arith);
    }
    let mut s = String::from_str(digit_str(n / 10));
    s.append(digit_str(n % 10));
    proof {
        assert(s@ =~= dec2(n as nat));
    }
    s
}

fn year_string(y: i32) -> (r: String)
    ensures
        r@ == year_seq(y as int),
{
    if y >= 0 {
        pad4_string(y as u32)
    } else {
        let a = (-(y as i64)) as u32;
        proof {
            reveal_strlit("-");
        }
        let mut s = String::from_str("-");
        let d = pad4_string(a);
        s.append(d.as_str());
        proof {
            assert(s@ =~= year_seq(y as int));
        }
        s
    }
}

/// The `YYYY-MM-DD-HH-MM-SS` stamp string; also what an editor save is
/// labelled with.
pub fn stamp_string(st: &DateStamp) -> (r: String)
    requires
        st.wf(),
    ensures
        r@ == stamp_seq(*st),
{
    proof {
        reveal_strlit("-");
    }
    let mut s = year_string(st.year);
    s.append("-");
    let m = dec2_string(st.month);
    s.append(m.as_str());
    s.append("-");
    let d = dec2_string(st.day);
    s.append(d.as_str());
    s.append("-");
    let h = dec2_string(st.hour);
    s.append(h.as_str());
    s.append("-");
    let mi = dec2_string(st.minute);
    s.append(mi.as_str());
    s.append("-");
    let se = dec2_string(st.second);
    s.append(se.as_str());
    proof {
        assert(s@ =~= stamp_seq(*st));
    }
    s
}

/// The screenshot file name for a stamp.
pub fn screenshot_name(st: &DateStamp) -> (r: String)
    requires
        st.wf(),
    ensures
        r@ == screenshot_name_seq(*st),
{
    let mut s = String::from_str("screenshot-");
    let t = stamp_string(st);
    s.append(t.as_str());
    s.append(".png");
    proof {
        assert(s@ =~= screenshot_name_seq(*st));
    }
    s
}

/// The recording file name for a stamp.
pub fn record_name(st: &DateStamp) -> (r: String)
    requires
        st.wf(),
    ensures
        r@ == record_name_seq(*st),
{
    let mut s = String::from_str("record-");
    let t = stamp_string(st);
    s.append(t.as_str());
    s.append(".gif");
    proof {
        assert(s@ =~= record_name_seq(*st));
    }
    s
}

} // verus!
