//! A fixed-point quantity with one decimal place.
//!
//! Temperatures (degrees Celsius) and electrical power (watts) are carried
//! as a signed count of tenths of the unit, so that the domain logic and the
//! report rendering stay exact.
use crate::text::dec_chars;
use crate::text::digit_char;
use crate::text::push_dec;
use vstd::prelude::*;
use vstd::string::StringExecFns;

verus! {

/// A signed quantity in tenths of a unit: `Tenths::new(225)` is 22.5.
#[derive(Clone, Copy, Debug, PartialEq, Eq, Structural)]
pub struct Tenths {
    tenths: i64,
}

impl View for Tenths {
    type V = int;

    closed spec fn view(&self) -> int {
        self.tenths as int
    }
}

impl Tenths {
    /// The quantity of `tenths` tenths of a unit.
    pub fn new(tenths: i64) -> (r: Tenths)
        ensures
            r@ == tenths as int,
    {
        Tenths { tenths }
    }

    /// The zero quantity.
    pub fn zero() -> (r: Tenths)
        ensures
            r@ == 0,
    {
        Tenths { tenths: 0 }
    }

    /// The count of tenths this quantity holds.
    pub fn tenths(&self) -> (r: i64)
        ensures
            r as int == self@,
    {
        self.tenths
    }
}

/// Decimal rendering of a quantity of `t` tenths: the sign, then the whole
/// part, then — only when the fractional digit is not zero — a point and
/// that digit.  `600` renders as "60", `-203` as "-20.3", `5` as "0.5".
pub open spec fn tenths_chars(t: int) -> Seq<char> {
    let sign: Seq<char> = if t < 0 {
        seq!['-']
    } else {
        Seq::empty()
    };
    let m = if t < 0 {
        -t
    } else {
        t
    };
    if m % 10 == 0 {
        sign + dec_chars((m / 10) as nat)
    } else {
        sign + dec_chars((m / 10) as nat) + seq!['.'] + seq![digit_char(m % 10)]
    }
}

/// Appends the decimal rendering of `t` to `s`.
pub fn push_tenths(s: &mut String, t: Tenths)
    ensures
        final(s)@ == old(s)@ + tenths_chars(t@),
{
    let v = t.tenths;
    let m: u64 = if v < 0 {
        s.append("-");
        proof {
            reveal_strlit("-");
            assert(s@ =~= old(s)@ + seq!['-']);
        }
        (-(v as i128)) as u64
    } else {
        v as u64
    };
    proof {
        assert(m as int == if t@ < 0 {
            -t@
        } else {
            t@
        });
    }
    push_dec(s, m / 10);
    let frac = m % 10;
    if frac != 0 {
        s.append(".");
        proof {
            reveal_strlit(".");
        }
        let d = crate::text::digit_str(frac);
        s.append(d);
    }
    proof {
        assert(s@ =~= old(s)@ + tenths_chars(t@));
    }
}

} // verus!
