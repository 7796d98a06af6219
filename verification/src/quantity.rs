//! Dimensioned scalar quantities, carried as their authored unit-suffixed
//! strings so that retargeting never reformats an authored number.
//!
//! A quantity splits into a magnitude text and a unit; the magnitude is a
//! number exactly when its text is a decimal floating-point literal (the
//! grammar `f64::from_str` accepts). Values the retargeting derives from
//! magnitudes are described by [`QuantityExpr`] and evaluated numerically by the
//! caller.

use vstd::prelude::*;
use crate::grasp_force::GraspMode;
use crate::text::{find_ws, first_ws, substring, trim, trim_bounds};

verus! {

/// A dimensioned scalar as authored: a magnitude and a unit suffix (e.g. `8 N`).
#[derive(Debug, Clone, PartialEq, Eq)]
pub struct Quantity(pub String);

/// An IEEE-754 double carried by its bit pattern; the library never computes with it.
#[derive(Debug, Clone, Copy, PartialEq, Eq)]
pub struct F64Bits(pub u64);

/// Whether `c` is an ASCII digit.
pub open spec fn is_digit(c: char) -> bool {
    '0' <= c <= '9'
}

/// `c` folded to ASCII lower case.
pub open spec fn lower(c: char) -> char {
    if 'A' <= c <= 'Z' {
        ((c as u32) + 32) as char
    } else {
        c
    }
}

/// `s` equals `word` ignoring ASCII case (`word` is lower case).
pub open spec fn eq_ignore_case(s: Seq<char>, word: Seq<char>) -> bool {
    s.len() == word.len() && forall|i: int| 0 <= i < s.len() ==> lower(#[trigger] s[i]) == word[i]
}

/// All characters of `s` are digits.
pub open spec fn all_digits(s: Seq<char>) -> bool {
    forall|i: int| 0 <= i < s.len() ==> is_digit(#[trigger] s[i])
}

/// `Exp ::= 'e' Sign? Digit+` (case-insensitive `e`).
pub open spec fn is_exponent(s: Seq<char>) -> bool {
    &&& s.len() >= 2
    &&& lower(s[0]) == 'e'
    &&& {
        let rest = s.drop_first();
        if rest[0] == '+' || rest[0] == '-' {
            rest.len() >= 2 && all_digits(rest.drop_first())
        } else {
            all_digits(rest)
        }
    }
}

/// `Mantissa ::= Digit+ | Digit+ '.' Digit* | Digit* '.' Digit+`.
pub open spec fn is_mantissa(s: Seq<char>) -> bool {
    ||| (s.len() > 0 && all_digits(s))
    ||| exists|p: int|
        0 <= p < s.len() && #[trigger] s[p] == '.' && all_digits(s.take(p)) && all_digits(
            s.skip(p + 1),
        ) && s.len() >= 2
}

/// `Number ::= Mantissa Exp?`.
pub open spec fn is_number(s: Seq<char>) -> bool {
    ||| is_mantissa(s)
    ||| exists|k: int| 0 < k < s.len() && is_mantissa(s.take(k)) && #[trigger] is_exponent(s.skip(k))
}

/// The unsigned part of a float literal: `inf`, `infinity`, `nan`, or a number.
pub open spec fn is_unsigned_float(s: Seq<char>) -> bool {
    ||| eq_ignore_case(s, "inf"@)
    ||| eq_ignore_case(s, "infinity"@)
    ||| eq_ignore_case(s, "nan"@)
    ||| is_number(s)
}

/// `Float ::= Sign? ('inf' | 'infinity' | 'nan' | Number)`: the text `f64::from_str` accepts.
pub open spec fn is_float_literal(s: Seq<char>) -> bool {
    if s.len() > 0 && (s[0] == '+' || s[0] == '-') {
        is_unsigned_float(s.drop_first())
    } else {
        is_unsigned_float(s)
    }
}

/// The magnitude text and the unit of a quantity text, when it is a quantity:
/// the trimmed text splits at its first whitespace character into a number and
/// a (trimmed) unit.
pub open spec fn spec_split(s: Seq<char>) -> Option<(Seq<char>, Seq<char>)> {
    let t = trim(s);
    match first_ws(t) {
        Some(i) => {
            let num = t.take(i);
            if is_float_literal(num) {
                Some((num, trim(t.skip(i + 1))))
            } else {
                None
            }
        },
        None => None,
    }
}

/// Whether the quantity text has a numeric magnitude and a unit.
pub open spec fn spec_parses(s: Seq<char>) -> bool {
    spec_split(s) is Some
}

impl View for Quantity {
    type V = Seq<char>;

    /// A quantity is viewed as its text.
    open spec fn view(&self) -> Seq<char> {
        self.0@
    }
}

impl Quantity {
    /// The quantity's text.
    pub open spec fn text(&self) -> Seq<char> {
        self.0@
    }

    /// A copy of the quantity.
    pub fn copy(&self) -> (r: Quantity)
        ensures
            r == *self,
    {
        Quantity(self.0.clone())
    }

    /// Split into the magnitude text and the unit, e.g. `"8 N"` gives `("8", "N")`.
    /// `None` when the text is not a `<number> <unit>` quantity.
    pub fn split(&self) -> (r: Option<(String, String)>)
        ensures
            match spec_split(self.0@) {
                Some((n, u)) => r matches Some((rn, ru)) && rn@ == n && ru@ == u,
                None => r is None,
            },
    {
        let s = self.0.as_str();
        let (lo, hi) = trim_bounds(s);
        let ghost t = s@.subrange(lo as int, hi as int);
        match find_ws(s, lo, hi) {
            None => None,
            Some(i) => {
                let num = substring(s, lo, lo + i);
                assert(num@ =~= t.take(i as int));
                if !is_float_text(num.as_str()) {
                    return None;
                }
                let rest_lo = lo + i + 1;
                let rest = s.substring_char(rest_lo, hi);
                assert(rest@ =~= t.skip(i + 1));
                let (ulo, uhi) = trim_bounds(rest);
                let unit = substring(rest, ulo, uhi);
                Some((num, unit))
            },
        }
    }

    /// Whether the quantity has a numeric magnitude and a unit.
    pub fn parses(&self) -> (r: bool)
        ensures
            r == spec_parses(self.0@),
    {
        self.split().is_some()
    }
}

/// Whether `s` consists only of digits.
fn digits_only(s: &str, lo: usize, hi: usize) -> (r: bool)
    requires
        lo <= hi <= s@.len(),
    ensures
        r == all_digits(s@.subrange(lo as int, hi as int)),
{
    let ghost t = s@.subrange(lo as int, hi as int);
    let mut i = lo;
    while i < hi
        invariant
            lo <= i <= hi <= s@.len(),
            t == s@.subrange(lo as int, hi as int),
            forall|j: int| 0 <= j < i - lo ==> is_digit(#[trigger] t[j]),
        decreases hi - i,
    {
        let c = s.get_char(i);
        assert(t[i - lo] == s@[i as int]);
        if !('0' <= c && c <= '9') {
            return false;
        }
        i = i + 1;
    }
    true
}

fn lower_char(c: char) -> (r: char)
    ensures
        r == lower(c),
{
    if 'A' <= c && c <= 'Z' {
        let b = (c as u32 as u8) + 32;
        b as char
    } else {
        c
    }
}

/// `s[lo..hi]` equals `word` ignoring ASCII case.
fn word_ignore_case(s: &str, lo: usize, hi: usize, word: &str) -> (r: bool)
    requires
        lo <= hi <= s@.len(),
    ensures
        r == eq_ignore_case(s@.subrange(lo as int, hi as int), word@),
{
    let ghost t = s@.subrange(lo as int, hi as int);
    if hi - lo != word.unicode_len() {
        return false;
    }
    let mut i = lo;
    while i < hi
        invariant
            lo <= i <= hi <= s@.len(),
            hi - lo == word@.len(),
            t == s@.subrange(lo as int, hi as int),
            forall|j: int| 0 <= j < i - lo ==> lower(#[trigger] t[j]) == word@[j],
        decreases hi - i,
    {
        assert(t[i - lo] == s@[i as int]);
        if lower_char(s.get_char(i)) != word.get_char(i - lo) {
            return false;
        }
        i = i + 1;
    }
    true
}

/// Whether `s[lo..hi]` is a mantissa.
fn mantissa_text(s: &str, lo: usize, hi: usize) -> (r: bool)
    requires
        lo <= hi <= s@.len(),
    ensures
        r == is_mantissa(s@.subrange(lo as int, hi as int)),
{
    let ghost t = s@.subrange(lo as int, hi as int);
    if lo == hi {
        return false;
    }
    let mut i = lo;
    while i < hi && s.get_char(i) != '.'
        invariant
            lo <= i <= hi <= s@.len(),
            t == s@.subrange(lo as int, hi as int),
            forall|j: int| 0 <= j < i - lo ==> #[trigger] t[j] != '.',
        decreases hi - i,
    {
        assert(t[i - lo] == s@[i as int]);
        i = i + 1;
    }
    if i == hi {
        let r = digits_only(s, lo, hi);
        proof {
            if !r {
                assert forall|p: int|
                    0 <= p < t.len() && #[trigger] t[p] == '.' implies false by {}
            }
        }
        return r;
    }
    assert(t[i - lo] == s@[i as int]);
    let a = digits_only(s, lo, i);
    let b = digits_only(s, i + 1, hi);
    proof {
        let p = i - lo;
        assert(t.take(p) =~= s@.subrange(lo as int, i as int));
        assert(t.skip(p + 1) =~= s@.subrange(i + 1, hi as int));
        if a && b && t.len() >= 2 {
            assert(t[p] == '.');
        }
        if !(a && b && t.len() >= 2) {
            assert(!all_digits(t)) by {
                assert(!is_digit(t[p]));
            }
            assert forall|q: int|
                0 <= q < t.len() && #[trigger] t[q] == '.' && all_digits(t.take(q)) && all_digits(
                    t.skip(q + 1),
                ) && t.len() >= 2 implies false by {
                if q < p {
                    assert(t.skip(q + 1)[p - q - 1] == t[p]);
                } else if q > p {
                    assert(t.take(q)[p] == t[p]);
                }
            }
        }
    }
    a && b && hi - lo >= 2
}

/// Whether `s[lo..hi]` is an exponent.
fn exponent_text(s: &str, lo: usize, hi: usize) -> (r: bool)
    requires
        lo <= hi <= s@.len(),
    ensures
        r == is_exponent(s@.subrange(lo as int, hi as int)),
{
    let ghost t = s@.subrange(lo as int, hi as int);
    if hi - lo < 2 {
        return false;
    }
    assert(t[0] == s@[lo as int]);
    if lower_char(s.get_char(lo)) != 'e' {
        return false;
    }
    let c = s.get_char(lo + 1);
    assert(t.drop_first()[0] == s@[lo + 1]);
    if c == '+' || c == '-' {
        let r = digits_only(s, lo + 2, hi);
        assert(t.drop_first().drop_first() =~= s@.subrange(lo + 2, hi as int));
        r && hi - lo >= 3
    } else {
        let r = digits_only(s, lo + 1, hi);
        assert(t.drop_first() =~= s@.subrange(lo + 1, hi as int));
        r
    }
}

/// Whether `s[lo..hi]` is a number (mantissa with optional exponent).
fn number_text(s: &str, lo: usize, hi: usize) -> (r: bool)
    requires
        lo <= hi <= s@.len(),
    ensures
        r == is_number(s@.subrange(lo as int, hi as int)),
{
    let ghost t = s@.subrange(lo as int, hi as int);
    if mantissa_text(s, lo, hi) {
        return true;
    }
    if lo >= hi {
        return false;
    }
    let mut k = lo + 1;
    while k < hi
        invariant
            lo < k,
            lo <= hi <= s@.len(),
            t == s@.subrange(lo as int, hi as int),
            forall|j: int|
                0 < j < k - lo && j < t.len() ==> !(is_mantissa(t.take(j)) && #[trigger] is_exponent(t.skip(j))),
        decreases hi - k,
    {
        let m = mantissa_text(s, lo, k);
        let e = exponent_text(s, k, hi);
        proof {
            assert(t.take(k - lo) =~= s@.subrange(lo as int, k as int));
            assert(t.skip(k - lo) =~= s@.subrange(k as int, hi as int));
        }
        if m && e {
            return true;
        }
        k = k + 1;
    }
    false
}

/// Whether `s` is a float literal that `f64::from_str` accepts.
pub fn is_float_text(s: &str) -> (r: bool)
    ensures
        r == is_float_literal(s@),
{
    let n = s.unicode_len();
    let mut lo: usize = 0;
    if n > 0 {
        let c = s.get_char(0);
        if c == '+' || c == '-' {
            lo = 1;
        }
    }
    let ghost u = s@.subrange(lo as int, n as int);
    proof {
        if lo == 1 {
            assert(u =~= s@.drop_first());
        } else {
            assert(u =~= s@);
        }
    }
    word_ignore_case(s, lo, n, "inf") || word_ignore_case(s, lo, n, "infinity") || word_ignore_case(
        s,
        lo,
        n,
        "nan",
    ) || number_text(s, lo, n)
}

/// A quantity the retargeting derives from authored or descriptor magnitudes,
/// described by the values it is computed from. Each variant's numeric value is
/// produced by the grasp-force derivations; magnitude texts here are known to
/// parse.
#[derive(Debug, Clone, PartialEq)]
pub enum QuantityExpr {
    /// A quantity carried verbatim.
    Given(Quantity),
    /// `value` clamped by magnitude to the scalar descriptor `limit`: the limit
    /// when both parse, share a unit, and the limit is smaller; else the value.
    ClampedToLimit { value: Quantity, limit: Quantity },
    /// The static grip floor `weight × k_holding(mode)` in newtons (GF1c).
    HoldingFloor { weight: Quantity, mode: GraspMode },
    /// `budget` — first clamped to `limit` when one is given, as in
    /// `ClampedToLimit` — then raised to the holding floor of `weight` in `mode`
    /// (in the budget's unit) when the floor exceeds it and the budget parses.
    RaisedToHoldingFloor { budget: Quantity, limit: Option<Quantity>, weight: Quantity, mode: GraspMode },
    /// The dynamic-stability acceleration limit of a held `weight` under the
    /// mode's rated `payload`, in the unit of the kinematic `ceiling`, when it
    /// is below the ceiling; else the ceiling verbatim (GF2c).
    TransportAccel { weight: Quantity, mode: GraspMode, payload: Quantity, ceiling: Quantity },
    /// The carry acceleration limit (GF2c with disturbance and margin reserve),
    /// when below the kinematic `ceiling`; else the ceiling verbatim.
    CarryAccel {
        weight: Quantity,
        mode: GraspMode,
        payload: Quantity,
        ceiling: Quantity,
        disturbance: Option<Quantity>,
        margin: MarginExpr,
    },
    /// The disturbance budget's magnitude in newtons (`0 N` when absent).
    DisturbanceNewtons { disturbance: Option<Quantity> },
    /// The reaction-load limit: the smaller of `budget` and
    /// `grip_max / k_reaction(mode)`, in the budget's unit (GF3c).
    ReactionLimit { budget: Quantity, grip_max: Quantity, mode: GraspMode },
    /// The reaction-torque limit: the smaller of `budget` and
    /// `grip_max × R_GRIP / k_reaction(mode)`, in the budget's unit (GF4c).
    ReactionTorqueLimit { budget: Quantity, grip_max: Quantity, mode: GraspMode },
}

/// The holding-capacity headroom ratio of a carry.
#[derive(Debug, Clone, PartialEq)]
pub enum MarginExpr {
    /// An explicit ratio from the skill.
    Explicit(F64Bits),
    /// The descriptor's default, a YAML number.
    Limit(crate::json::YamlNumber),
    /// No margin (`0`).
    Zero,
}

} // verus!
