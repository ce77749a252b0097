//! Box measurements and the shipping price estimate.
//!
//! A measurement is a non-negative decimal with at most three fractional
//! digits, held exactly as a whole number of thousandths. Widths, lengths and
//! heights are in centimetres, weights in kilograms.
use vstd::prelude::*;

verus! {

/// The largest number of whole units a measurement may have, plus one.
pub const MAX_UNITS: u64 = 1_000_000_000;

/// The largest measurement, in thousandths.
pub const MAX_MILLI: u64 = 1_000_000_000_000;

/// A measurement, in thousandths of a unit.
#[derive(Clone, Copy, Debug, PartialEq, Eq, Structural)]
pub struct Measure {
    pub milli: u64,
}

impl Measure {
    /// Within the range that measurements are read in.
    pub open spec fn wf(self) -> bool {
        self.milli <= MAX_MILLI
    }
}

pub open spec fn is_digit(c: char) -> bool {
    '0' <= c && c <= '9'
}

pub open spec fn all_digits(s: Seq<char>) -> bool {
    forall|i: int| 0 <= i < s.len() ==> is_digit(#[trigger] s[i])
}

pub open spec fn digit_value(c: char) -> nat {
    (c as int - '0' as int) as nat
}

/// The number that a string of decimal digits spells.
pub open spec fn digits_value(s: Seq<char>) -> nat
    decreases s.len(),
{
    if s.len() == 0 {
        0
    } else {
        digits_value(s.drop_last()) * 10 + digit_value(s.last())
    }
}

pub open spec fn pow10(n: nat) -> nat
    decreases n,
{
    if n == 0 {
        1
    } else {
        10 * pow10((n - 1) as nat)
    }
}

/// `s` is a whole part of one to nine digits, a point at `p`, and a
/// fractional part of at most three digits.
pub open spec fn point_at(s: Seq<char>, p: int) -> bool {
    &&& 0 <= p < s.len()
    &&& s[p] == '.'
    &&& s.len() >= 2
    &&& p <= 9
    &&& s.len() - p - 1 <= 3
    &&& all_digits(s.take(p))
    &&& all_digits(s.skip(p + 1))
}

/// The measurement that a text spells, in thousandths: digits, optionally
/// followed by a point and up to three more digits (`12`, `0.5`, `.25`,
/// `7.`). Anything else spells none.
pub open spec fn parse_measure_spec(s: Seq<char>) -> Option<nat> {
    if 1 <= s.len() <= 9 && all_digits(s) {
        Some(digits_value(s) * 1000)
    } else if exists|p: int| point_at(s, p) {
        let p = choose|p: int| point_at(s, p);
        let frac = s.skip(p + 1);
        Some(digits_value(s.take(p)) * 1000 + digits_value(frac) * pow10((3 - frac.len()) as nat))
    } else {
        None
    }
}

proof fn lemma_digits_value_bound(s: Seq<char>)
    requires
        all_digits(s),
    ensures
        digits_value(s) < pow10(s.len()),
    decreases s.len(),
{
    if s.len() > 0 {
        let t = s.drop_last();
        assert(all_digits(t)) by {
            assert forall|i: int| 0 <= i < t.len() implies is_digit(#[trigger] t[i]) by {
                assert(t[i] == s[i]);
            }
        }
        lemma_digits_value_bound(t);
        assert(is_digit(s[s.len() - 1]));
    }
}

/// The number spelled by the characters `from .. to` of `s`, where they are
/// all digits.
fn digits_in(s: &str, from: usize, to: usize) -> (r: Option<u64>)
    requires
        from <= to <= s@.len(),
        to - from <= 9,
    ensures
        r is Some <==> all_digits(s@.subrange(from as int, to as int)),
        r matches Some(v) ==> v as nat == digits_value(s@.subrange(from as int, to as int)) && v
            < MAX_UNITS && v < pow10((to - from) as nat),
{
    let mut acc: u64 = 0;
    let mut i: usize = from;
    while i < to
        invariant
            from <= i <= to <= s@.len(),
            to - from <= 9,
            all_digits(s@.subrange(from as int, i as int)),
            acc == digits_value(s@.subrange(from as int, i as int)),
            acc < pow10((i - from) as nat),
        decreases to - i,
    {
        let c = s.get_char(i);
        let ghost prev = s@.subrange(from as int, i as int);
        let ghost next = s@.subrange(from as int, i + 1);
        assert(next.drop_last() =~= prev);
        if c < '0' || c > '9' {
            assert(!is_digit(s@.subrange(from as int, to as int)[i - from]));
            return None;
        }
        proof {
            assert(pow10((i + 1 - from) as nat) == 10 * pow10((i - from) as nat));
            lemma_pow10_le((i + 1 - from) as nat, 9);
            assert forall|k: int| 0 <= k < next.len() implies is_digit(#[trigger] next[k]) by {
                if k < prev.len() {
                    assert(next[k] == prev[k]);
                }
            }
        }
        acc = acc * 10 + (c as u64 - '0' as u64);
        i = i + 1;
    }
    assert(s@.subrange(from as int, i as int) =~= s@.subrange(from as int, to as int));
    proof {
        lemma_pow10_le((i - from) as nat, 9);
    }
    Some(acc)
}

proof fn lemma_pow10_le(a: nat, b: nat)
    requires
        a <= b,
    ensures
        pow10(a) <= pow10(b),
        pow10(9) == MAX_UNITS,
    decreases b,
{
    reveal_with_fuel(pow10, 10);
    if a < b {
        lemma_pow10_le(a, (b - 1) as nat);
    }
}

impl Measure {
    /// Reads a measurement from text, as `parse_measure_spec` describes.
    pub fn parse(text: &str) -> (r: Option<Measure>)
        ensures
            r matches Some(m) ==> m.wf(),
            parse_measure_spec(text@) == match r {
                Some(m) => Some(m.milli as nat),
                None => None,
            },
    {
        let n = text.unicode_len();
        let ghost s = text@;
        let mut p: usize = 0;
        while p < n && text.get_char(p) != '.'
            invariant
                n == s.len(),
                s == text@,
                p <= n,
                forall|j: int| 0 <= j < p ==> s[j] != '.',
            decreases n - p,
        {
            p = p + 1;
        }
        if p == n {
            // no point: a whole number
            assert(forall|q: int| !point_at(s, q));
            if n < 1 || n > 9 {
                return None;
            }
            assert(s.subrange(0, n as int) =~= s);
            match digits_in(text, 0, n) {
                Some(v) => {
                    return Some(Measure { milli: v * 1000 });
                },
                None => {
                    return None;
                },
            }
        }
        assert(s[p as int] == '.');
        assert(!all_digits(s));
        if n < 2 || p > 9 || n - p - 1 > 3 {
            assert(!point_at(s, p as int));
            proof {
                self::lemma_only_point(s, p as int);
            }
            return None;
        }
        assert(s.subrange(0, p as int) =~= s.take(p as int));
        assert(s.subrange(p + 1, n as int) =~= s.skip(p + 1));
        let whole = digits_in(text, 0, p);
        let frac = digits_in(text, p + 1, n);
        proof {
            self::lemma_only_point(s, p as int);
        }
        match (whole, frac) {
            (Some(w), Some(f)) => {
                assert(point_at(s, p as int));
                let scale: u64 = if n - p - 1 == 0 {
                    1000
                } else if n - p - 1 == 1 {
                    100
                } else if n - p - 1 == 2 {
                    10
                } else {
                    1
                };
                proof {
                    reveal_with_fuel(pow10, 4);
                    assert(scale == pow10((3 - s.skip(p + 1).len()) as nat));
                    assert(f < pow10((n - p - 1) as nat));
                    assert(f * scale < 1000) by (nonlinear_arith)
                        requires
                            (scale == 1000 && f < 1) || (scale == 100 && f < 10)
                                || (scale == 10 && f < 100) || (scale == 1 && f < 1000),
                    {
                    }
                }
                Some(Measure { milli: w * 1000 + f * scale })
            },
            _ => None,
        }
    }
}

/// A text with its first point at `p` has no point other than `p` that
/// splits it into a valid whole and fractional part.
proof fn lemma_only_point(s: Seq<char>, p: int)
    requires
        0 <= p < s.len(),
        s[p] == '.',
        forall|j: int| 0 <= j < p ==> s[j] != '.',
    ensures
        forall|q: int| #[trigger] point_at(s, q) ==> q == p,
{
    assert forall|q: int| #[trigger] point_at(s, q) implies q == p by {
        if q < p {
            assert(s[q] != '.');
        } else if q > p {
            assert(s.take(q)[p] == '.');
            assert(!is_digit(s.take(q)[p]));
        }
    }
}

/// How the shipping price of a box is worked out.
#[derive(Clone, Copy, Debug, PartialEq, Eq, Structural)]
pub enum Pricing {
    /// Dense boxes, at least 100 kg per cubic metre.
    ByWeight,
    /// Light, bulky boxes.
    ByDensity,
}

/// The outcome of an estimate: the density, in tenths of a kilogram per
/// cubic metre and rounded down, and the pricing that it calls for.
#[derive(Clone, Copy, Debug, PartialEq, Eq, Structural)]
pub struct Estimate {
    pub density_tenths: u128,
    pub pricing: Pricing,
}

/// The volume of a box, in cubic thousandths of a centimetre.
pub open spec fn volume_spec(width: Measure, length: Measure, height: Measure) -> nat {
    width.milli as nat * length.milli as nat * height.milli as nat
}

/// With the four measurements in thousandths, the volume in cubic metres is
/// `w * l * h / 10^15` and the density in kg per cubic metre is
/// `weight * 10^12 / (w * l * h)`. It is at least 100 exactly when
/// `weight * 10^10 >= w * l * h`.
pub open spec fn dense_spec(width: Measure, length: Measure, height: Measure, weight: Measure) -> bool {
    weight.milli as nat * 10_000_000_000 >= volume_spec(width, length, height)
}

/// The density in tenths of a kilogram per cubic metre, rounded down.
pub open spec fn density_tenths_spec(
    width: Measure,
    length: Measure,
    height: Measure,
    weight: Measure,
) -> nat
    recommends
        volume_spec(width, length, height) > 0,
{
    (weight.milli as nat * 10_000_000_000_000) / volume_spec(width, length, height)
}

/// The estimate for a box with these dimensions (cm) and weight (kg).
pub open spec fn estimate_spec(width: Measure, length: Measure, height: Measure, weight: Measure) -> Estimate {
    Estimate {
        density_tenths: density_tenths_spec(width, length, height, weight) as u128,
        pricing: if dense_spec(width, length, height, weight) {
            Pricing::ByWeight
        } else {
            Pricing::ByDensity
        },
    }
}

/// Estimates how a box is priced: by weight when its density is at least
/// 100 kg per cubic metre, the boundary included, else by density.
pub fn estimate(width: Measure, length: Measure, height: Measure, weight: Measure) -> (r: Estimate)
    requires
        width.wf(),
        length.wf(),
        height.wf(),
        weight.wf(),
        width.milli > 0,
        length.milli > 0,
        height.milli > 0,
    ensures
        r == estimate_spec(width, length, height, weight),
        r.density_tenths as nat == density_tenths_spec(width, length, height, weight),
        r.pricing is ByWeight <==> dense_spec(width, length, height, weight),
{
    let w = width.milli as u128;
    let l = length.milli as u128;
    let h = height.milli as u128;
    let m = weight.milli as u128;
    proof {
        assert(w * l <= 1_000_000_000_000_000_000_000_000) by (nonlinear_arith)
            requires
                w <= 1_000_000_000_000,
                l <= 1_000_000_000_000,
        ;
        assert(w * l * h <= 1_000_000_000_000_000_000_000_000_000_000_000_000) by (nonlinear_arith)
            requires
                w * l <= 1_000_000_000_000_000_000_000_000,
                h <= 1_000_000_000_000,
        ;
        assert(w * l * h > 0) by (nonlinear_arith)
            requires
                w > 0,
                l > 0,
                h > 0,
        ;
    }
    let volume = w * l * h;
    let dense = m * 10_000_000_000 >= volume;
    let tenths = m * 10_000_000_000_000 / volume;
    Estimate { density_tenths: tenths, pricing: if dense { Pricing::ByWeight } else { Pricing::ByDensity } }
}

} // verus!
