//! Exact ratios of two measurements and their two-decimal text.

use vstd::prelude::*;
use vstd::string::*;
use crate::text::{decimal, hundredths_text, padded, push_hundredths};

verus! {

/// The quotient of two measurements, kept exact as a pair.
#[derive(Clone, Copy, Debug, PartialEq, Eq, Structural)]
pub struct Ratio {
    pub numerator: u64,
    pub denominator: u64,
}

impl Ratio {
    /// A ratio is a number only over a non-zero denominator.
    pub open spec fn is_defined(self) -> bool {
        self.denominator != 0
    }

    /// The quotient in hundredths, rounded to the nearest (halves go up).
    pub open spec fn spec_hundredths(self) -> nat
        recommends
            self.is_defined(),
    {
        ((200 * self.numerator + self.denominator) / (2 * self.denominator)) as nat
    }

    /// The text of the ratio: two decimal places where it is a number,
    /// `inf` for a positive value over zero, `NaN` for zero over zero.
    pub open spec fn text(self) -> Seq<char> {
        if self.denominator != 0 {
            hundredths_text(self.spec_hundredths())
        } else if self.numerator != 0 {
            "inf"@
        } else {
            "NaN"@
        }
    }

    /// Whether the product of two ratios is one.
    pub open spec fn is_reciprocal_of(self, other: Ratio) -> bool {
        &&& self.is_defined()
        &&& other.is_defined()
        &&& self.numerator * other.numerator == self.denominator * other.denominator
    }

    pub fn new(numerator: u64, denominator: u64) -> (r: Ratio)
        ensures
            r.numerator == numerator,
            r.denominator == denominator,
    {
        Ratio { numerator, denominator }
    }

    /// The same two measurements with their roles exchanged.
    pub fn swapped(&self) -> (r: Ratio)
        ensures
            r.numerator == self.denominator,
            r.denominator == self.numerator,
    {
        Ratio { numerator: self.denominator, denominator: self.numerator }
    }

    /// The rounded quotient in hundredths, or `None` over a zero
    /// denominator.
    pub fn hundredths(&self) -> (h: Option<u128>)
        ensures
            h.is_some() == self.is_defined(),
            h matches Some(v) ==> v == self.spec_hundredths(),
    {
        if self.denominator == 0 {
            None
        } else {
            let n: u128 = self.numerator as u128;
            let d: u128 = self.denominator as u128;
            Some((200 * n + d) / (2 * d))
        }
    }

    /// Appends the text of the ratio.
    pub fn push_text(&self, out: &mut String)
        ensures
            final(out)@ == old(out)@ + self.text(),
    {
        match self.hundredths() {
            Some(h) => push_hundredths(out, h),
            None => {
                if self.numerator != 0 {
                    out.append("inf");
                } else {
                    out.append("NaN");
                }
            },
        }
    }

    /// The text of the ratio.
    pub fn render(&self) -> (s: String)
        ensures
            s@ == self.text(),
    {
        let mut s = String::new();
        self.push_text(&mut s);
        assert(s@ =~= self.text());
        s
    }
}

/// Exchanging the roles of two non-zero measurements gives the reciprocal
/// ratio: the two quotients multiply to one.
pub proof fn lemma_swapped_ratio_is_reciprocal(a: u64, b: u64)
    requires
        a != 0,
        b != 0,
    ensures
        (Ratio { numerator: a, denominator: b }).is_reciprocal_of(
            (Ratio { numerator: b, denominator: a }),
        ),
        (Ratio { numerator: b, denominator: a }).is_reciprocal_of(
            (Ratio { numerator: a, denominator: b }),
        ),
{
    assert(a * b == b * a) by (nonlinear_arith);
}

/// The text of a ratio over zero cannot be taken for a number: a number's
/// text has at least four characters, with the point before the last two,
/// and each of the two markers has three without a point.
pub proof fn lemma_marker_differs_from_number(r: Ratio, zero: Ratio)
    requires
        r.is_defined(),
        !zero.is_defined(),
    ensures
        r.text().len() >= 4,
        r.text()[r.text().len() - 3] == '.',
        zero.text().len() == 3,
        forall|i: int| 0 <= i < 3 ==> zero.text()[i] != '.',
        zero.text() == (if zero.numerator != 0 {
            "inf"@
        } else {
            "NaN"@
        }),
        r.text() != zero.text(),
{
    reveal_strlit("inf");
    reveal_strlit("NaN");
    let h = r.spec_hundredths();
    lemma_decimal_is_not_empty(h / 100);
    assert(padded(h, 2).len() == 2) by {
        reveal_with_fuel(padded, 3);
    }
}

/// A number's decimal text has at least one digit.
pub proof fn lemma_decimal_is_not_empty(n: nat)
    ensures
        decimal(n).len() >= 1,
    decreases n,
{
    if n >= 10 {
        lemma_decimal_is_not_empty(n / 10);
    }
}

/// The rounded hundredths lie within half a hundredth of the exact
/// quotient.
pub proof fn lemma_hundredths_is_nearest(r: Ratio)
    requires
        r.is_defined(),
    ensures
        2 * r.denominator * r.spec_hundredths() <= 200 * r.numerator + r.denominator,
        200 * r.numerator + r.denominator < 2 * r.denominator * (r.spec_hundredths() + 1),
{
    let x: int = 200 * r.numerator + r.denominator;
    let d: int = 2 * r.denominator;
    assert(d > 0);
    assert(d * (x / d) <= x && x < d * (x / d + 1)) by (nonlinear_arith)
        requires
            d > 0,
            x >= 0,
    ;
}

} // verus!
