use crate::text::{decimal_text, digit_char, push_decimal};
use vstd::prelude::*;

verus! {

/// A non-negative quotient of two counts, kept as numerator and denominator.
///
/// A zero denominator stands for an unbounded quotient when the numerator is positive
/// and for an undefined one when it is zero; neither compares as at most or above
/// anything undefined.
#[derive(Debug, Clone, Copy, PartialEq, Eq, Structural)]
pub struct Ratio {
    pub numerator: u32,
    pub denominator: u32,
}

impl Ratio {
    pub open spec fn is_undefined(self) -> bool {
        self.denominator == 0 && self.numerator == 0
    }

    pub open spec fn is_unbounded(self) -> bool {
        self.denominator == 0 && self.numerator > 0
    }

    /// `self <= other`, both being defined.
    pub open spec fn spec_at_most(self, other: Ratio) -> bool {
        &&& !self.is_undefined()
        &&& !other.is_undefined()
        &&& if other.is_unbounded() {
            true
        } else if self.is_unbounded() {
            false
        } else {
            self.numerator * other.denominator <= other.numerator * self.denominator
        }
    }

    /// `self > other`, both being defined.
    pub open spec fn spec_exceeds(self, other: Ratio) -> bool {
        !self.is_undefined() && !other.is_undefined() && !self.spec_at_most(other)
    }

    pub fn new(numerator: u32, denominator: u32) -> (r: Ratio)
        ensures
            r.numerator == numerator,
            r.denominator == denominator,
    {
        Ratio { numerator, denominator }
    }

    #[verifier::when_used_as_spec(spec_at_most)]
    pub fn at_most(self, other: Ratio) -> (r: bool)
        ensures
            r == self.spec_at_most(other),
    {
        if self.denominator == 0 && self.numerator == 0 {
            false
        } else if other.denominator == 0 && other.numerator == 0 {
            false
        } else if other.denominator == 0 {
            true
        } else if self.denominator == 0 {
            false
        } else {
            let (a, b, c, d) = (
                self.numerator as u64,
                other.denominator as u64,
                other.numerator as u64,
                self.denominator as u64,
            );
            proof {
                assert(a * b <= 0xffff_ffffu64 * 0xffff_ffffu64) by (nonlinear_arith)
                    requires a <= 0xffff_ffffu64, b <= 0xffff_ffffu64;
                assert(c * d <= 0xffff_ffffu64 * 0xffff_ffffu64) by (nonlinear_arith)
                    requires c <= 0xffff_ffffu64, d <= 0xffff_ffffu64;
            }
            a * b <= c * d
        }
    }

    #[verifier::when_used_as_spec(spec_exceeds)]
    pub fn exceeds(self, other: Ratio) -> (r: bool)
        ensures
            r == self.spec_exceeds(other),
    {
        if (self.denominator == 0 && self.numerator == 0) || (other.denominator == 0
            && other.numerator == 0) {
            false
        } else {
            !self.at_most(other)
        }
    }

    /// The same quotient, both denominators being positive.
    pub open spec fn spec_same_value(self, other: Ratio) -> bool {
        self.denominator > 0 && other.denominator > 0 && self.numerator * other.denominator
            == other.numerator * self.denominator
    }

    pub fn same_value(self, other: Ratio) -> (r: bool)
        ensures
            r == self.spec_same_value(other),
    {
        if self.denominator == 0 || other.denominator == 0 {
            return false;
        }
        let (a, b, c, d) = (
            self.numerator as u64,
            other.denominator as u64,
            other.numerator as u64,
            self.denominator as u64,
        );
        proof {
            assert(a * b <= 0xffff_ffffu64 * 0xffff_ffffu64) by (nonlinear_arith)
                requires a <= 0xffff_ffffu64, b <= 0xffff_ffffu64;
            assert(c * d <= 0xffff_ffffu64 * 0xffff_ffffu64) by (nonlinear_arith)
                requires c <= 0xffff_ffffu64, d <= 0xffff_ffffu64;
        }
        a * b == c * d
    }

    /// Strictly above zero: a positive numerator.
    pub fn is_positive(self) -> (r: bool)
        ensures
            r == (self.numerator > 0),
    {
        self.numerator > 0
    }
}

/// `numerator × scale / denominator`, rounded half up.
pub open spec fn scaled_rounded(r: Ratio, scale: nat) -> nat
    recommends
        r.denominator > 0,
{
    ((r.numerator * scale * 2 + r.denominator) / (r.denominator * 2)) as nat
}

/// The quotient with two decimals ("0.27"), "inf" when unbounded and "NaN" when
/// undefined.
pub open spec fn fixed2_text(r: Ratio) -> Seq<char> {
    if r.is_undefined() {
        seq!['N', 'a', 'N']
    } else if r.is_unbounded() {
        seq!['i', 'n', 'f']
    } else {
        let h = scaled_rounded(r, 100);
        decimal_text(h / 100) + seq!['.', digit_char((h % 100) / 10), digit_char(h % 10)]
    }
}

/// The quotient as a whole percentage ("30"), "inf" when unbounded and "NaN" when
/// undefined.
pub open spec fn percent_text(r: Ratio) -> Seq<char> {
    if r.is_undefined() {
        seq!['N', 'a', 'N']
    } else if r.is_unbounded() {
        seq!['i', 'n', 'f']
    } else {
        decimal_text(scaled_rounded(r, 100))
    }
}

fn rounded_hundredths(r: Ratio) -> (h: u64)
    requires
        r.denominator > 0,
    ensures
        h == scaled_rounded(r, 100),
{
    let n = r.numerator as u64;
    let d = r.denominator as u64;
    proof {
        assert(n * 100 * 2 + d <= 0xffff_ffffu64 * 200 + 0xffff_ffffu64) by (nonlinear_arith)
            requires
                n <= 0xffff_ffffu64,
                d <= 0xffff_ffffu64,
        ;
    }
    (n * 200 + d) / (d * 2)
}

fn push_special(s: &mut String, r: Ratio) -> (handled: bool)
    ensures
        handled == (r.denominator == 0),
        r.is_undefined() ==> final(s)@ == old(s)@ + seq!['N', 'a', 'N'],
        r.is_unbounded() ==> final(s)@ == old(s)@ + seq!['i', 'n', 'f'],
        !handled ==> final(s)@ == old(s)@,
{
    proof {
        reveal_strlit("NaN");
        reveal_strlit("inf");
    }
    if r.denominator == 0 {
        if r.numerator == 0 {
            s.append("NaN");
            assert(s@ =~= old(s)@ + seq!['N', 'a', 'N']);
        } else {
            s.append("inf");
            assert(s@ =~= old(s)@ + seq!['i', 'n', 'f']);
        }
        true
    } else {
        false
    }
}

/// Appends the quotient with two decimals.
pub fn push_fixed2(s: &mut String, r: Ratio)
    ensures
        final(s)@ == old(s)@ + fixed2_text(r),
{
    if push_special(s, r) {
        return;
    }
    let h = rounded_hundredths(r);
    push_decimal(s, h / 100);
    s.append(".");
    push_decimal(s, (h % 100) / 10);
    push_decimal(s, h % 10);
    proof {
        reveal_strlit(".");
        let hn = h as nat;
        assert(decimal_text((hn % 100) / 10) =~= seq![digit_char((hn % 100) / 10)]);
        assert(decimal_text(hn % 10) =~= seq![digit_char(hn % 10)]);
        assert(s@ =~= old(s)@ + fixed2_text(r));
    }
}

/// Appends the quotient as a whole percentage.
pub fn push_percent(s: &mut String, r: Ratio)
    ensures
        final(s)@ == old(s)@ + percent_text(r),
{
    if push_special(s, r) {
        return;
    }
    let h = rounded_hundredths(r);
    push_decimal(s, h);
}

} // verus!
