//! Decimal numbers as written in script text

use vstd::prelude::*;
use crate::text::push_char;

verus! {

pub open spec fn is_digit(c: char) -> bool {
    '0' <= c && c <= '9'
}

/// The text without its leading minus sign, if it has one
pub open spec fn unsigned_part(s: Seq<char>) -> Seq<char> {
    if s.len() > 0 && s[0] == '-' {
        s.skip(1)
    } else {
        s
    }
}

/// `b` is one or more digits, optionally followed by a point and one or more digits
pub open spec fn is_unsigned_decimal(b: Seq<char>) -> bool {
    &&& b.len() > 0
    &&& is_digit(b[0])
    &&& is_digit(b.last())
    &&& forall|i: int| 0 <= i < b.len() ==> is_digit(#[trigger] b[i]) || b[i] == '.'
    &&& forall|i: int, j: int|
        #![trigger b[i], b[j]]
        0 <= i < b.len() && 0 <= j < b.len() && b[i] == '.' && b[j] == '.' ==> i == j
}

/// `s` is a decimal literal: an optional minus sign, one or more digits, and optionally
/// a point followed by one or more digits
pub open spec fn is_decimal_text(s: Seq<char>) -> bool {
    is_unsigned_decimal(unsigned_part(s))
}

/// Every digit is zero
pub open spec fn is_zero(d: Seq<char>) -> bool {
    forall|i: int| 0 <= i < d.len() ==> #[trigger] d[i] == '0'
}

/// The digits spell one: zeros, then a final one
pub open spec fn is_one(d: Seq<char>) -> bool {
    d.len() > 0 && d.last() == '1' && is_zero(d.drop_last())
}

/// A decimal number: a sign, the digits before the point and the digits after it
#[derive(Clone, Debug)]
pub struct Decimal {
    pub negative: bool,
    pub whole: Vec<char>,
    pub fraction: Vec<char>,
}

impl Decimal {
    /// The digits are decimal digits, and there is at least one before the point
    pub open spec fn wf(&self) -> bool {
        &&& self.whole@.len() > 0
        &&& forall|i: int| 0 <= i < self.whole@.len() ==> is_digit(#[trigger] self.whole@[i])
        &&& forall|i: int| 0 <= i < self.fraction@.len() ==> is_digit(#[trigger] self.fraction@[i])
    }

    /// The number as written: the point appears only when digits follow it
    pub open spec fn text(&self) -> Seq<char> {
        (if self.negative { seq!['-'] } else { Seq::empty() }) + self.whole@ + (if self.fraction@.len()
            > 0 {
            seq!['.'] + self.fraction@
        } else {
            Seq::empty()
        })
    }

    /// The number is greater than zero
    pub open spec fn spec_is_positive(&self) -> bool {
        !self.negative && !(is_zero(self.whole@) && is_zero(self.fraction@))
    }

    /// The number lies in the closed interval from zero to one
    pub open spec fn spec_in_unit_interval(&self) -> bool {
        &&& self.negative ==> is_zero(self.whole@) && is_zero(self.fraction@)
        &&& is_zero(self.whole@) || (is_one(self.whole@) && is_zero(self.fraction@))
    }

    /// Reads a decimal literal; `None` when `s` is not one
    pub fn parse(s: &str) -> (r: Option<Decimal>)
        ensures
            r is Some <==> is_decimal_text(s@),
            r matches Some(d) ==> d.wf() && d.text() == s@,
    {
        let n = s.unicode_len();
        let negative = n > 0 && s.get_char(0) == '-';
        let start: usize = if negative { 1 } else { 0 };
        let ghost b = unsigned_part(s@);
        assert(b == s@.skip(start as int));
        let mut whole: Vec<char> = Vec::new();
        let mut fraction: Vec<char> = Vec::new();
        let mut seen_point = false;
        let ghost mut point: int = 0;
        let mut i: usize = start;
        while i < n
            invariant
                start <= i <= n,
                n == s@.len(),
                b == s@.skip(start as int),
                b == unsigned_part(s@),
                forall|k: int| start <= k < i ==> is_digit(#[trigger] s@[k]) || s@[k] == '.',
                !seen_point ==> whole@ == s@.subrange(start as int, i as int) && fraction@.len()
                    == 0,
                !seen_point ==> forall|k: int| start <= k < i ==> #[trigger] s@[k] != '.',
                seen_point ==> start <= point < i && s@[point] == '.',
                seen_point ==> whole@ == s@.subrange(start as int, point),
                seen_point ==> fraction@ == s@.subrange(point + 1, i as int),
                seen_point ==> forall|k: int| start <= k < i && #[trigger] s@[k] == '.' ==> k == point,
                forall|k: int| 0 <= k < whole@.len() ==> is_digit(#[trigger] whole@[k]),
                forall|k: int| 0 <= k < fraction@.len() ==> is_digit(#[trigger] fraction@[k]),
            decreases n - i,
        {
            let c = s.get_char(i);
            if c == '.' {
                if seen_point {
                    assert(b[point - start] == '.' && b[i - start] == '.');
                    assert(!is_unsigned_decimal(b));
                    return None;
                }
                seen_point = true;
                proof {
                    point = i as int;
                }
            } else if '0' <= c && c <= '9' {
                if seen_point {
                    fraction.push(c);
                } else {
                    whole.push(c);
                }
            } else {
                assert(b[i - start] == c);
                assert(!is_unsigned_decimal(b));
                return None;
            }
            i += 1;
            assert(whole@ =~= (if seen_point { s@.subrange(start as int, point) } else { s@.subrange(start as int, i as int) }));
            assert(seen_point ==> fraction@ =~= s@.subrange(point + 1, i as int));
        }
        if whole.len() == 0 || (seen_point && fraction.len() == 0) {
            assert(b.len() == 0 || b[0] == '.' || b.last() == '.');
            return None;
        }
        let d = Decimal { negative, whole, fraction };
        assert(d.text() =~= s@);
        Some(d)
    }

    /// Writes the number out
    pub fn display(&self) -> (r: String)
        ensures
            r@ == self.text(),
    {
        let mut s = String::new();
        if self.negative {
            push_char(&mut s, '-');
        }
        push_all(&mut s, &self.whole);
        if self.fraction.len() > 0 {
            push_char(&mut s, '.');
            push_all(&mut s, &self.fraction);
        }
        assert(s@ =~= self.text());
        s
    }

    /// Whether the number is greater than zero
    pub fn is_positive(&self) -> (r: bool)
        ensures
            r == self.spec_is_positive(),
    {
        assert(self.whole@.subrange(0, self.whole@.len() as int) =~= self.whole@);
        assert(self.fraction@.subrange(0, self.fraction@.len() as int) =~= self.fraction@);
        !self.negative && !(all_zero(&self.whole, self.whole.len()) && all_zero(
            &self.fraction,
            self.fraction.len(),
        ))
    }

    /// Whether the number lies between zero and one, both included
    pub fn in_unit_interval(&self) -> (r: bool)
        ensures
            r == self.spec_in_unit_interval(),
    {
        let whole_zero = all_zero(&self.whole, self.whole.len());
        let fraction_zero = all_zero(&self.fraction, self.fraction.len());
        assert(self.whole@.subrange(0, self.whole@.len() as int) =~= self.whole@);
        assert(self.fraction@.subrange(0, self.fraction@.len() as int) =~= self.fraction@);
        let n = self.whole.len();
        let whole_one = n > 0 && self.whole[n - 1] == '1' && all_zero(&self.whole, n - 1);
        assert(n > 0 ==> self.whole@.drop_last() =~= self.whole@.subrange(0, n - 1));
        (!self.negative || (whole_zero && fraction_zero)) && (whole_zero || (whole_one
            && fraction_zero))
    }
}

fn push_all(s: &mut String, cs: &Vec<char>)
    ensures
        final(s)@ == old(s)@ + cs@,
{
    let mut i: usize = 0;
    while i < cs.len()
        invariant
            i <= cs@.len(),
            s@ == old(s)@ + cs@.subrange(0, i as int),
        decreases cs.len() - i,
    {
        push_char(s, cs[i]);
        i += 1;
        assert(s@ =~= old(s)@ + cs@.subrange(0, i as int));
    }
    assert(cs@.subrange(0, i as int) =~= cs@);
}

/// Whether the first `end` characters are all zeros
fn all_zero(cs: &Vec<char>, end: usize) -> (r: bool)
    requires
        end <= cs@.len(),
    ensures
        r == is_zero(cs@.subrange(0, end as int)),
{
    let mut i: usize = 0;
    while i < end
        invariant
            i <= end <= cs@.len(),
            forall|k: int| 0 <= k < i ==> cs@[k] == '0',
        decreases end - i,
    {
        if cs[i] != '0' {
            assert(cs@.subrange(0, end as int)[i as int] != '0');
            return false;
        }
        i += 1;
    }
    assert(is_zero(cs@.subrange(0, end as int)));
    true
}

} // verus!
