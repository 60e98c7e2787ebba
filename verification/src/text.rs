//! Decimal rendering of unsigned integers and the lexicographic order of
//! text by code point (the order in which Rust compares `String`s, since
//! UTF-8 keeps code point order byte by byte).

use vstd::prelude::*;
use vstd::string::*;

verus! {

/// The decimal digit for `d` (below ten).
pub open spec fn digit_char(d: nat) -> char {
    if d == 0 { '0' }
    else if d == 1 { '1' }
    else if d == 2 { '2' }
    else if d == 3 { '3' }
    else if d == 4 { '4' }
    else if d == 5 { '5' }
    else if d == 6 { '6' }
    else if d == 7 { '7' }
    else if d == 8 { '8' }
    else { '9' }
}

/// Decimal notation of `n`, most significant digit first, with no leading zero.
pub open spec fn decimal_digits(n: nat) -> Seq<char>
    decreases n,
{
    if n < 10 {
        seq![digit_char(n)]
    } else {
        decimal_digits(n / 10).push(digit_char(n % 10))
    }
}

/// The number a string of decimal digits stands for.
pub open spec fn decimal_value(s: Seq<char>) -> int
    decreases s.len(),
{
    if s.len() == 0 {
        0
    } else {
        decimal_value(s.drop_last()) * 10 + digit_value(s.last())
    }
}

/// The value of a decimal digit.
pub open spec fn digit_value(c: char) -> int {
    c as int - '0' as int
}

proof fn lemma_digit_value(d: nat)
    requires
        d < 10,
    ensures
        digit_value(digit_char(d)) == d,
        '0' <= digit_char(d) <= '9',
        d > 0 ==> digit_char(d) != '0',
{
}

/// Decimal notation uses digits only, starts with a non-zero digit unless
/// the number is zero, and reads back as the number it was written from.
pub proof fn lemma_decimal_digits(n: nat)
    ensures
        decimal_digits(n).len() >= 1,
        forall|i: int| 0 <= i < decimal_digits(n).len() ==> '0' <= #[trigger] decimal_digits(n)[i] <= '9',
        n > 0 ==> decimal_digits(n)[0] != '0',
        decimal_value(decimal_digits(n)) == n,
    decreases n,
{
    lemma_digit_value(n % 10);
    if n < 10 {
        assert(decimal_digits(n).drop_last() =~= Seq::<char>::empty());
        assert(decimal_digits(n).last() == digit_char(n));
        assert(n % 10 == n);
        assert(decimal_value(Seq::<char>::empty()) == 0);
        assert(decimal_value(decimal_digits(n)) == n);
    }
    if n >= 10 {
        lemma_decimal_digits(n / 10);
        assert(n == (n / 10) * 10 + n % 10);
        let p = decimal_digits(n / 10);
        assert(decimal_digits(n).drop_last() =~= p);
        assert(decimal_digits(n).last() == digit_char(n % 10));
        assert(decimal_value(decimal_digits(n)) == decimal_value(p) * 10 + digit_value(
            digit_char(n % 10),
        ));
        assert(decimal_value(p) == n / 10);
        assert(decimal_value(decimal_digits(n)) == n);
        assert forall|i: int| 0 <= i < decimal_digits(n).len() implies '0' <= #[trigger] decimal_digits(
            n,
        )[i] <= '9' by {
            if i < p.len() {
                assert(decimal_digits(n)[i] == p[i]);
            }
        }
    }
}

fn digit_text(d: u64) -> (s: &'static str)
    requires
        d < 10,
    ensures
        s@ == seq![digit_char(d as nat)],
{
    let digits = "0123456789";
    proof {
        reveal_strlit("0123456789");
    }
    digits.substring_char(d as usize, d as usize + 1)
}

/// `n` written in decimal.
pub fn decimal(n: u64) -> (s: String)
    ensures
        s@ == decimal_digits(n as nat),
    decreases n,
{
    if n < 10 {
        digit_text(n).to_owned()
    } else {
        let mut s = decimal(n / 10);
        s.append(digit_text(n % 10));
        s
    }
}

/// `a` comes before `b` or equals it, comparing code points from the first
/// character on; a proper prefix comes first.
pub open spec fn text_le(a: Seq<char>, b: Seq<char>) -> bool
    decreases a.len(),
{
    if a.len() == 0 {
        true
    } else if b.len() == 0 {
        false
    } else if a[0] != b[0] {
        (a[0] as int) < (b[0] as int)
    } else {
        text_le(a.drop_first(), b.drop_first())
    }
}

/// The order on text is reflexive, total, antisymmetric and transitive.
pub proof fn lemma_text_le_total_order(a: Seq<char>, b: Seq<char>, c: Seq<char>)
    ensures
        text_le(a, a),
        text_le(a, b) || text_le(b, a),
        text_le(a, b) && text_le(b, a) ==> a == b,
        text_le(a, b) && text_le(b, c) ==> text_le(a, c),
    decreases a.len(),
{
    if a.len() > 0 {
        lemma_text_le_total_order(a.drop_first(), a.drop_first(), a.drop_first());
        if b.len() > 0 {
            lemma_text_le_total_order(a.drop_first(), b.drop_first(), b.drop_first());
            if c.len() > 0 {
                lemma_text_le_total_order(a.drop_first(), b.drop_first(), c.drop_first());
            }
            if a[0] != b[0] {
                assert((a[0] as int) != (b[0] as int));
            }
            if text_le(a, b) && text_le(b, a) {
                assert(a[0] == b[0]);
                assert(a =~= seq![a[0]] + a.drop_first());
                assert(b =~= seq![b[0]] + b.drop_first());
            }
        }
    } else {
        if text_le(b, a) {
            assert(b.len() == 0);
            assert(a =~= b);
        }
    }
}

/// Texts are ordered by their first differing character: when `a` and `b`
/// agree before index `i` and differ at `i`, `a` comes first exactly when
/// its character there has the smaller code point.
pub proof fn lemma_text_le_first_difference(a: Seq<char>, b: Seq<char>, i: int)
    requires
        0 <= i < a.len(),
        i < b.len(),
        forall|j: int| 0 <= j < i ==> a[j] == b[j],
        a[i] != b[i],
    ensures
        text_le(a, b) == ((a[i] as int) < (b[i] as int)),
        text_le(b, a) == ((b[i] as int) < (a[i] as int)),
    decreases i,
{
    if i > 0 {
        assert(a[0] == b[0]);
        assert forall|j: int| 0 <= j < i - 1 implies a.drop_first()[j] == b.drop_first()[j] by {
            assert(a[j + 1] == b[j + 1]);
        }
        lemma_text_le_first_difference(a.drop_first(), b.drop_first(), i - 1);
    }
}

/// A text comes after each of its beginnings, and strictly after each
/// proper one.
pub proof fn lemma_text_le_prefix(a: Seq<char>, k: int)
    requires
        0 <= k <= a.len(),
    ensures
        text_le(a.take(k), a),
        k < a.len() ==> !text_le(a, a.take(k)),
    decreases k,
{
    if k > 0 {
        assert(a.take(k)[0] == a[0]);
        assert(a.take(k).drop_first() =~= a.drop_first().take(k - 1));
        lemma_text_le_prefix(a.drop_first(), k - 1);
    }
}

/// Whether `a` comes before `b` or equals it, by code point.
pub fn text_precedes_or_equals(a: &str, b: &str) -> (r: bool)
    ensures
        r == text_le(a@, b@),
{
    let an = a.unicode_len();
    let bn = b.unicode_len();
    let mut i: usize = 0;
    proof {
        assert(a@.skip(0) =~= a@);
        assert(b@.skip(0) =~= b@);
    }
    while i < an && i < bn
        invariant
            an == a@.len(),
            bn == b@.len(),
            i <= an,
            i <= bn,
            text_le(a@, b@) == text_le(a@.skip(i as int), b@.skip(i as int)),
        decreases an - i,
    {
        let ca = a.get_char(i);
        let cb = b.get_char(i);
        proof {
            assert(a@.skip(i as int)[0] == ca);
            assert(b@.skip(i as int)[0] == cb);
            assert(a@.skip(i as int).drop_first() =~= a@.skip(i + 1));
            assert(b@.skip(i as int).drop_first() =~= b@.skip(i + 1));
        }
        if ca != cb {
            return (ca as u32) < (cb as u32);
        }
        i = i + 1;
    }
    an <= bn
}

} // verus!
