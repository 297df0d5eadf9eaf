//! The opacity setting of the core: read from its first argument and turned
//! into the alpha value of a layered window.

use vstd::prelude::*;
use vstd::string::StrSliceExecFns;

verus! {

/// The opacity, in percent, used when the argument gives none that fits.
pub const DEFAULT_OPACITY: isize = 50;

/// Whether `c` is one of the ASCII digits `0` to `9`.
pub open spec fn is_decimal_digit(c: char) -> bool {
    48 <= (c as u32) <= 57
}

/// The value of a string of decimal digits, most significant first.
pub open spec fn decimal_value(s: Seq<char>) -> int
    decreases s.len(),
{
    if s.len() == 0 {
        0
    } else {
        decimal_value(s.drop_last()) * 10 + ((s.last() as u32) - 48)
    }
}

/// Whether every character of `s` is a decimal digit.
pub open spec fn all_decimal_digits(s: Seq<char>) -> bool {
    forall|i: int| 0 <= i < s.len() ==> is_decimal_digit(#[trigger] s[i])
}

/// The integer that a string spells in the form that `isize::from_str`
/// reads: an optional `+` or `-` and at least one decimal digit, nothing
/// else. The value is that of a mathematical integer; `from_str` also
/// fails on values beyond `isize`, all of which lie outside 0..=100.
pub open spec fn parse_integer(s: Seq<char>) -> Option<int> {
    let negative = s.len() > 0 && s[0] == '-';
    let digits = if s.len() > 0 && (s[0] == '-' || s[0] == '+') {
        s.drop_first()
    } else {
        s
    };
    if digits.len() > 0 && all_decimal_digits(digits) {
        Some(if negative { -decimal_value(digits) } else { decimal_value(digits) })
    } else {
        None
    }
}

/// The opacity that an argument selects: the integer it spells where that
/// lies in 0..=100, the default otherwise.
pub open spec fn opacity_from_argument(s: Seq<char>) -> int {
    match parse_integer(s) {
        Some(v) => if 0 <= v <= 100 { v } else { DEFAULT_OPACITY as int },
        None => DEFAULT_OPACITY as int,
    }
}

/// `x` where it is at most 100, and 101 above.
pub open spec fn capped(x: int) -> int {
    if x > 100 { 101 } else { x }
}

proof fn lemma_decimal_value_nonneg(s: Seq<char>)
    requires
        all_decimal_digits(s),
    ensures
        decimal_value(s) >= 0,
    decreases s.len(),
{
    if s.len() > 0 {
        assert(is_decimal_digit(s[s.len() - 1]));
        assert(all_decimal_digits(s.drop_last())) by {
            assert forall|i: int| 0 <= i < s.drop_last().len() implies is_decimal_digit(
                #[trigger] s.drop_last()[i],
            ) by {
                assert(s.drop_last()[i] == s[i]);
            }
        }
        lemma_decimal_value_nonneg(s.drop_last());
    }
}

/// Reads the opacity from the core's first argument (empty where there is
/// none): the integer it spells if that lies in 0..=100, else 50.
pub fn parse_opacity(arg: &str) -> (opacity: isize)
    ensures
        opacity == opacity_from_argument(arg@),
        0 <= opacity <= 100,
{
    let n = arg.unicode_len();
    let mut start: usize = 0;
    let mut negative = false;
    if n > 0 {
        let c0 = arg.get_char(0);
        if c0 == '-' {
            negative = true;
            start = 1;
        } else if c0 == '+' {
            start = 1;
        }
    }
    let ghost digits = arg@.subrange(start as int, n as int);
    assert(start == 1 ==> digits =~= arg@.drop_first());
    assert(start == 0 ==> digits =~= arg@);
    if start == n {
        return DEFAULT_OPACITY;
    }
    let mut i: usize = start;
    let mut value: u32 = 0;
    assert(arg@.subrange(start as int, start as int) =~= Seq::<char>::empty());
    while i < n
        invariant
            n == arg@.len(),
            start <= i <= n,
            start < n,
            digits == arg@.subrange(start as int, n as int),
            digits == (if arg@.len() > 0 && (arg@[0] == '-' || arg@[0] == '+') {
                arg@.drop_first()
            } else {
                arg@
            }),
            negative == (arg@.len() > 0 && arg@[0] == '-'),
            forall|j: int| start <= j < i ==> is_decimal_digit(#[trigger] arg@[j]),
            all_decimal_digits(arg@.subrange(start as int, i as int)),
            value == capped(decimal_value(arg@.subrange(start as int, i as int))),
        decreases n - i,
    {
        let c = arg.get_char(i);
        let code = c as u32;
        if code < 48 || code > 57 {
            assert(digits[i - start] == c);
            assert(!all_decimal_digits(digits));
            return DEFAULT_OPACITY;
        }
        let ghost prefix = arg@.subrange(start as int, i as int);
        let ghost longer = arg@.subrange(start as int, i + 1);
        assert(longer.drop_last() =~= prefix);
        assert(longer.last() == c);
        assert(all_decimal_digits(longer)) by {
            assert forall|j: int| 0 <= j < longer.len() implies is_decimal_digit(
                #[trigger] longer[j],
            ) by {
                assert(longer[j] == arg@[start + j]);
            }
        }
        proof {
            lemma_decimal_value_nonneg(prefix);
        }
        let d = code - 48;
        if value > 100 {
            value = 101;
        } else {
            let x = value * 10 + d;
            value = if x > 100 { 101 } else { x };
        }
        i = i + 1;
    }
    assert(arg@.subrange(start as int, n as int) =~= digits);
    proof {
        lemma_decimal_value_nonneg(digits);
    }
    if negative {
        if value == 0 { 0 } else { DEFAULT_OPACITY }
    } else {
        if value <= 100 { value as isize } else { DEFAULT_OPACITY }
    }
}

/// The character of a decimal digit.
pub open spec fn digit_char(d: int) -> char {
    if d == 0 { '0' }
    else if d == 1 { '1' }
    else if d == 2 { '2' }
    else if d == 3 { '3' }
    else if d == 4 { '4' }
    else if d == 5 { '5' }
    else if d == 6 { '6' }
    else if d == 7 { '7' }
    else if d == 8 { '8' }
    else { '9' }
}

/// The decimal text of a natural number, without leading zeros.
pub open spec fn decimal_text(n: nat) -> Seq<char>
    decreases n,
{
    if n < 10 {
        seq![digit_char(n as int)]
    } else {
        decimal_text(n / 10) + seq![digit_char((n % 10) as int)]
    }
}

proof fn lemma_decimal_text(n: nat)
    ensures
        decimal_text(n).len() > 0,
        all_decimal_digits(decimal_text(n)),
        decimal_value(decimal_text(n)) == n,
    decreases n,
{
    let t = decimal_text(n);
    if n < 10 {
        assert(t.drop_last() =~= Seq::<char>::empty());
        assert(decimal_value(Seq::<char>::empty()) == 0);
    } else {
        lemma_decimal_text(n / 10);
        let head = decimal_text(n / 10);
        assert(t.drop_last() =~= head);
        assert(all_decimal_digits(t)) by {
            assert forall|i: int| 0 <= i < t.len() implies is_decimal_digit(#[trigger] t[i]) by {
                if i < head.len() {
                    assert(t[i] == head[i]);
                }
            }
        }
    }
}

/// Every opacity from 0 to 100, written in decimal as the argument, is the
/// opacity that the core takes; so is the same text after a `+`.
pub proof fn law_decimal_opacity_is_taken(n: nat)
    requires
        n <= 100,
    ensures
        opacity_from_argument(decimal_text(n)) == n,
        opacity_from_argument(seq!['+'] + decimal_text(n)) == n,
{
    lemma_decimal_text(n);
    let t = decimal_text(n);
    assert(is_decimal_digit(t[0]));
    assert((seq!['+'] + t).drop_first() =~= t);
}

/// The alpha value of a layered window shown at `opacity` percent.
pub open spec fn alpha_of(opacity: int) -> int {
    255 * opacity / 100
}

/// The alpha value (0 to 255) for an opacity in percent.
pub fn alpha_for_opacity(opacity: isize) -> (alpha: u8)
    requires
        0 <= opacity <= 100,
    ensures
        alpha == alpha_of(opacity as int),
{
    assert(0 <= 255 * opacity <= 25500) by (nonlinear_arith)
        requires
            0 <= opacity <= 100,
    ;
    (255 * opacity / 100) as u8
}

} // verus!
