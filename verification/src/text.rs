//! Text primitives shared by the decisions: UTF-16 encoding and decoding,
//! comparison of strings, and the last component of a path.

use vstd::prelude::*;
use vstd::string::StrSliceExecFns;

verus! {

// ---------------------------------------------------------------- UTF-16

/// The UTF-16 code units of one character.
pub open spec fn char_utf16(c: char) -> Seq<u16> {
    let v = c as u32;
    if v < 0x10000 {
        seq![v as u16]
    } else {
        let w = v - 0x10000;
        seq![(0xD800 + w / 0x400) as u16, (0xDC00 + w % 0x400) as u16]
    }
}

/// The UTF-16 encoding of a sequence of characters.
pub open spec fn utf16_encode(s: Seq<char>) -> Seq<u16>
    decreases s.len(),
{
    if s.len() == 0 {
        Seq::empty()
    } else {
        utf16_encode(s.drop_last()) + char_utf16(s.last())
    }
}

/// Whether a code unit is a leading (high) surrogate.
pub open spec fn is_high_surrogate(u: u16) -> bool {
    0xD800 <= u <= 0xDBFF
}

/// Whether a code unit is a trailing (low) surrogate.
pub open spec fn is_low_surrogate(u: u16) -> bool {
    0xDC00 <= u <= 0xDFFF
}

/// The character that a surrogate pair stands for.
pub open spec fn pair_char(hi: u16, lo: u16) -> char {
    ((0x10000 + (hi - 0xD800) * 0x400 + (lo - 0xDC00)) as u32) as char
}

/// Strict UTF-16 decoding, as `String::from_utf16` does it: a unit that is
/// no surrogate is its own character, a leading surrogate followed by a
/// trailing one is the character of the pair, and any other surrogate makes
/// the decoding fail.
pub open spec fn utf16_strict(units: Seq<u16>) -> Option<Seq<char>>
    decreases units.len(),
{
    if units.len() == 0 {
        Some(Seq::empty())
    } else if !is_high_surrogate(units[0]) && !is_low_surrogate(units[0]) {
        match utf16_strict(units.drop_first()) {
            Some(rest) => Some(seq![(units[0] as u32) as char] + rest),
            None => None,
        }
    } else if is_high_surrogate(units[0]) && units.len() >= 2 && is_low_surrogate(units[1]) {
        match utf16_strict(units.subrange(2, units.len() as int)) {
            Some(rest) => Some(seq![pair_char(units[0], units[1])] + rest),
            None => None,
        }
    } else {
        None
    }
}

/// Lossy UTF-16 decoding, as `String::from_utf16_lossy` does it: as the
/// strict decoding, but a surrogate that is not part of a pair becomes
/// U+FFFD and decoding goes on with the next unit.
pub open spec fn utf16_lossy(units: Seq<u16>) -> Seq<char>
    decreases units.len(),
{
    if units.len() == 0 {
        Seq::empty()
    } else if !is_high_surrogate(units[0]) && !is_low_surrogate(units[0]) {
        seq![(units[0] as u32) as char] + utf16_lossy(units.drop_first())
    } else if is_high_surrogate(units[0]) && units.len() >= 2 && is_low_surrogate(units[1]) {
        seq![pair_char(units[0], units[1])] + utf16_lossy(units.subrange(2, units.len() as int))
    } else {
        seq!['\u{FFFD}'] + utf16_lossy(units.drop_first())
    }
}

/// `String::from_utf16_lossy`: decodes the units as `utf16_lossy` says,
/// putting U+FFFD in place of each unpaired surrogate (std documents it as
/// `char::decode_utf16` with each error replaced).
#[verifier::external_body]
pub(crate) fn decode_utf16_lossy(units: &[u16]) -> (s: String)
    ensures
        s@ == utf16_lossy(units@),
{
    String::from_utf16_lossy(units)
}

/// `String::from_utf16`: decodes the units as `utf16_strict` says, and
/// fails exactly where they hold an unpaired surrogate.
#[verifier::external_body]
pub(crate) fn decode_utf16(units: &[u16]) -> (s: Option<String>)
    ensures
        s is Some <==> utf16_strict(units@) is Some,
        s is Some ==> s->0@ == utf16_strict(units@)->0,
{
    String::from_utf16(units).ok()
}

proof fn lemma_encode_concat(a: Seq<char>, b: Seq<char>)
    ensures
        utf16_encode(a + b) == utf16_encode(a) + utf16_encode(b),
    decreases b.len(),
{
    if b.len() == 0 {
        assert(a + b =~= a);
        assert(utf16_encode(a) + utf16_encode(b) =~= utf16_encode(a));
    } else {
        assert((a + b).drop_last() =~= a + b.drop_last());
        assert((a + b).last() == b.last());
        lemma_encode_concat(a, b.drop_last());
        assert(utf16_encode(a + b) =~= utf16_encode(a) + utf16_encode(b));
    }
}

proof fn lemma_encode_front(s: Seq<char>)
    requires
        s.len() > 0,
    ensures
        utf16_encode(s) == char_utf16(s[0]) + utf16_encode(s.drop_first()),
{
    assert(s =~= seq![s[0]] + s.drop_first());
    lemma_encode_concat(seq![s[0]], s.drop_first());
    assert(seq![s[0]].drop_last() =~= Seq::<char>::empty());
    assert(utf16_encode(Seq::<char>::empty()) == Seq::<u16>::empty());
    assert(utf16_encode(seq![s[0]]) =~= char_utf16(s[0]));
}

/// Decoding the UTF-16 encoding of a text gives the text back, strictly and
/// lossily.
pub proof fn law_utf16_round_trip(s: Seq<char>)
    ensures
        utf16_strict(utf16_encode(s)) == Some(s),
        utf16_lossy(utf16_encode(s)) == s,
    decreases s.len(),
{
    if s.len() > 0 {
        let c = s[0];
        let rest = s.drop_first();
        lemma_encode_front(s);
        law_utf16_round_trip(rest);
        let units = utf16_encode(s);
        let tail = utf16_encode(rest);
        let v = c as u32;
        vstd::utf8::char_is_scalar(c);
        vstd::utf8::char_u32_cast(c, v);
        if v < 0x10000 {
            assert(units.drop_first() =~= tail);
            assert(units[0] == v as u16);
            assert(((v as u16) as u32) == v);
            assert(v as char == c);
        } else {
            let w = v - 0x10000;
            assert(w == (w / 0x400) * 0x400 + w % 0x400);
            assert(w < 0x100000);
            assert(w / 0x400 < 0x400);
            assert(units[0] == (0xD800 + w / 0x400) as u16);
            assert(units[0] - 0xD800 == w / 0x400);
            assert(units[1] - 0xDC00 == w % 0x400);
            assert(units.subrange(2, units.len() as int) =~= tail);
            assert(0x10000 + (units[0] - 0xD800) * 0x400 + (units[1] - 0xDC00) == v);
            assert(v as char == c);
            assert(pair_char(units[0], units[1]) == c);
        }
        assert(s =~= seq![c] + rest);
    }
}

/// The UTF-16 code units of a character.
fn encode_char(c: char, out: &mut Vec<u16>)
    ensures
        final(out)@ == old(out)@ + char_utf16(c),
{
    let v = c as u32;
    if v < 0x10000 {
        out.push(v as u16);
    } else {
        let w = v - 0x10000;
        assert(w < 0x100000) by {
            assert(v <= 0x10FFFF);
        }
        out.push((0xD800 + w / 0x400) as u16);
        out.push((0xDC00 + w % 0x400) as u16);
    }
    assert(final(out)@ =~= old(out)@ + char_utf16(c));
}

/// Encodes a string as UTF-16.
pub fn encode_utf16(s: &str) -> (units: Vec<u16>)
    ensures
        units@ == utf16_encode(s@),
{
    let n = s.unicode_len();
    let mut out: Vec<u16> = Vec::new();
    let mut i: usize = 0;
    while i < n
        invariant
            n == s@.len(),
            i <= n,
            out@ == utf16_encode(s@.take(i as int)),
        decreases n - i,
    {
        let c = s.get_char(i);
        assert(s@.take(i + 1).drop_last() =~= s@.take(i as int));
        encode_char(c, &mut out);
        i = i + 1;
    }
    assert(s@.take(n as int) =~= s@);
    out
}

// ---------------------------------------------------------------- strings

/// Whether two strings hold the same characters.
pub fn same_text(a: &str, b: &str) -> (same: bool)
    ensures
        same == (a@ == b@),
{
    let n = a.unicode_len();
    if n != b.unicode_len() {
        return false;
    }
    let mut i: usize = 0;
    while i < n
        invariant
            n == a@.len(),
            n == b@.len(),
            i <= n,
            forall|j: int| 0 <= j < i ==> a@[j] == b@[j],
        decreases n - i,
    {
        if a.get_char(i) != b.get_char(i) {
            return false;
        }
        i = i + 1;
    }
    assert(a@ =~= b@);
    true
}

/// Whether two sequences of code units are the same.
pub fn same_units(a: &[u16], b: &[u16]) -> (same: bool)
    ensures
        same == (a@ == b@),
{
    if a.len() != b.len() {
        return false;
    }
    let mut i: usize = 0;
    while i < a.len()
        invariant
            a@.len() == b@.len(),
            i <= a@.len(),
            forall|j: int| 0 <= j < i ==> a@[j] == b@[j],
        decreases a@.len() - i,
    {
        if a[i] != b[i] {
            return false;
        }
        i = i + 1;
    }
    assert(a@ =~= b@);
    true
}

/// The index of the last occurrence of `c` in `s`, or -1 where it does not
/// occur.
pub open spec fn last_index_of(s: Seq<char>, c: char) -> int
    decreases s.len(),
{
    if s.len() == 0 {
        -1
    } else if s.last() == c {
        s.len() - 1
    } else {
        last_index_of(s.drop_last(), c)
    }
}

/// What follows the last occurrence of `sep` in `s`; all of `s` where `sep`
/// does not occur (what `s.split(sep).next_back()` yields).
pub open spec fn after_last(s: Seq<char>, sep: char) -> Seq<char> {
    s.subrange(last_index_of(s, sep) + 1, s.len() as int)
}

/// The text after the last `sep` in `s`.
pub fn text_after_last(s: &str, sep: char) -> (tail: &str)
    ensures
        tail@ == after_last(s@, sep),
{
    let n = s.unicode_len();
    let mut i: usize = n;
    assert(s@.take(n as int) =~= s@);
    while i > 0
        invariant
            n == s@.len(),
            i <= n,
            last_index_of(s@, sep) == last_index_of(s@.take(i as int), sep),
        decreases i,
    {
        if s.get_char(i - 1) == sep {
            assert(s@.take(i as int).last() == sep);
            return s.substring_char(i, n);
        }
        assert(s@.take(i as int).drop_last() =~= s@.take(i - 1));
        i = i - 1;
    }
    s.substring_char(0, n)
}

} // verus!
