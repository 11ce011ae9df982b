//! UTF-16 text, as the platform's wide-character calls take it.
use vstd::prelude::*;

verus! {

/// The UTF-16 code units of one character.
pub open spec fn utf16_of_char(c: char) -> Seq<u16> {
    let v = c as u32;
    if v < 0x10000 {
        seq![v as u16]
    } else {
        seq![(0xD800 + (v - 0x10000) / 0x400) as u16, (0xDC00 + (v - 0x10000) % 0x400) as u16]
    }
}

/// The UTF-16 code units of a character sequence.
pub open spec fn utf16(s: Seq<char>) -> Seq<u16>
    decreases s.len(),
{
    if s.len() == 0 {
        Seq::empty()
    } else {
        utf16(s.drop_last()) + utf16_of_char(s.last())
    }
}

/// Appends the UTF-16 code units of `c` to `out`.
pub fn push_utf16(out: &mut Vec<u16>, c: char)
    ensures
        final(out)@ == old(out)@ + utf16_of_char(c),
{
    let v = c as u32;
    if v < 0x10000 {
        out.push(v as u16);
    } else {
        let high = (0xD800 + (v - 0x10000) / 0x400) as u16;
        let low = (0xDC00 + (v - 0x10000) % 0x400) as u16;
        out.push(high);
        out.push(low);
    }
    assert(final(out)@ =~= old(out)@ + utf16_of_char(c));
}

/// The UTF-16 code units of the characters `cs`.
pub fn encode_chars(cs: &[char]) -> (r: Vec<u16>)
    ensures
        r@ == utf16(cs@),
{
    let mut out: Vec<u16> = Vec::new();
    let mut i: usize = 0;
    while i < cs.len()
        invariant
            i <= cs@.len(),
            out@ == utf16(cs@.take(i as int)),
        decreases cs@.len() - i,
    {
        push_utf16(&mut out, cs[i]);
        i += 1;
        assert(cs@.take(i as int).drop_last() =~= cs@.take(i - 1));
    }
    assert(cs@.take(cs@.len() as int) =~= cs@);
    out
}

/// The UTF-16 code units of `s`.
pub fn wide_string(s: &str) -> (r: Vec<u16>)
    ensures
        r@ == utf16(s@),
{
    let n = s.unicode_len();
    let mut out: Vec<u16> = Vec::new();
    let mut i: usize = 0;
    while i < n
        invariant
            n == s@.len(),
            i <= n,
            out@ == utf16(s@.take(i as int)),
        decreases n - i,
    {
        push_utf16(&mut out, s.get_char(i));
        i += 1;
        assert(s@.take(i as int).drop_last() =~= s@.take(i - 1));
    }
    assert(s@.take(n as int) =~= s@);
    out
}

/// The UTF-16 code units of `s` followed by a terminating zero unit.
pub fn wide_string_term(s: &str) -> (r: Vec<u16>)
    ensures
        r@ == utf16(s@).push(0),
{
    let mut out = wide_string(s);
    out.push(0);
    out
}

} // verus!
