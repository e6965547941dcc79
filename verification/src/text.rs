//! Text encodings that the library relies on: UTF-16 code units and the
//! decimal notation of integers, each stated as a specification and computed
//! by a verified function.
use vstd::prelude::*;

verus! {

/// The UTF-16 code units of one character: one unit below U+10000, a
/// surrogate pair above.
pub open spec fn utf16_of_char(c: char) -> Seq<u16> {
    let v = c as u32;
    if v < 0x10000 {
        seq![v as u16]
    } else {
        let w = (v - 0x10000) as u32;
        seq![(0xD800 + w / 0x400) as u16, (0xDC00 + w % 0x400) as u16]
    }
}

/// The UTF-16 encoding of a text: the units of its characters, in order.
pub open spec fn utf16_encode(s: Seq<char>) -> Seq<u16>
    decreases s.len(),
{
    if s.len() == 0 {
        Seq::empty()
    } else {
        utf16_encode(s.drop_last()) + utf16_of_char(s.last())
    }
}

/// A character takes one UTF-16 code unit below U+10000 and two above; a
/// lone unit is never a low surrogate, the second unit of a pair always is.
pub proof fn lemma_utf16_of_char_shape(c: char)
    ensures
        (c as u32) < 0x10000 ==> utf16_of_char(c).len() == 1 && utf16_of_char(c)[0] == c as u16
            && !(0xDC00 <= utf16_of_char(c)[0] <= 0xDFFF),
        (c as u32) >= 0x10000 ==> utf16_of_char(c).len() == 2 && 0xDC00 <= utf16_of_char(c)[1]
            <= 0xDFFF,
{
}

/// Two characters with the same UTF-16 code units are the same character.
pub proof fn lemma_utf16_of_char_injective(c: char, d: char)
    requires
        utf16_of_char(c) == utf16_of_char(d),
    ensures
        c == d,
{
    let u = utf16_of_char(c);
    if (c as u32) < 0x10000 {
        if (d as u32) >= 0x10000 {
            assert(utf16_of_char(d).len() == 2);
        }
        assert(u[0] == c as u16 && u[0] == d as u16);
    } else {
        if (d as u32) < 0x10000 {
            assert(utf16_of_char(d).len() == 1);
        }
        let w = (c as u32 - 0x10000) as u32;
        let v = (d as u32 - 0x10000) as u32;
        assert(u[0] == (0xD800 + w / 0x400) as u16 && u[0] == (0xD800 + v / 0x400) as u16);
        assert(u[1] == (0xDC00 + w % 0x400) as u16 && u[1] == (0xDC00 + v % 0x400) as u16);
        assert(w / 0x400 == v / 0x400);
        assert(w % 0x400 == v % 0x400);
        assert(w == 0x400 * (w / 0x400) + w % 0x400);
        assert(v == 0x400 * (v / 0x400) + v % 0x400);
    }
}

/// Texts with the same UTF-16 encoding are the same text.
pub proof fn lemma_utf16_injective(x: Seq<char>, y: Seq<char>)
    requires
        utf16_encode(x) == utf16_encode(y),
    ensures
        x == y,
    decreases x.len(),
{
    if x.len() == 0 {
        if y.len() != 0 {
            lemma_utf16_of_char_shape(y.last());
            assert(utf16_encode(y).len() >= 1);
        }
        assert(x =~= y);
    } else if y.len() == 0 {
        lemma_utf16_of_char_shape(x.last());
        assert(utf16_encode(x).len() >= 1);
    } else {
        let ex = utf16_of_char(x.last());
        let ey = utf16_of_char(y.last());
        let px = utf16_encode(x.drop_last());
        let py = utf16_encode(y.drop_last());
        let all = utf16_encode(x);
        assert(all == px + ex);
        assert(all == py + ey);
        let n = all.len() as int;
        lemma_utf16_of_char_shape(x.last());
        lemma_utf16_of_char_shape(y.last());
        assert(all[n - 1] == ex[ex.len() - 1]);
        assert(all[n - 1] == ey[ey.len() - 1]);
        assert(ex.len() == ey.len());
        let k = n - ex.len();
        assert(ex =~= all.subrange(k, n));
        assert(ey =~= all.subrange(k, n));
        assert(px =~= all.subrange(0, k));
        assert(py =~= all.subrange(0, k));
        lemma_utf16_of_char_injective(x.last(), y.last());
        lemma_utf16_injective(x.drop_last(), y.drop_last());
        assert(x =~= x.drop_last().push(x.last()));
        assert(y =~= y.drop_last().push(y.last()));
    }
}

/// The character of a decimal digit.
pub open spec fn digit_char(d: int) -> char {
    seq!['0', '1', '2', '3', '4', '5', '6', '7', '8', '9'][d]
}

/// The decimal digits of a natural number, most significant first, without
/// leading zeros (zero itself is written `0`).
pub open spec fn decimal_digits(n: nat) -> Seq<char>
    decreases n,
{
    if n < 10 {
        seq![digit_char(n as int)]
    } else {
        decimal_digits(n / 10).push(digit_char((n % 10) as int))
    }
}

/// The decimal notation of an integer: a minus sign before the digits of a
/// negative number.
pub open spec fn decimal(n: int) -> Seq<char> {
    if n < 0 {
        seq!['-'] + decimal_digits((-n) as nat)
    } else {
        decimal_digits(n as nat)
    }
}

/// Encoding `@` followed by a text gives the unit of `@` followed by the
/// text's units.
pub proof fn lemma_utf16_prefix_at(s: Seq<char>)
    ensures
        utf16_encode(seq!['@'] + s) == seq![64u16] + utf16_encode(s),
    decreases s.len(),
{
    let t = seq!['@'] + s;
    assert(t.len() == s.len() + 1);
    if s.len() == 0 {
        assert(t.drop_last() =~= Seq::<char>::empty());
        assert(t.last() == '@');
        assert(utf16_encode(Seq::<char>::empty()) == Seq::<u16>::empty());
        assert(utf16_of_char('@') == seq![64u16]);
        assert(utf16_encode(t) == utf16_encode(t.drop_last()) + utf16_of_char(t.last()));
        assert(utf16_encode(s) == Seq::<u16>::empty());
        assert(utf16_encode(t) =~= seq![64u16] + utf16_encode(s));
    } else {
        assert(t.drop_last() =~= seq!['@'] + s.drop_last());
        assert(t.last() == s.last());
        lemma_utf16_prefix_at(s.drop_last());
        assert(utf16_encode(t) == utf16_encode(t.drop_last()) + utf16_of_char(t.last()));
        assert(utf16_encode(s) == utf16_encode(s.drop_last()) + utf16_of_char(s.last()));
        assert(utf16_encode(t) =~= seq![64u16] + utf16_encode(s));
    }
}

/// Appends the UTF-16 code units of one character.
fn push_utf16(units: &mut Vec<u16>, c: char)
    ensures
        final(units)@ == old(units)@ + utf16_of_char(c),
{
    let v = c as u32;
    if v < 0x10000 {
        units.push(v as u16);
    } else {
        let w = v - 0x10000;
        units.push((0xD800 + w / 0x400) as u16);
        units.push((0xDC00 + w % 0x400) as u16);
    }
}

/// The UTF-16 code units of a text (what `str::encode_utf16` yields).
pub fn utf16_units(s: &str) -> (res: Vec<u16>)
    ensures
        res@ == utf16_encode(s@),
{
    let mut units: Vec<u16> = Vec::new();
    for c in it: s.chars()
        invariant
            it.seq() == s@,
            units@ == utf16_encode(s@.take(it.index() as int)),
    {
        let ghost i = it.index() as int;
        push_utf16(&mut units, c);
        proof {
            assert(s@.take(i + 1).drop_last() =~= s@.take(i));
            assert(s@.take(i + 1).last() == c);
        }
    }
    assert(s@.take(s@.len() as int) =~= s@);
    units
}

/// The character of a decimal digit.
fn digit(d: u64) -> (res: char)
    requires
        d < 10,
    ensures
        res == digit_char(d as int),
{
    match d {
        0 => '0',
        1 => '1',
        2 => '2',
        3 => '3',
        4 => '4',
        5 => '5',
        6 => '6',
        7 => '7',
        8 => '8',
        _ => '9',
    }
}

/// Appends the decimal digits of `n`.
fn push_digits(out: &mut String, n: u64)
    ensures
        final(out)@ == old(out)@ + decimal_digits(n as nat),
    decreases n,
{
    if n >= 10 {
        push_digits(out, n / 10);
    }
    push_char(out, digit(n % 10));
    proof {
        if n >= 10 {
            assert(old(out)@ + decimal_digits(n as nat) =~= old(out)@ + decimal_digits((n / 10) as nat)
                + seq![digit_char((n % 10) as int)]);
        } else {
            assert(n % 10 == n);
            assert(old(out)@ + decimal_digits(n as nat) =~= old(out)@ + seq![digit_char(n as int)]);
        }
    }
}

/// The decimal notation of a `u64` (what its `Display` writes).
pub fn u64_to_decimal(n: u64) -> (res: String)
    ensures
        res@ == decimal(n as int),
{
    let mut out = String::new();
    push_digits(&mut out, n);
    assert(out@ =~= decimal(n as int));
    out
}

/// The decimal notation of an `i64` (what its `Display` writes).
pub fn i64_to_decimal(n: i64) -> (res: String)
    ensures
        res@ == decimal(n as int),
{
    let mut out = String::new();
    if n < 0 {
        push_char(&mut out, '-');
        let magnitude = (0i128 - n as i128) as u64;
        push_digits(&mut out, magnitude);
    } else {
        push_digits(&mut out, n as u64);
    }
    assert(out@ =~= decimal(n as int));
    out
}

/// `String::push`: appends one character.
#[verifier::external_body]
pub(crate) fn push_char(s: &mut String, c: char)
    ensures
        final(s)@ == old(s)@.push(c),
{
    s.push(c);
}

} // verus!
