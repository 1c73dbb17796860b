//! Byte and string helpers shared by the escape-sequence encoders.

use vstd::prelude::*;
use vstd::utf8::*;

verus! {

broadcast use vstd::utf8::encode_utf8_decode_utf8;

/// The ASCII decimal digits of `n`, most significant first, without leading zeros.
pub open spec fn decimal(n: nat) -> Seq<u8>
    decreases n,
{
    if n < 10 {
        seq![(48 + n) as u8]
    } else {
        decimal(n / 10).push((48 + n % 10) as u8)
    }
}

/// The number denoted by a run of ASCII decimal digits.
pub open spec fn digits_value(s: Seq<u8>) -> nat
    decreases s.len(),
{
    if s.len() == 0 {
        0
    } else {
        digits_value(s.drop_last()) * 10 + (s.last() - 48) as nat
    }
}

/// Every byte of `s` is an ASCII decimal digit.
pub open spec fn all_digits(s: Seq<u8>) -> bool {
    forall|i: int| 0 <= i < s.len() ==> 48 <= #[trigger] s[i] <= 57
}

/// The UTF-8 bytes of a character sequence.
pub open spec fn utf8(s: Seq<char>) -> Seq<u8> {
    encode_utf8(s)
}

/// The decimal rendering consists of digits only and reads back as `n`.
pub proof fn lemma_decimal_digits(n: nat)
    ensures
        decimal(n).len() >= 1,
        all_digits(decimal(n)),
        digits_value(decimal(n)) == n,
    decreases n,
{
    if n >= 10 {
        lemma_decimal_digits(n / 10);
        let d = decimal(n / 10);
        let e = d.push((48 + n % 10) as u8);
        assert(e.drop_last() =~= d);
        assert((n / 10) * 10 + n % 10 == n) by (nonlinear_arith);
        assert(decimal(n) == e);
        assert(e.last() == (48 + n % 10) as u8);
        assert((e.last() - 48) as nat == n % 10);
        assert(digits_value(e) == digits_value(d) * 10 + (e.last() - 48) as nat);
        assert(digits_value(d) == n / 10);
        assert(digits_value(e) == n);
        assert(digits_value(decimal(n)) == n);
        assert forall|i: int| 0 <= i < e.len() implies 48 <= #[trigger] e[i] <= 57 by {
            if i < d.len() {
                assert(e[i] == d[i]);
            }
        }
    } else {
        let s = seq![(48 + n) as u8];
        assert(decimal(n) == s);
        assert(s.drop_last() =~= Seq::<u8>::empty());
        assert(digits_value(s) == digits_value(s.drop_last()) * 10 + (s.last() - 48) as nat);
    }
}

/// Different numbers have different decimal renderings.
pub proof fn lemma_decimal_injective(a: nat, b: nat)
    requires
        decimal(a) == decimal(b),
    ensures
        a == b,
{
    lemma_decimal_digits(a);
    lemma_decimal_digits(b);
}

/// Appends the decimal digits of `n` to `out`.
pub fn push_decimal(out: &mut Vec<u8>, n: u64)
    ensures
        final(out)@ == old(out)@ + decimal(n as nat),
    decreases n,
{
    if n >= 10 {
        push_decimal(out, n / 10);
    }
    let d: u8 = (n % 10) as u8;
    out.push(48 + d);
    proof {
        if n >= 10 {
            assert(decimal(n as nat) == decimal((n / 10) as nat).push((48 + n % 10) as u8));
        }
    }
    assert(final(out)@ =~= old(out)@ + decimal(n as nat)) by {
        if n >= 10 {
            assert(decimal(n as nat) == decimal((n / 10) as nat).push((48 + n % 10) as u8));
        }
    }
}

/// Appends every byte of `tail` to `out`.
pub fn push_all(out: &mut Vec<u8>, tail: &[u8])
    ensures
        final(out)@ == old(out)@ + tail@,
{
    let mut i: usize = 0;
    while i < tail.len()
        invariant
            i <= tail@.len(),
            out@ == old(out)@ + tail@.subrange(0, i as int),
        decreases tail@.len() - i,
    {
        out.push(tail[i]);
        i = i + 1;
        assert(out@ =~= old(out)@ + tail@.subrange(0, i as int));
    }
    assert(tail@.subrange(0, tail@.len() as int) =~= tail@);
}

/// Appends the UTF-8 bytes of `s` to `out`.
pub fn push_str(out: &mut Vec<u8>, s: &str)
    ensures
        final(out)@ == old(out)@ + utf8(s@),
{
    push_all(out, s.as_bytes());
}

/// The UTF-8 bytes of `s` as a new vector.
pub fn str_bytes(s: &str) -> (r: Vec<u8>)
    ensures
        r@ == utf8(s@),
{
    let mut out: Vec<u8> = Vec::new();
    push_str(&mut out, s);
    assert(out@ =~= utf8(s@));
    out
}

/// Whether two strings hold the same characters.
pub fn str_eq(a: &str, b: &str) -> (r: bool)
    ensures
        r == (a@ == b@),
{
    let x = a.as_bytes();
    let y = b.as_bytes();
    if x.len() != y.len() {
        return false;
    }
    let mut i: usize = 0;
    while i < x.len()
        invariant
            x@ == utf8(a@),
            y@ == utf8(b@),
            x@.len() == y@.len(),
            i <= x@.len(),
            forall|j: int| 0 <= j < i ==> x@[j] == y@[j],
        decreases x@.len() - i,
    {
        if x[i] != y[i] {
            return false;
        }
        i = i + 1;
    }
    assert(x@ =~= y@);
    proof {
        assert(decode_utf8(encode_utf8(a@)) == a@);
        assert(decode_utf8(encode_utf8(b@)) == b@);
    }
    true
}

/// A non-empty UTF-8 encoding comes from a non-empty character sequence.
pub proof fn lemma_utf8_nonempty(s: Seq<char>)
    ensures
        utf8(s).len() > 0 <==> s.len() > 0,
{
    if s.len() > 0 {
        assert(encode_utf8(s) == encode_scalar(s[0] as u32) + encode_utf8(s.drop_first()));
    }
}

/// A one-byte UTF-8 encoding is a single ASCII character.
pub proof fn lemma_utf8_single_byte(s: Seq<char>)
    requires
        utf8(s).len() == 1,
    ensures
        s.len() == 1,
        (s[0] as u32) < 128,
        utf8(s).len() == 1,
        utf8(s)[0] as u32 == s[0] as u32,
{
    lemma_utf8_nonempty(s);
    let rest = s.drop_first();
    assert(encode_utf8(s) == encode_scalar(s[0] as u32) + encode_utf8(rest));
    lemma_utf8_nonempty(rest);
    assert(encode_scalar(s[0] as u32).len() >= 1);
    assert(encode_utf8(rest).len() == 0);
    assert(rest.len() == 0);
    let c = s[0] as u32;
    assert(has_width_1_encoding(c));
    assert(c <= 0x7F ==> ((c & 0x7F) as u8) as u32 == c) by (bit_vector);
    assert(utf8(s)[0] == leading_byte_width_1(c));
}

/// The length of the UTF-8 encoding of `s` in bytes.
pub fn utf8_len(s: &str) -> (r: usize)
    ensures
        r == utf8(s@).len(),
{
    s.as_bytes().len()
}

/// The first character of a string whose UTF-8 encoding is one byte long.
pub fn single_char(s: &str) -> (c: char)
    requires
        utf8(s@).len() == 1,
    ensures
        s@ == seq![c],
        (c as u32) < 128,
{
    proof {
        lemma_utf8_single_byte(s@);
    }
    let c = s.get_char(0);
    assert(s@ =~= seq![c]);
    c
}

} // verus!
