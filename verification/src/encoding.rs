//! Low-level encoding primitives shared by the frame, node and JID codecs:
//! byte-sequence equality, big-endian integer fields, and decimal strings.

use vstd::prelude::*;
use vstd::string::StringExecFns;
use vstd::string::StringSliceAdditionalSpecFns;
use vstd::utf8::encode_utf8;

verus! {

// ---------------------------------------------------------------------------
// Byte and string equality
// ---------------------------------------------------------------------------

/// Structural equality of two byte slices.
pub fn bytes_eq(a: &[u8], b: &[u8]) -> (r: bool)
    ensures
        r <==> a@ == b@,
{
    if a.len() != b.len() {
        return false;
    }
    let mut i: usize = 0;
    while i < a.len()
        invariant
            i <= a@.len(),
            a@.len() == b@.len(),
            forall|j: int| 0 <= j < i ==> a@[j] == b@[j],
        decreases a@.len() - i,
    {
        if a[i] != b[i] {
            return false;
        }
        i += 1;
    }
    proof {
        assert(a@ =~= b@);
    }
    true
}

/// UTF-8 encoding is injective: equal encodings come from equal strings.
pub proof fn lemma_encode_utf8_injective(s1: Seq<char>, s2: Seq<char>)
    requires
        encode_utf8(s1) == encode_utf8(s2),
    ensures
        s1 == s2,
{
    broadcast use vstd::utf8::encode_utf8_decode_utf8;

    assert(vstd::utf8::decode_utf8(encode_utf8(s1)) == s1);
    assert(vstd::utf8::decode_utf8(encode_utf8(s2)) == s2);
}

/// Content equality of two string slices.
pub fn str_eq(a: &str, b: &str) -> (r: bool)
    ensures
        r <==> a@ == b@,
{
    let r = bytes_eq(a.as_bytes(), b.as_bytes());
    proof {
        if r {
            lemma_encode_utf8_injective(a@, b@);
        }
    }
    r
}

/// ASCII lowercase of one byte; bytes outside `b'A'..=b'Z'` are unchanged.
pub open spec fn ascii_lower_u8(x: u8) -> u8 {
    if 65 <= x && x <= 90 {
        (x + 32) as u8
    } else {
        x
    }
}

/// ASCII-lowercased image of a byte sequence.
pub open spec fn ascii_lower_bytes(s: Seq<u8>) -> Seq<u8> {
    s.map_values(|x: u8| ascii_lower_u8(x))
}

/// Two strings are equal up to ASCII case iff their UTF-8 encodings agree
/// after ASCII-lowercasing each byte. Multi-byte UTF-8 units are all at or
/// above `0x80`, so lowering bytes touches exactly the ASCII letters.
pub open spec fn str_ieq(a: Seq<char>, b: Seq<char>) -> bool {
    ascii_lower_bytes(encode_utf8(a)) == ascii_lower_bytes(encode_utf8(b))
}

/// Content equality of two string slices, ignoring ASCII case.
pub fn str_eq_ignore_ascii_case(a: &str, b: &str) -> (r: bool)
    ensures
        r <==> str_ieq(a@, b@),
{
    let ab = a.as_bytes();
    let bb = b.as_bytes();
    if ab.len() != bb.len() {
        proof {
            assert(ascii_lower_bytes(ab@).len() == ab@.len());
            assert(ascii_lower_bytes(bb@).len() == bb@.len());
        }
        return false;
    }
    let mut i: usize = 0;
    while i < ab.len()
        invariant
            i <= ab@.len(),
            ab@.len() == bb@.len(),
            ab@ == encode_utf8(a@),
            bb@ == encode_utf8(b@),
            forall|j: int| 0 <= j < i ==> ascii_lower_bytes(ab@)[j] == ascii_lower_bytes(bb@)[j],
        decreases ab@.len() - i,
    {
        let x = ab[i];
        let y = bb[i];
        let xl = if 65 <= x && x <= 90 {
            x + 32
        } else {
            x
        };
        let yl = if 65 <= y && y <= 90 {
            y + 32
        } else {
            y
        };
        if xl != yl {
            proof {
                assert(ascii_lower_bytes(ab@)[i as int] == ascii_lower_u8(ab@[i as int]));
                assert(ascii_lower_bytes(bb@)[i as int] == ascii_lower_u8(bb@[i as int]));
            }
            return false;
        }
        i += 1;
    }
    proof {
        assert(ascii_lower_bytes(ab@) =~= ascii_lower_bytes(bb@));
    }
    true
}

// ---------------------------------------------------------------------------
// Big-endian integer fields
// ---------------------------------------------------------------------------

/// The two big-endian bytes of a 16-bit value.
pub open spec fn u16_be_bytes(x: u16) -> Seq<u8> {
    seq![(x / 256) as u8, (x % 256) as u8]
}

/// The 16-bit value read from two big-endian bytes.
pub open spec fn u16_of_be(b0: u8, b1: u8) -> u16 {
    (b0 as u16 * 256 + b1 as u16) as u16
}

/// The three big-endian bytes of a value below `2^24`.
pub open spec fn u24_be_bytes(x: u32) -> Seq<u8>
    recommends
        x < 0x1000000,
{
    seq![(x / 0x10000) as u8, ((x / 0x100) % 0x100) as u8, (x % 0x100) as u8]
}

/// The value below `2^24` read from three big-endian bytes.
pub open spec fn u24_of_be(b0: u8, b1: u8, b2: u8) -> u32 {
    (b0 as u32 * 0x10000 + b1 as u32 * 0x100 + b2 as u32) as u32
}

pub proof fn lemma_u16_be_round(x: u16)
    ensures
        u16_of_be(u16_be_bytes(x)[0], u16_be_bytes(x)[1]) == x,
{
}

pub proof fn lemma_u24_be_round(x: u32)
    requires
        x < 0x1000000,
    ensures
        u24_of_be(u24_be_bytes(x)[0], u24_be_bytes(x)[1], u24_be_bytes(x)[2]) == x,
{
}

/// Appends the two big-endian bytes of `x`.
pub fn push_u16_be(out: &mut Vec<u8>, x: u16)
    ensures
        final(out)@ == old(out)@ + u16_be_bytes(x),
{
    out.push((x / 256) as u8);
    out.push((x % 256) as u8);
    proof {
        assert(out@ =~= old(out)@ + u16_be_bytes(x));
    }
}

/// Appends the three big-endian bytes of `x`.
pub fn push_u24_be(out: &mut Vec<u8>, x: u32)
    requires
        x < 0x1000000,
    ensures
        final(out)@ == old(out)@ + u24_be_bytes(x),
{
    out.push((x / 0x10000) as u8);
    out.push(((x / 0x100) % 0x100) as u8);
    out.push((x % 0x100) as u8);
    proof {
        assert(out@ =~= old(out)@ + u24_be_bytes(x));
    }
}

/// Reads a 16-bit big-endian field at `pos`.
pub fn read_u16_be(buf: &[u8], pos: usize) -> (r: u16)
    requires
        pos + 2 <= buf@.len(),
    ensures
        r == u16_of_be(buf@[pos as int], buf@[pos + 1]),
{
    buf[pos] as u16 * 256 + buf[pos + 1] as u16
}

/// Reads a 24-bit big-endian field at `pos`.
pub fn read_u24_be(buf: &[u8], pos: usize) -> (r: u32)
    requires
        pos + 3 <= buf@.len(),
    ensures
        r == u24_of_be(buf@[pos as int], buf@[pos + 1], buf@[pos + 2]),
        r < 0x1000000,
{
    buf[pos] as u32 * 0x10000 + buf[pos + 1] as u32 * 0x100 + buf[pos + 2] as u32
}

/// The eight big-endian bytes of a 64-bit value.
pub open spec fn u64_be_bytes(x: u64) -> Seq<u8> {
    seq![
        (x / 0x100000000000000) as u8,
        ((x / 0x1000000000000) % 0x100) as u8,
        ((x / 0x10000000000) % 0x100) as u8,
        ((x / 0x100000000) % 0x100) as u8,
        ((x / 0x1000000) % 0x100) as u8,
        ((x / 0x10000) % 0x100) as u8,
        ((x / 0x100) % 0x100) as u8,
        (x % 0x100) as u8,
    ]
}

/// The quotients by successive byte shifts determine each other, one
/// mod-256 digit at a time.
proof fn lemma_u64_quotient_step(x: u64, c: int)
    requires
        c >= 1,
        c * 0x100 <= 0x100000000000000,
    ensures
        x as int / c == 0x100 * (x as int / (c * 0x100)) + (x as int / c) % 0x100,
{
    vstd::arithmetic::div_mod::lemma_div_denominator(x as int, c, 0x100);
    vstd::arithmetic::div_mod::lemma_fundamental_div_mod(x as int / c, 0x100);
}

/// The big-endian byte image is injective: it determines the value.
pub proof fn lemma_u64_be_injective(x: u64, y: u64)
    requires
        u64_be_bytes(x) == u64_be_bytes(y),
    ensures
        x == y,
{
    let bx = u64_be_bytes(x);
    let by = u64_be_bytes(y);
    assert forall|i: int| 0 <= i < 8 implies bx[i] == by[i] by {}
    lemma_u64_quotient_step(x, 0x1000000000000);
    lemma_u64_quotient_step(y, 0x1000000000000);
    assert(x / 0x1000000000000 == y / 0x1000000000000);
    lemma_u64_quotient_step(x, 0x10000000000);
    lemma_u64_quotient_step(y, 0x10000000000);
    assert(x / 0x10000000000 == y / 0x10000000000);
    lemma_u64_quotient_step(x, 0x100000000);
    lemma_u64_quotient_step(y, 0x100000000);
    assert(x / 0x100000000 == y / 0x100000000);
    lemma_u64_quotient_step(x, 0x1000000);
    lemma_u64_quotient_step(y, 0x1000000);
    assert(x / 0x1000000 == y / 0x1000000);
    lemma_u64_quotient_step(x, 0x10000);
    lemma_u64_quotient_step(y, 0x10000);
    assert(x / 0x10000 == y / 0x10000);
    lemma_u64_quotient_step(x, 0x100);
    lemma_u64_quotient_step(y, 0x100);
    assert(x / 0x100 == y / 0x100);
    vstd::arithmetic::div_mod::lemma_fundamental_div_mod(x as int, 0x100);
    vstd::arithmetic::div_mod::lemma_fundamental_div_mod(y as int, 0x100);
}

/// Appends the eight big-endian bytes of `x`.
pub fn push_u64_be(out: &mut Vec<u8>, x: u64)
    ensures
        final(out)@ == old(out)@ + u64_be_bytes(x),
{
    out.push((x / 0x100000000000000) as u8);
    out.push(((x / 0x1000000000000) % 0x100) as u8);
    out.push(((x / 0x10000000000) % 0x100) as u8);
    out.push(((x / 0x100000000) % 0x100) as u8);
    out.push(((x / 0x1000000) % 0x100) as u8);
    out.push(((x / 0x10000) % 0x100) as u8);
    out.push(((x / 0x100) % 0x100) as u8);
    out.push((x % 0x100) as u8);
    proof {
        assert(out@ =~= old(out)@ + u64_be_bytes(x));
    }
}

/// Copies `buf[from..to]` into a fresh vector.
pub fn copy_range(buf: &[u8], from: usize, to: usize) -> (r: Vec<u8>)
    requires
        from <= to <= buf@.len(),
    ensures
        r@ == buf@.subrange(from as int, to as int),
{
    let mut out: Vec<u8> = Vec::new();
    let mut i: usize = from;
    while i < to
        invariant
            from <= i <= to <= buf@.len(),
            out@ == buf@.subrange(from as int, i as int),
        decreases to - i,
    {
        out.push(buf[i]);
        proof {
            assert(out@ =~= buf@.subrange(from as int, i + 1));
        }
        i += 1;
    }
    out
}

// ---------------------------------------------------------------------------
// Decimal strings
// ---------------------------------------------------------------------------

/// The decimal digit character for `d` in `0..=9`.
pub open spec fn digit_char(d: int) -> char {
    if d == 0 {
        '0'
    } else if d == 1 {
        '1'
    } else if d == 2 {
        '2'
    } else if d == 3 {
        '3'
    } else if d == 4 {
        '4'
    } else if d == 5 {
        '5'
    } else if d == 6 {
        '6'
    } else if d == 7 {
        '7'
    } else if d == 8 {
        '8'
    } else {
        '9'
    }
}

/// The value of a decimal digit character; `10` marks a non-digit.
pub open spec fn digit_val(c: char) -> int {
    if c == '0' {
        0
    } else if c == '1' {
        1
    } else if c == '2' {
        2
    } else if c == '3' {
        3
    } else if c == '4' {
        4
    } else if c == '5' {
        5
    } else if c == '6' {
        6
    } else if c == '7' {
        7
    } else if c == '8' {
        8
    } else if c == '9' {
        9
    } else {
        10
    }
}

pub open spec fn is_dec_digit(c: char) -> bool {
    digit_val(c) < 10
}

/// The canonical decimal text of `n`: no sign, no leading zero except for 0.
pub open spec fn dec_digits(n: nat) -> Seq<char>
    decreases n,
{
    if n < 10 {
        seq![digit_char(n as int)]
    } else {
        dec_digits(n / 10).push(digit_char((n % 10) as int))
    }
}

/// The numeric value of a digit string, most significant digit first.
pub open spec fn dec_val(s: Seq<char>) -> nat
    decreases s.len(),
{
    if s.len() == 0 {
        0
    } else {
        dec_val(s.drop_last()) * 10 + digit_val(s.last()) as nat
    }
}

pub open spec fn all_dec_digits(s: Seq<char>) -> bool {
    forall|i: int| 0 <= i < s.len() ==> is_dec_digit(s[i])
}

/// Printing a number gives a digit string that reads back as the number.
pub proof fn lemma_dec_digits_val(n: nat)
    ensures
        dec_val(dec_digits(n)) == n,
        all_dec_digits(dec_digits(n)),
        dec_digits(n).len() >= 1,
    decreases n,
{
    if n < 10 {
        let s = dec_digits(n);
        assert(s =~= seq![digit_char(n as int)]);
        assert(s.drop_last() =~= Seq::<char>::empty());
        assert(dec_val(s.drop_last()) == 0);
        assert(s.last() == digit_char(n as int));
        assert(digit_val(digit_char(n as int)) == n);
        assert(dec_val(s) == n);
    } else {
        lemma_dec_digits_val(n / 10);
        let s = dec_digits(n);
        assert(s == dec_digits(n / 10).push(digit_char((n % 10) as int)));
        assert(s.drop_last() =~= dec_digits(n / 10));
        assert(s.last() == digit_char((n % 10) as int));
        assert(digit_val(digit_char((n % 10) as int)) == n % 10);
        assert(dec_val(s) == dec_val(s.drop_last()) * 10 + digit_val(s.last()) as nat);
        assert(dec_val(s) == (n / 10) * 10 + (n % 10));
        vstd::arithmetic::div_mod::lemma_fundamental_div_mod(n as int, 10);
        assert(dec_val(s) == n);
        assert forall|i: int| 0 <= i < s.len() implies is_dec_digit(s[i]) by {
            if i < s.len() - 1 {
                assert(s[i] == dec_digits(n / 10)[i]);
            }
        }
    }
}

/// Extending a digit string by one digit multiplies its value by ten.
pub proof fn lemma_dec_val_take_step(s: Seq<char>, i: int)
    requires
        0 <= i < s.len(),
    ensures
        dec_val(s.take(i + 1)) == dec_val(s.take(i)) * 10 + digit_val(s[i]) as nat,
{
    assert(s.take(i + 1).drop_last() =~= s.take(i));
    assert(s.take(i + 1).last() == s[i]);
}

/// A prefix of a digit string never reads as more than the whole string.
pub proof fn lemma_dec_val_prefix_le(s: Seq<char>, i: int)
    requires
        0 <= i <= s.len(),
    ensures
        dec_val(s.take(i)) <= dec_val(s),
    decreases s.len() - i,
{
    if i == s.len() {
        assert(s.take(i) =~= s);
    } else {
        lemma_dec_val_take_step(s, i);
        lemma_dec_val_prefix_le(s, i + 1);
        assert(dec_val(s.take(i)) <= dec_val(s.take(i)) * 10 + digit_val(s[i]) as nat);
    }
}

/// Parses an unsigned decimal; `None` on empty input, a non-digit, or overflow.
pub fn parse_dec_u64(s: &str) -> (r: Option<u64>)
    ensures
        r matches Some(v) ==> s@.len() > 0 && all_dec_digits(s@) && dec_val(s@) == v,
        r is None ==> s@.len() == 0 || !all_dec_digits(s@) || dec_val(s@) > u64::MAX,
{
    let n = s.unicode_len();
    if n == 0 {
        return None;
    }
    let mut v: u64 = 0;
    let mut i: usize = 0;
    while i < n
        invariant
            0 <= i <= n,
            n == s@.len(),
            v == dec_val(s@.take(i as int)),
            forall|j: int| 0 <= j < i ==> is_dec_digit(s@[j]),
        decreases n - i,
    {
        let c = s.get_char(i);
        let d: u64 = match c {
            '0' => 0,
            '1' => 1,
            '2' => 2,
            '3' => 3,
            '4' => 4,
            '5' => 5,
            '6' => 6,
            '7' => 7,
            '8' => 8,
            '9' => 9,
            _ => {
                return None;
            },
        };
        proof {
            lemma_dec_val_take_step(s@, i as int);
        }
        if v > (u64::MAX - d) / 10 {
            proof {
                lemma_dec_val_prefix_le(s@, i + 1);
                assert(v * 10 + d > u64::MAX) by (nonlinear_arith)
                    requires
                        v > (u64::MAX - d) / 10,
                        d <= 9,
                        v <= u64::MAX,
                ;
            }
            return None;
        }
        proof {
            assert(v * 10 + d <= u64::MAX) by (nonlinear_arith)
                requires
                    v <= (u64::MAX - d) / 10,
                    d <= 9,
            ;
        }
        v = v * 10 + d;
        i += 1;
    }
    proof {
        assert(s@.take(n as int) =~= s@);
    }
    Some(v)
}

/// Parses an unsigned decimal into a byte-sized value.
pub fn parse_dec_u8(s: &str) -> (r: Option<u8>)
    ensures
        r matches Some(v) ==> s@.len() > 0 && all_dec_digits(s@) && dec_val(s@) == v,
        r is None ==> s@.len() == 0 || !all_dec_digits(s@) || dec_val(s@) > u8::MAX,
{
    match parse_dec_u64(s) {
        Some(v) => {
            if v <= 255 {
                Some(v as u8)
            } else {
                None
            }
        },
        None => None,
    }
}

/// Parses an unsigned decimal into a 16-bit value.
pub fn parse_dec_u16(s: &str) -> (r: Option<u16>)
    ensures
        r matches Some(v) ==> s@.len() > 0 && all_dec_digits(s@) && dec_val(s@) == v,
        r is None ==> s@.len() == 0 || !all_dec_digits(s@) || dec_val(s@) > u16::MAX,
{
    match parse_dec_u64(s) {
        Some(v) => {
            if v <= 65535 {
                Some(v as u16)
            } else {
                None
            }
        },
        None => None,
    }
}

fn digit_str(d: u64) -> (r: &'static str)
    requires
        d < 10,
    ensures
        r@ == seq![digit_char(d as int)],
{
    proof {
        reveal_strlit("0");
        reveal_strlit("1");
        reveal_strlit("2");
        reveal_strlit("3");
        reveal_strlit("4");
        reveal_strlit("5");
        reveal_strlit("6");
        reveal_strlit("7");
        reveal_strlit("8");
        reveal_strlit("9");
    }
    let r = match d {
        0 => "0",
        1 => "1",
        2 => "2",
        3 => "3",
        4 => "4",
        5 => "5",
        6 => "6",
        7 => "7",
        8 => "8",
        _ => "9",
    };
    proof {
        assert(r@ =~= seq![digit_char(d as int)]);
    }
    r
}

// ---------------------------------------------------------------------------
// First occurrence of a character
// ---------------------------------------------------------------------------

/// The position of the first occurrence of `c` in `s`, if any.
pub open spec fn find_ch(s: Seq<char>, c: char) -> Option<nat>
    decreases s.len(),
{
    if s.len() == 0 {
        None
    } else if s[0] == c {
        Some(0)
    } else {
        match find_ch(s.drop_first(), c) {
            Some(i) => Some((i + 1) as nat),
            None => None,
        }
    }
}

/// `find_ch` misses exactly when no position holds `c`.
pub proof fn lemma_find_ch_none_iff(s: Seq<char>, c: char)
    ensures
        find_ch(s, c) is None <==> (forall|i: int| 0 <= i < s.len() ==> s[i] != c),
    decreases s.len(),
{
    if s.len() > 0 {
        lemma_find_ch_none_iff(s.drop_first(), c);
        if s[0] != c && find_ch(s.drop_first(), c) is None {
            assert forall|i: int| 0 <= i < s.len() implies s[i] != c by {
                if i > 0 {
                    assert(s.drop_first()[i - 1] == s[i]);
                }
            }
        }
        if forall|i: int| 0 <= i < s.len() ==> s[i] != c {
            assert forall|i: int| 0 <= i < s.drop_first().len() implies s.drop_first()[i] != c by {
                assert(s.drop_first()[i] == s[i + 1]);
            }
        }
    }
}

/// `find_ch` returns the first matching position.
pub proof fn lemma_find_ch_at(s: Seq<char>, c: char, i: int)
    requires
        0 <= i < s.len(),
        s[i] == c,
        forall|j: int| 0 <= j < i ==> s[j] != c,
    ensures
        find_ch(s, c) == Some(i as nat),
    decreases i,
{
    if i > 0 {
        let t = s.drop_first();
        assert forall|j: int| 0 <= j < i - 1 implies t[j] != c by {
            assert(t[j] == s[j + 1]);
        }
        assert(t[i - 1] == s[i]);
        lemma_find_ch_at(t, c, i - 1);
    }
}

/// Searching a concatenation whose head is clean of `c` searches the tail.
pub proof fn lemma_find_ch_concat(a: Seq<char>, b: Seq<char>, c: char)
    requires
        find_ch(a, c) is None,
    ensures
        find_ch(a + b, c) == match find_ch(b, c) {
            Some(i) => Some((a.len() + i) as nat),
            None => None::<nat>,
        },
{
    lemma_find_ch_none_iff(a, c);
    lemma_find_ch_none_iff(b, c);
    lemma_find_ch_none_iff(a + b, c);
    assert((a + b).len() == a.len() + b.len());
    match find_ch(b, c) {
        Some(i) => {
            lemma_find_ch_some_at(b, c);
            assert((a + b)[a.len() + i as int] == b[i as int]);
            assert forall|j: int| 0 <= j < a.len() + i implies (a + b)[j] != c by {
                if j >= a.len() {
                    assert((a + b)[j] == b[j - a.len()]);
                }
            }
            lemma_find_ch_at(a + b, c, a.len() + i as int);
        },
        None => {
            assert forall|j: int| 0 <= j < (a + b).len() implies (a + b)[j] != c by {
                if j < a.len() {
                    assert((a + b)[j] == a[j]);
                } else {
                    assert((a + b)[j] == b[j - a.len()]);
                }
            }
        },
    }
}

/// A found position holds `c`, and nothing before it does.
pub proof fn lemma_find_ch_some_at(s: Seq<char>, c: char)
    requires
        find_ch(s, c) is Some,
    ensures
        find_ch(s, c) matches Some(i) ==> i < s.len() && s[i as int] == c && (forall|j: int|
            0 <= j < i ==> s[j] != c),
    decreases s.len(),
{
    if s.len() > 0 && s[0] != c {
        if find_ch(s.drop_first(), c) is Some {
            lemma_find_ch_some_at(s.drop_first(), c);
            let i = find_ch(s, c).unwrap();
            assert forall|j: int| 0 <= j < i implies s[j] != c by {
                if j > 0 {
                    assert(s.drop_first()[j - 1] == s[j]);
                }
            }
            assert(s[i as int] == s.drop_first()[i - 1]);
        }
    }
}

/// A digit string holds no delimiter characters.
pub proof fn lemma_digits_no_delims(s: Seq<char>)
    requires
        all_dec_digits(s),
    ensures
        find_ch(s, '@') is None,
        find_ch(s, '.') is None,
        find_ch(s, ':') is None,
{
    lemma_find_ch_none_iff(s, '@');
    lemma_find_ch_none_iff(s, '.');
    lemma_find_ch_none_iff(s, ':');
}

/// Finds the first occurrence of `c` in `s`.
pub fn find_char(s: &str, c: char) -> (r: Option<usize>)
    ensures
        r matches Some(i) ==> find_ch(s@, c) == Some(i as nat),
        r is None ==> find_ch(s@, c) is None,
{
    let n = s.unicode_len();
    let mut i: usize = 0;
    while i < n
        invariant
            0 <= i <= n,
            n == s@.len(),
            forall|j: int| 0 <= j < i ==> s@[j] != c,
        decreases n - i,
    {
        if s.get_char(i) == c {
            proof {
                lemma_find_ch_at(s@, c, i as int);
            }
            return Some(i);
        }
        i += 1;
    }
    proof {
        lemma_find_ch_none_iff(s@, c);
    }
    None
}

/// The canonical decimal text of `n`.
pub fn u64_to_dec_string(n: u64) -> (r: String)
    ensures
        r@ == dec_digits(n as nat),
    decreases n,
{
    if n < 10 {
        digit_str(n).to_owned()
    } else {
        let mut s = u64_to_dec_string(n / 10);
        s.append(digit_str(n % 10));
        s
    }
}

} // verus!
