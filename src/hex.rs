use vstd::prelude::*;
use vstd::string::*;

verus! {

/// The lowercase hexadecimal digit for `d` (meaningful for `d < 16`).
pub open spec fn hex_char(d: u64) -> char {
    seq!['0', '1', '2', '3', '4', '5', '6', '7', '8', '9', 'a', 'b', 'c', 'd', 'e', 'f'][d as int]
}

/// The value of a lowercase hexadecimal digit, if `c` is one.
pub open spec fn digit_value(c: char) -> Option<u64> {
    match c {
        '0' => Some(0u64),
        '1' => Some(1u64),
        '2' => Some(2u64),
        '3' => Some(3u64),
        '4' => Some(4u64),
        '5' => Some(5u64),
        '6' => Some(6u64),
        '7' => Some(7u64),
        '8' => Some(8u64),
        '9' => Some(9u64),
        'a' => Some(10u64),
        'b' => Some(11u64),
        'c' => Some(12u64),
        'd' => Some(13u64),
        'e' => Some(14u64),
        'f' => Some(15u64),
        _ => None,
    }
}

/// The `k`-th four-bit group of `x`, counting from the most significant.
pub open spec fn nibble(x: u64, k: int) -> u64 {
    (x >> ((60 - 4 * k) as u64)) & 0xf
}

/// `x` written as exactly sixteen lowercase hexadecimal digits.
pub open spec fn hex_text(x: u64) -> Seq<char> {
    Seq::new(16, |k: int| hex_char(nibble(x, k)))
}

/// The number that a run of hexadecimal digits denotes (modulo 2^64), or
/// `None` where some character is not such a digit.
pub open spec fn hex_value(s: Seq<char>) -> Option<u64>
    decreases s.len(),
{
    if s.len() == 0 {
        Some(0u64)
    } else {
        match (hex_value(s.drop_last()), digit_value(s.last())) {
            (Some(v), Some(d)) => Some((v << 4u64) | d),
            _ => None,
        }
    }
}

proof fn lemma_low_nibble(x: u64, a: u64)
    ensures
        (x >> a) & 0xf < 16,
{
    assert((x >> a) & 0xf < 16) by (bit_vector);
}

proof fn lemma_digit_round_trip(d: u64)
    requires
        d < 16,
    ensures
        digit_value(hex_char(d)) == Some(d),
{
}

proof fn lemma_shift_step(x: u64, a: u64)
    requires
        4 <= a <= 60,
    ensures
        ((x >> a) << 4u64) | ((x >> (a - 4) as u64) & 0xf) == x >> (a - 4) as u64,
{
    assert(((x >> a) << 4u64) | ((x >> (a - 4) as u64) & 0xf) == x >> (a - 4) as u64)
        by (bit_vector)
        requires
            4 <= a <= 60,
    ;
}

proof fn lemma_hex_prefix(x: u64, k: int)
    requires
        0 <= k <= 16,
    ensures
        hex_value(hex_text(x).take(k)) == Some(if k == 0 { 0u64 } else { x >> (64 - 4 * k) as u64 }),
    decreases k,
{
    if k > 0 {
        lemma_hex_prefix(x, k - 1);
        let s = hex_text(x).take(k);
        assert(s.drop_last() =~= hex_text(x).take(k - 1));
        let d = nibble(x, k - 1);
        lemma_low_nibble(x, (60 - 4 * (k - 1)) as u64);
        lemma_digit_round_trip(d);
        if k == 1 {
            assert(((0u64 << 4u64) | ((x >> 60u64) & 0xf)) == x >> 60u64) by (bit_vector);
        } else {
            lemma_shift_step(x, (64 - 4 * (k - 1)) as u64);
        }
    }
}

/// Reading back the digits of `x` gives `x`.
pub proof fn lemma_hex_round_trip(x: u64)
    ensures
        hex_value(hex_text(x)) == Some(x),
{
    lemma_hex_prefix(x, 16);
    assert(hex_text(x).take(16) =~= hex_text(x));
    assert(x >> 0u64 == x) by (bit_vector);
}

proof fn lemma_hex_none_extends(s: Seq<char>, j: int, k: int)
    requires
        0 <= j <= k <= s.len(),
        hex_value(s.take(j)) is None,
    ensures
        hex_value(s.take(k)) is None,
    decreases k - j,
{
    if j < k {
        assert(s.take(j + 1).drop_last() =~= s.take(j));
        lemma_hex_none_extends(s, j + 1, k);
    }
}

/// The one-character text of the digit `d`.
fn digit_str(d: u64) -> (r: &'static str)
    requires
        d < 16,
    ensures
        r@ == seq![hex_char(d)],
{
    proof {
        reveal_strlit("0"); reveal_strlit("1"); reveal_strlit("2"); reveal_strlit("3");
        reveal_strlit("4"); reveal_strlit("5"); reveal_strlit("6"); reveal_strlit("7");
        reveal_strlit("8"); reveal_strlit("9"); reveal_strlit("a"); reveal_strlit("b");
        reveal_strlit("c"); reveal_strlit("d"); reveal_strlit("e"); reveal_strlit("f");
    }
    let r = match d {
        0 => "0",
        1 => "1",
        2 => "2",
        3 => "3",
        4 => "4",
        5 => "5",
        6 => "6",
        7 => "7",
        8 => "8",
        9 => "9",
        10 => "a",
        11 => "b",
        12 => "c",
        13 => "d",
        14 => "e",
        _ => "f",
    };
    assert(r@ =~= seq![hex_char(d)]);
    r
}

/// Appends the sixteen hexadecimal digits of `x` to `out`.
pub fn push_hex(out: &mut String, x: u64)
    ensures
        final(out)@ == old(out)@ + hex_text(x),
{
    let ghost start = out@;
    let mut k: u64 = 0;
    while k < 16
        invariant
            0 <= k <= 16,
            out@ == start + hex_text(x).take(k as int),
        decreases 16 - k,
    {
        let d = (x >> (60 - 4 * k)) & 0xf;
        proof {
            lemma_low_nibble(x, (60 - 4 * k) as u64);
        }
        out.append(digit_str(d));
        assert(hex_text(x).take(k + 1) =~= hex_text(x).take(k as int).push(hex_char(d)));
        k = k + 1;
    }
    assert(hex_text(x).take(16) =~= hex_text(x));
}

/// The value of a hexadecimal digit.
fn digit_of(c: char) -> (r: Option<u64>)
    ensures
        r == digit_value(c),
{
    match c {
        '0' => Some(0),
        '1' => Some(1),
        '2' => Some(2),
        '3' => Some(3),
        '4' => Some(4),
        '5' => Some(5),
        '6' => Some(6),
        '7' => Some(7),
        '8' => Some(8),
        '9' => Some(9),
        'a' => Some(10),
        'b' => Some(11),
        'c' => Some(12),
        'd' => Some(13),
        'e' => Some(14),
        'f' => Some(15),
        _ => None,
    }
}

/// Reads the sixteen hexadecimal digits of `s` that start at `start`.
pub fn read_hex(s: &str, start: usize) -> (r: Option<u64>)
    requires
        start + 16 <= s@.len() <= usize::MAX,
    ensures
        r == hex_value(s@.subrange(start as int, start + 16)),
{
    let ghost field = s@.subrange(start as int, start + 16);
    let mut v: u64 = 0;
    let mut k: usize = 0;
    assert(field.take(0) =~= Seq::<char>::empty());
    while k < 16
        invariant
            0 <= k <= 16,
            start + 16 <= s@.len() <= usize::MAX,
            field == s@.subrange(start as int, start + 16),
            hex_value(field.take(k as int)) == Some(v),
        decreases 16 - k,
    {
        let c = s.get_char(start + k);
        assert(field.take(k + 1).drop_last() =~= field.take(k as int));
        assert(field.take(k + 1).last() == c);
        match digit_of(c) {
            None => {
                proof {
                    lemma_hex_none_extends(field, k + 1, 16);
                    assert(field.take(16) =~= field);
                }
                return None;
            },
            Some(d) => {
                v = (v << 4) | d;
            },
        }
        k = k + 1;
    }
    assert(field.take(16) =~= field);
    Some(v)
}

} // verus!
