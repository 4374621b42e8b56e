//! Decimal rendering of unsigned integers, with left padding and zero
//! extension, specified character by character.

use vstd::prelude::*;
use vstd::string::StringExecFns;

verus! {

/// The character standing for one decimal digit value.
pub open spec fn spec_digit_char(d: nat) -> char {
    if d == 0 {
        '0'
    } else if d == 1 {
        '1'
    } else if d == 2 {
        '2'
    } else if d == 3 {
        '3'
    } else if d == 4 {
        '4'
    } else if d == 5 {
        '5'
    } else if d == 6 {
        '6'
    } else if d == 7 {
        '7'
    } else if d == 8 {
        '8'
    } else {
        '9'
    }
}

/// The decimal numeral of `n`, most significant digit first, with no sign
/// and no leading zeros (a single `'0'` for zero).
pub open spec fn dec_digits(n: nat) -> Seq<char>
    decreases n,
{
    if n < 10 {
        seq![spec_digit_char(n)]
    } else {
        dec_digits(n / 10).push(spec_digit_char(n % 10))
    }
}

/// `k` copies of the character `c`.
pub open spec fn repeat_char(c: char, k: nat) -> Seq<char>
    decreases k,
{
    if k == 0 {
        Seq::<char>::empty()
    } else {
        repeat_char(c, (k - 1) as nat).push(c)
    }
}

/// `s`, preceded by as many spaces as it takes to reach `width` characters.
pub open spec fn left_padded(s: Seq<char>, width: nat) -> Seq<char> {
    if s.len() >= width {
        s
    } else {
        repeat_char(' ', (width - s.len()) as nat) + s
    }
}

/// The numeral of `n`, preceded by as many zeros as it takes to reach
/// `width` characters.
pub open spec fn zero_extended(n: nat, width: nat) -> Seq<char> {
    if dec_digits(n).len() >= width {
        dec_digits(n)
    } else {
        repeat_char('0', (width - dec_digits(n).len()) as nat) + dec_digits(n)
    }
}

/// Ten to the power `k`.
pub open spec fn pow10(k: nat) -> nat
    decreases k,
{
    if k == 0 {
        1
    } else {
        10 * pow10((k - 1) as nat)
    }
}

pub proof fn lemma_repeat_char_len(c: char, k: nat)
    ensures
        repeat_char(c, k).len() == k,
    decreases k,
{
    if k > 0 {
        lemma_repeat_char_len(c, (k - 1) as nat);
    }
}

/// A numeral never has more digits than any power of ten that exceeds its
/// value.
pub proof fn lemma_dec_digits_len(n: nat, k: nat)
    requires
        k >= 1,
        n < pow10(k),
    ensures
        1 <= dec_digits(n).len() <= k,
    decreases k,
{
    if n >= 10 {
        assert(pow10(k) == 10 * pow10((k - 1) as nat));
        lemma_dec_digits_len(n / 10, (k - 1) as nat);
    }
}

/// Any `u64` value has at most twenty decimal digits.
pub proof fn lemma_dec_digits_len_u64(n: u64)
    ensures
        1 <= dec_digits(n as nat).len() <= 20,
{
    assert(n < pow10(20)) by {
        reveal_with_fuel(pow10, 21);
    }
    lemma_dec_digits_len(n as nat, 20);
}

fn digit_str(d: u64) -> (s: &'static str)
    requires
        d < 10,
    ensures
        s@ == seq![spec_digit_char(d as nat)],
{
    proof {
        reveal_strlit("0");
        reveal_strlit("1");
        reveal_strlit("2");
        reveal_strlit("3");
        reveal_strlit("4");
        reveal_strlit("5");
        reveal_strlit("6");
        reveal_strlit("7");
        reveal_strlit("8");
        reveal_strlit("9");
    }
    let s: &'static str = match d {
        0 => "0",
        1 => "1",
        2 => "2",
        3 => "3",
        4 => "4",
        5 => "5",
        6 => "6",
        7 => "7",
        8 => "8",
        _ => "9",
    };
    proof {
        assert(s@ =~= seq![spec_digit_char(d as nat)]);
    }
    s
}

/// Appends the decimal numeral of `n` to `out`.
pub fn push_u64(out: &mut String, n: u64)
    ensures
        final(out)@ == old(out)@ + dec_digits(n as nat),
    decreases n,
{
    if n >= 10 {
        push_u64(out, n / 10);
    }
    out.append(digit_str(n % 10));
    proof {
        assert(out@ =~= old(out)@ + dec_digits(n as nat));
    }
}

/// The decimal numeral of `n` as a fresh string.
pub fn u64_string(n: u64) -> (s: String)
    ensures
        s@ == dec_digits(n as nat),
{
    let mut s = String::new();
    push_u64(&mut s, n);
    proof {
        assert(s@ =~= dec_digits(n as nat));
    }
    s
}

/// How many characters the decimal numeral of `n` has.
pub fn dec_len(n: u64) -> (l: usize)
    ensures
        l == dec_digits(n as nat).len(),
{
    proof {
        lemma_dec_digits_len_u64(n);
    }
    let mut m: u64 = n;
    let mut l: usize = 1;
    while m >= 10
        invariant
            1 <= l,
            l - 1 + dec_digits(m as nat).len() == dec_digits(n as nat).len(),
            dec_digits(n as nat).len() <= 20,
        decreases m,
    {
        m = m / 10;
        l = l + 1;
    }
    l
}

/// Appends `k` spaces to `out`.
pub fn push_spaces(out: &mut String, k: usize)
    ensures
        final(out)@ == old(out)@ + repeat_char(' ', k as nat),
{
    proof {
        reveal_strlit(" ");
    }
    let ghost base = out@;
    let mut i: usize = 0;
    while i < k
        invariant
            i <= k,
            out@ == base + repeat_char(' ', i as nat),
        decreases k - i,
    {
        out.append(" ");
        i = i + 1;
        proof {
            reveal_strlit(" ");
            assert(out@ =~= base + repeat_char(' ', i as nat));
        }
    }
    proof {
        assert(out@ =~= base + repeat_char(' ', k as nat));
    }
}

/// Appends the numeral of `n`, left-padded with spaces to `width`.
pub fn push_u64_padded(out: &mut String, n: u64, width: usize)
    ensures
        final(out)@ == old(out)@ + left_padded(dec_digits(n as nat), width as nat),
{
    let l = dec_len(n);
    if l < width {
        push_spaces(out, width - l);
    }
    push_u64(out, n);
    proof {
        lemma_repeat_char_len(' ', (width - dec_digits(n as nat).len()) as nat);
        assert(out@ =~= old(out)@ + left_padded(dec_digits(n as nat), width as nat));
    }
}

/// Appends the numeral of `n`, zero-extended to `width` characters.
pub fn push_u64_zero_extended(out: &mut String, n: u64, width: usize)
    ensures
        final(out)@ == old(out)@ + zero_extended(n as nat, width as nat),
{
    proof {
        reveal_strlit("0");
    }
    let l = dec_len(n);
    let ghost base = out@;
    let mut i: usize = 0;
    while l + i < width
        invariant
            i == 0 || l + i <= width,
            out@ == base + repeat_char('0', i as nat),
            l == dec_digits(n as nat).len(),
        decreases width - l - i,
    {
        out.append("0");
        i = i + 1;
        proof {
            reveal_strlit("0");
            assert(out@ =~= base + repeat_char('0', i as nat));
        }
    }
    push_u64(out, n);
    proof {
        lemma_repeat_char_len('0', (width - dec_digits(n as nat).len()) as nat);
        assert(out@ =~= old(out)@ + zero_extended(n as nat, width as nat));
    }
}

} // verus!
