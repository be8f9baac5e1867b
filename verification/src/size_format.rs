use vstd::prelude::*;
use crate::strings::{decimal, digit_char, u128_to_decimal, str_chars, append_chars, string_from_chars};

verus! {

/// `2` to the power `e`.
pub open spec fn pow2(e: nat) -> nat
    decreases e,
{
    if e == 0 {
        1
    } else {
        2 * pow2((e - 1) as nat)
    }
}

/// The number of binary digits of `n` (zero for zero).
pub open spec fn bit_len(n: nat) -> nat
    decreases n,
{
    if n == 0 {
        0
    } else {
        1 + bit_len(n / 2)
    }
}

/// `num / den` rounded to the nearest integer, ties to even.
pub open spec fn div_round_even(num: nat, den: nat) -> nat {
    let q = num / den;
    let r = num % den;
    if 2 * r > den || (2 * r == den && q % 2 == 1) {
        q + 1
    } else {
        q
    }
}

/// The value of `n` once converted to a double: exact below 2^53, else
/// rounded to 53 significant bits, ties to even.
pub open spec fn as_double(n: nat) -> nat {
    if bit_len(n) <= 53 {
        n
    } else {
        let e = (bit_len(n) - 53) as nat;
        div_round_even(n, pow2(e)) * pow2(e)
    }
}

/// A human-readable size: bytes below one KiB, else KiB and MiB with one
/// decimal and GiB with two, each rounded to nearest, ties to even.
pub open spec fn size_text(bytes: nat) -> Seq<char> {
    if bytes < 1024 {
        decimal(bytes) + " B"@
    } else if bytes < 1024 * 1024 {
        let t = div_round_even(bytes * 10, 1024);
        decimal(t / 10) + seq!['.', digit_char((t % 10) as int)] + " KB"@
    } else if bytes < 1024 * 1024 * 1024 {
        let t = div_round_even(bytes * 10, 1024 * 1024);
        decimal(t / 10) + seq!['.', digit_char((t % 10) as int)] + " MB"@
    } else {
        let t = div_round_even(as_double(bytes) * 100, 1024 * 1024 * 1024);
        decimal(t / 100) + seq!['.', digit_char(((t / 10) % 10) as int), digit_char((t % 10) as int)] + " GB"@
    }
}

fn digit_of(d: u128) -> (res: char)
    requires
        d < 10,
    ensures
        res == digit_char(d as int),
{
    if d == 0 { '0' } else if d == 1 { '1' } else if d == 2 { '2' } else if d == 3 { '3' } else if d == 4 {
        '4'
    } else if d == 5 { '5' } else if d == 6 { '6' } else if d == 7 { '7' } else if d == 8 { '8' } else { '9' }
}

fn div_round_even_exec(num: u128, den: u128) -> (res: u128)
    requires
        den > 0,
        num / den < u128::MAX,
    ensures
        res == div_round_even(num as nat, den as nat),
{
    let q = num / den;
    let r = num % den;
    proof {
        assert(r < den);
    }
    if (r > den - r) || (r == den - r && q % 2 == 1) {
        q + 1
    } else {
        q
    }
}

proof fn lemma_bit_len_bound(n: nat, k: nat)
    requires
        n < pow2(k),
    ensures
        bit_len(n) <= k,
    decreases k,
{
    if k > 0 && n > 0 {
        lemma_bit_len_bound(n / 2, (k - 1) as nat);
    } else if k == 0 {
        assert(n == 0);
    }
}

proof fn lemma_pow2_values()
    ensures
        pow2(10) == 1024,
        pow2(20) == 1024 * 1024,
        pow2(30) == 1024 * 1024 * 1024,
        pow2(53) == 0x20000000000000,
        pow2(64) == 0x10000000000000000,
{
    reveal_with_fuel(pow2, 65);
}

proof fn lemma_bit_len_lower(n: nat)
    requires
        n >= 1,
    ensures
        n >= pow2((bit_len(n) - 1) as nat),
    decreases n,
{
    if n >= 2 {
        lemma_bit_len_lower(n / 2);
        assert(bit_len(n) == 1 + bit_len(n / 2));
        assert(bit_len(n / 2) >= 1);
        assert(pow2(bit_len(n / 2)) == 2 * pow2((bit_len(n / 2) - 1) as nat));
    } else {
        assert(n == 1);
        assert(bit_len(1) == 1 + bit_len(0));
        assert(pow2(0) == 1);
    }
}

/// The value a `u64` takes as a double.
fn as_double_exec(n: u64) -> (res: u128)
    ensures
        res == as_double(n as nat),
        res <= 0x10000000000000800,
{
    proof {
        lemma_pow2_values();
        lemma_bit_len_bound(n as nat, 64);
    }
    let mut len: u64 = 0;
    let mut x: u64 = n;
    while x > 0
        invariant
            bit_len(n as nat) == len + bit_len(x as nat),
            len <= 64,
            x <= n,
            len + bit_len(x as nat) <= 64,
        decreases x,
    {
        x = x / 2;
        len = len + 1;
    }
    if len <= 53 {
        return n as u128;
    }
    let e = len - 53;
    let mut p: u128 = 1;
    let mut k: u64 = 0;
    while k < e
        invariant
            k <= e <= 11,
            p == pow2(k as nat),
            1 <= p <= 2048,
        decreases e - k,
    {
        p = p * 2;
        k = k + 1;
        proof {
            reveal_with_fuel(pow2, 12);
            assert(pow2(k as nat) == 2 * pow2((k - 1) as nat));
            assert(k <= 11);
            assert(pow2(11) == 2048);
            lemma_pow2_mono(k as nat, 11);
        }
    }
    proof {
        lemma_bit_len_lower(n as nat);
        assert(n as nat >= pow2(52)) by {
            lemma_pow2_mono(52, (len - 1) as nat);
        }
        assert((n as u128) / p < u128::MAX) by (nonlinear_arith)
            requires
                p >= 1,
                n <= 0xffffffffffffffff,
        ;
    }
    let q = div_round_even_exec(n as u128, p);
    proof {
        assert(q <= (n as u128) / p + 1);
        assert(q * p <= 0x10000000000000800) by (nonlinear_arith)
            requires
                q <= (n as u128) / p + 1,
                1 <= p <= 2048,
                (n as u128) <= 0xffffffffffffffff,
        {
            assert(((n as u128) / p) * p <= n as u128);
            assert(q * p <= ((n as u128) / p) * p + p);
        }
    }
    q * p
}

proof fn lemma_pow2_mono(a: nat, b: nat)
    requires
        a <= b,
    ensures
        pow2(a) <= pow2(b),
    decreases b,
{
    if a < b {
        lemma_pow2_mono(a, (b - 1) as nat);
    }
}

/// The human-readable size of `bytes`: B, then KB and MB with one decimal,
/// GB with two.
pub fn format_size(bytes: u64) -> (res: String)
    ensures
        res@ == size_text(bytes as nat),
{
    let b = bytes as u128;
    let mut out: Vec<char>;
    if b < 1024 {
        out = u128_to_decimal(b);
        let unit = str_chars(" B");
        append_chars(&mut out, &unit);
    } else if b < 1024 * 1024 {
        let t = div_round_even_exec(b * 10, 1024);
        out = u128_to_decimal(t / 10);
        out.push('.');
        out.push(digit_of(t % 10));
        let unit = str_chars(" KB");
        append_chars(&mut out, &unit);
    } else if b < 1024 * 1024 * 1024 {
        let t = div_round_even_exec(b * 10, 1024 * 1024);
        out = u128_to_decimal(t / 10);
        out.push('.');
        out.push(digit_of(t % 10));
        let unit = str_chars(" MB");
        append_chars(&mut out, &unit);
    } else {
        let v = as_double_exec(bytes);
        let t = div_round_even_exec(v * 100, 1024 * 1024 * 1024);
        out = u128_to_decimal(t / 100);
        out.push('.');
        out.push(digit_of((t / 10) % 10));
        out.push(digit_of(t % 10));
        let unit = str_chars(" GB");
        append_chars(&mut out, &unit);
    }
    proof {
        assert(out@ =~= size_text(bytes as nat));
    }
    string_from_chars(&out)
}

} // verus!
