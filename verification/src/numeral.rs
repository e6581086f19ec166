use vstd::arithmetic::div_mod::lemma_div_denominator;
use vstd::arithmetic::div_mod::lemma_mod_breakdown;
use vstd::arithmetic::power2::lemma2_to64;
use vstd::arithmetic::power2::lemma_pow2_pos;
use vstd::arithmetic::power2::lemma_pow2_unfold;
use vstd::arithmetic::power2::pow2;
use vstd::prelude::*;
use vstd::string::StrSliceExecFns;
use vstd::string::StringExecFns;

verus! {

/// The character that writes digit `d`, for `d` below sixteen.
pub open spec fn digit(d: nat) -> char {
    "0123456789abcdef"@[d as int]
}

/// `n` in `base` as exactly `width` digits, most significant first. Digits
/// of `n` beyond the width are cut off; missing ones are zeros.
pub open spec fn fixed(n: nat, base: nat, width: nat) -> Seq<char>
    decreases width,
{
    if width == 0 {
        Seq::empty()
    } else {
        fixed(n / base, base, (width - 1) as nat).push(digit(n % base))
    }
}

/// `n` in decimal, most significant digit first, filled up with leading
/// zeros to `width` digits where it has fewer.
pub open spec fn decimal_padded(n: nat, width: nat) -> Seq<char>
    decreases n + width,
{
    if n < 10 && width <= 1 {
        seq![digit(n)]
    } else {
        decimal_padded(n / 10, if width > 0 { (width - 1) as nat } else { 0 }).push(digit(n % 10))
    }
}

/// `n` in decimal with no leading zeros; zero is a single `0`.
pub open spec fn decimal(n: nat) -> Seq<char> {
    decimal_padded(n, 1)
}

/// `count` zeros in a row.
pub open spec fn zeros(count: nat) -> Seq<char> {
    Seq::new(count, |i: int| '0')
}

/// The eight lowercase hexadecimal digits of `word`.
pub open spec fn hex8(word: u32) -> Seq<char> {
    fixed(word as nat, 16, 8)
}

/// The thirty-two binary digits of `word`, bit 31 first.
pub open spec fn binary32(word: u32) -> Seq<char> {
    fixed(word as nat, 2, 32)
}

/// A numeral of fixed width has exactly that many digits, whatever the base.
pub proof fn lemma_fixed_len(n: nat, base: nat, width: nat)
    requires
        base > 0,
    ensures
        fixed(n, base, width).len() == width,
    decreases width,
{
    if width > 0 {
        lemma_fixed_len(n / base, base, (width - 1) as nat);
    }
}

/// A number below ten is written as its one digit; a larger one as the
/// number of its tens followed by the digit of its ones.
pub proof fn lemma_decimal_unfold(n: nat)
    ensures
        n < 10 ==> decimal(n) == seq![digit(n)],
        n >= 10 ==> decimal(n) == decimal(n / 10).push(digit(n % 10)),
        decimal(n).len() >= 1,
{
    if n >= 10 {
        let tens = n / 10;
        assert(decimal_padded(n, 1) == decimal_padded(tens, 0).push(digit(n % 10)));
        assert(decimal_padded(tens, 0) == decimal_padded(tens, 1)) by {
            if tens >= 10 {
                assert(decimal_padded(tens, 0) == decimal_padded(tens / 10, 0).push(
                    digit(tens % 10),
                ));
                assert(decimal_padded(tens, 1) == decimal_padded(tens / 10, 0).push(
                    digit(tens % 10),
                ));
            }
        }
    }
}

/// Padding changes nothing but to put zeros in front: as many as the number
/// has digits too few, none where it has enough.
pub proof fn lemma_decimal_padded(n: nat, width: nat)
    ensures
        decimal_padded(n, width) == zeros(
            if width > decimal(n).len() {
                (width - decimal(n).len()) as nat
            } else {
                0
            },
        ) + decimal(n),
    decreases n + width,
{
    reveal_strlit("0123456789abcdef");
    lemma_decimal_unfold(n);
    let fill = if width > decimal(n).len() {
        (width - decimal(n).len()) as nat
    } else {
        0
    };
    if n < 10 && width <= 1 {
        assert(decimal_padded(n, width) =~= zeros(fill) + decimal(n));
    } else {
        let tens = n / 10;
        let rest = if width > 0 {
            (width - 1) as nat
        } else {
            0
        };
        lemma_decimal_padded(tens, rest);
        lemma_decimal_unfold(tens);
        if n >= 10 {
            assert(decimal_padded(n, width) =~= zeros(fill) + decimal(n));
        } else {
            assert(decimal(tens) == seq!['0']);
            assert(decimal_padded(n, width) =~= zeros(fill) + decimal(n));
        }
    }
}

/// Dropping the last `low` digits of a binary numeral halves its number
/// `low` times.
pub proof fn lemma_binary_prefix(n: nat, width: nat, low: nat)
    requires
        low <= width,
    ensures
        fixed(n, 2, width).subrange(0, width - low) == fixed(
            n / pow2(low),
            2,
            (width - low) as nat,
        ),
    decreases low,
{
    lemma_fixed_len(n, 2, width);
    if low == 0 {
        lemma2_to64();
        assert(fixed(n, 2, width).subrange(0, width as int) =~= fixed(n, 2, width));
    } else {
        let rest = fixed(n / 2, 2, (width - 1) as nat);
        lemma_fixed_len(n / 2, 2, (width - 1) as nat);
        lemma_binary_prefix(n / 2, (width - 1) as nat, (low - 1) as nat);
        assert(fixed(n, 2, width).subrange(0, width - low) =~= rest.subrange(0, width - low));
        lemma_pow2_unfold(low);
        lemma_pow2_pos((low - 1) as nat);
        lemma_div_denominator(n as int, 2, pow2((low - 1) as nat) as int);
    }
}

/// The last `keep` digits of a binary numeral write what is left of its
/// number modulo two to the power `keep`.
pub proof fn lemma_binary_suffix(n: nat, width: nat, keep: nat)
    requires
        keep <= width,
    ensures
        fixed(n, 2, width).subrange(width - keep, width as int) == fixed(n % pow2(keep), 2, keep),
    decreases keep,
{
    lemma_fixed_len(n, 2, width);
    lemma_pow2_pos(keep);
    if keep == 0 {
        assert(fixed(n, 2, width).subrange(width as int, width as int) =~= Seq::<char>::empty());
    } else {
        let rest = fixed(n / 2, 2, (width - 1) as nat);
        let half = pow2((keep - 1) as nat);
        let low = n % pow2(keep);
        lemma_fixed_len(n / 2, 2, (width - 1) as nat);
        lemma_binary_suffix(n / 2, (width - 1) as nat, (keep - 1) as nat);
        lemma_pow2_unfold(keep);
        lemma_pow2_pos((keep - 1) as nat);
        lemma_mod_breakdown(n as int, 2, half as int);
        assert(low == 2 * ((n / 2) % half) + n % 2);
        assert(low / 2 == (n / 2) % half);
        assert(low % 2 == n % 2);
        assert(fixed(n, 2, width).subrange(width - keep, width as int) =~= rest.subrange(
            width - keep,
            width - 1,
        ).push(digit(n % 2)));
    }
}

/// Appends the character of digit `d` to `out`.
pub fn push_digit(out: &mut String, d: usize)
    requires
        d < 16,
    ensures
        final(out)@ == old(out)@.push(digit(d as nat)),
{
    let table = "0123456789abcdef";
    proof {
        reveal_strlit("0123456789abcdef");
    }
    let one = table.substring_ascii(d, d + 1);
    assert(one@ =~= seq![digit(d as nat)]);
    out.append(one);
    assert(old(out)@ + seq![digit(d as nat)] =~= old(out)@.push(digit(d as nat)));
}

/// Appends `n` in `base` as exactly `width` digits to `out`.
pub fn push_fixed(out: &mut String, n: u64, base: u64, width: u32)
    requires
        2 <= base <= 16,
    ensures
        final(out)@ == old(out)@ + fixed(n as nat, base as nat, width as nat),
    decreases width,
{
    if width > 0 {
        push_fixed(out, n / base, base, width - 1);
        push_digit(out, (n % base) as usize);
    }
    assert(out@ =~= old(out)@ + fixed(n as nat, base as nat, width as nat));
}

/// Appends `n` in decimal to `out`, with leading zeros up to `width` digits.
pub fn push_decimal_padded(out: &mut String, n: u64, width: u32)
    ensures
        final(out)@ == old(out)@ + decimal_padded(n as nat, width as nat),
    decreases n + width,
{
    if n < 10 && width <= 1 {
        push_digit(out, n as usize);
    } else {
        push_decimal_padded(out, n / 10, if width > 0 { width - 1 } else { 0 });
        push_digit(out, (n % 10) as usize);
    }
    assert(out@ =~= old(out)@ + decimal_padded(n as nat, width as nat));
}

/// Appends `n` in decimal to `out`.
pub fn push_decimal(out: &mut String, n: u64)
    ensures
        final(out)@ == old(out)@ + decimal(n as nat),
{
    push_decimal_padded(out, n, 1);
}

} // verus!
