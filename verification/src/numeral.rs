//! Decimal rendering of integers as ASCII bytes.

use vstd::prelude::*;

verus! {

/// The decimal digit bytes of `n`, most significant first; empty for zero.
pub open spec fn digits_of(n: nat) -> Seq<u8>
    decreases n,
{
    if n == 0 {
        Seq::empty()
    } else {
        digits_of(n / 10).push((48 + n % 10) as u8)
    }
}

/// The decimal representation of `n` as ASCII bytes; zero is rendered `0`.
pub open spec fn dec_digits(n: nat) -> Seq<u8> {
    if n == 0 {
        seq![48u8]
    } else {
        digits_of(n)
    }
}

/// The decimal representation of a signed value: a minus sign where `v` is
/// negative, then the digits of its magnitude.
pub open spec fn int_repr(v: int) -> Seq<u8> {
    if v < 0 {
        seq![45u8] + dec_digits((-v) as nat)
    } else {
        dec_digits(v as nat)
    }
}

/// The numeric value that a sequence of digit bytes denotes.
pub open spec fn digits_val(s: Seq<u8>) -> int
    decreases s.len(),
{
    if s.len() == 0 {
        0
    } else {
        digits_val(s.drop_last()) * 10 + (s.last() - 48)
    }
}

/// The digit bytes of `n` denote `n`: rendering loses nothing.
pub proof fn lemma_digits_of_value(n: nat)
    ensures
        digits_val(digits_of(n)) == n,
    decreases n,
{
    if n > 0 {
        lemma_digits_of_value(n / 10);
        assert(digits_of(n).drop_last() =~= digits_of(n / 10));
        assert((n / 10) * 10 + n % 10 == n) by (nonlinear_arith);
    }
}

/// The decimal representation of `n` denotes `n`, zero included.
pub proof fn lemma_dec_digits_value(n: nat)
    ensures
        digits_val(dec_digits(n)) == n,
{
    if n == 0 {
        reveal_with_fuel(digits_val, 3);
        assert(dec_digits(0).drop_last() =~= Seq::<u8>::empty());
    } else {
        lemma_digits_of_value(n);
    }
}

/// Every byte of `digits_of` is an ASCII digit.
pub proof fn lemma_digits_of_range(n: nat)
    ensures
        forall|i: int| 0 <= i < digits_of(n).len() ==> 48 <= #[trigger] digits_of(n)[i] <= 57,
    decreases n,
{
    if n > 0 {
        lemma_digits_of_range(n / 10);
        assert forall|i: int| 0 <= i < digits_of(n).len() implies 48 <= #[trigger] digits_of(
            n,
        )[i] <= 57 by {
            if i < digits_of(n / 10).len() {
                assert(digits_of(n)[i] == digits_of(n / 10)[i]);
            } else {
                assert(digits_of(n)[i] == (48 + n % 10) as u8);
            }
        }
    }
}

/// Distinct numbers render to distinct decimal representations.
pub proof fn lemma_dec_digits_injective(n1: nat, n2: nat)
    requires
        dec_digits(n1) == dec_digits(n2),
    ensures
        n1 == n2,
{
    lemma_dec_digits_value(n1);
    lemma_dec_digits_value(n2);
}

/// Distinct signed values render to distinct representations.
pub proof fn lemma_int_repr_injective(v1: int, v2: int)
    requires
        int_repr(v1) == int_repr(v2),
    ensures
        v1 == v2,
{
    if v1 >= 0 && v2 >= 0 {
        lemma_dec_digits_injective(v1 as nat, v2 as nat);
    } else if v1 < 0 && v2 < 0 {
        let s1 = dec_digits((-v1) as nat);
        let s2 = dec_digits((-v2) as nat);
        assert((seq![45u8] + s1).subrange(1, (seq![45u8] + s1).len() as int) =~= s1);
        assert((seq![45u8] + s2).subrange(1, (seq![45u8] + s2).len() as int) =~= s2);
        assert(s1 == s2);
        lemma_dec_digits_injective((-v1) as nat, (-v2) as nat);
    } else {
        let neg = if v1 < 0 { v1 } else { v2 };
        let pos = if v1 < 0 { v2 } else { v1 };
        assert(int_repr(neg)[0] == 45);
        lemma_digits_of_range(pos as nat);
        assert(dec_digits(pos as nat).len() > 0);
        assert(int_repr(pos)[0] != 45);
        assert(false);
    }
}

fn push_digits(n: u64, out: &mut Vec<u8>)
    ensures
        final(out)@ == old(out)@ + digits_of(n as nat),
    decreases n,
{
    if n > 0 {
        assert(n / 10 < n) by (nonlinear_arith)
            requires
                n > 0,
        ;
        push_digits(n / 10, out);
        let d: u8 = (n % 10) as u8;
        out.push(48 + d);
        assert(out@ =~= old(out)@ + digits_of(n as nat));
    } else {
        assert(out@ =~= old(out)@ + digits_of(0));
    }
}

/// Renders `n` in decimal, exactly the bytes that `dec_digits` describes.
pub fn render_u64(n: u64) -> (r: Vec<u8>)
    ensures
        r@ == dec_digits(n as nat),
{
    let mut out: Vec<u8> = Vec::new();
    if n == 0 {
        out.push(48);
        assert(out@ =~= dec_digits(0));
    } else {
        push_digits(n, &mut out);
    }
    out
}

/// Renders `v` in decimal, exactly the bytes that `int_repr` describes.
pub fn render_i32(v: i32) -> (r: Vec<u8>)
    ensures
        r@ == int_repr(v as int),
{
    if v >= 0 {
        render_u64(v as u64)
    } else {
        let mut out: Vec<u8> = Vec::new();
        out.push(45);
        let mag: u64 = (-(v as i64)) as u64;
        push_digits(mag, &mut out);
        assert(out@ =~= int_repr(v as int));
        out
    }
}

} // verus!
