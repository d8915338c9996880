//! Decimal text for unsigned integers, as ASCII bytes.
//!
//! The harness writes numbers into bodies and header values — a reported
//! port, a `content-length` — always in canonical decimal: most significant
//! digit first, no sign, no leading zeros.

use vstd::prelude::*;

verus! {

/// The ASCII digit that stands for the value `d`.
pub open spec fn digit_byte(d: nat) -> u8
    recommends
        d < 10,
{
    (48 + d) as u8
}

/// The canonical decimal text of `n`: most significant digit first, no
/// leading zeros (zero itself is the single digit `0`).
pub open spec fn dec_bytes(n: nat) -> Seq<u8>
    decreases n,
{
    if n < 10 {
        seq![digit_byte(n)]
    } else {
        dec_bytes(n / 10).push(digit_byte(n % 10))
    }
}

/// Appends the decimal text of `n` to `out`.
pub fn push_dec_u64(out: &mut Vec<u8>, n: u64)
    ensures
        final(out)@ == old(out)@ + dec_bytes(n as nat),
    decreases n,
{
    if n < 10 {
        let d: u8 = 48 + (n as u8);
        out.push(d);
        assert(out@ =~= old(out)@ + dec_bytes(n as nat));
    } else {
        push_dec_u64(out, n / 10);
        let d: u8 = 48 + ((n % 10) as u8);
        out.push(d);
        assert(out@ =~= old(out)@ + dec_bytes(n as nat));
    }
}

/// The decimal text of `n` as a fresh byte vector.
pub fn dec_u64(n: u64) -> (r: Vec<u8>)
    ensures
        r@ == dec_bytes(n as nat),
{
    let mut out: Vec<u8> = Vec::new();
    push_dec_u64(&mut out, n);
    assert(out@ =~= dec_bytes(n as nat));
    out
}

/// Every byte of a decimal text is an ASCII digit.
pub proof fn lemma_dec_bytes_digits(n: nat)
    ensures
        forall|i: int| 0 <= i < dec_bytes(n).len() ==> 48 <= #[trigger] dec_bytes(n)[i] <= 57,
    decreases n,
{
    if n < 10 {
        assert(dec_bytes(n) == seq![digit_byte(n)]);
        assert(dec_bytes(n)[0] == (48 + n) as u8);
    } else {
        lemma_dec_bytes_digits(n / 10);
        let prefix = dec_bytes(n / 10);
        assert(dec_bytes(n) == prefix.push(digit_byte(n % 10)));
        assert forall|i: int| 0 <= i < dec_bytes(n).len() implies 48 <= #[trigger] dec_bytes(
            n,
        )[i] <= 57 by {
            if i < prefix.len() {
                assert(dec_bytes(n)[i] == prefix[i]);
            } else {
                assert(dec_bytes(n)[i] == (48 + n % 10) as u8);
            }
        }
    }
}

/// The value a text of ASCII digits denotes.
pub open spec fn dec_val(s: Seq<u8>) -> nat
    decreases s.len(),
{
    if s.len() == 0 {
        0
    } else {
        (dec_val(s.drop_last()) * 10 + (s.last() - 48)) as nat
    }
}

/// Reading back the decimal text of `n` yields `n`.
pub proof fn lemma_dec_val_round_trip(n: nat)
    ensures
        dec_val(dec_bytes(n)) == n,
    decreases n,
{
    if n < 10 {
        assert(dec_bytes(n) == seq![digit_byte(n)]);
        assert(dec_bytes(n).drop_last() =~= Seq::<u8>::empty());
        assert(dec_val(Seq::<u8>::empty()) == 0);
        assert(dec_bytes(n).last() == (48 + n) as u8);
    } else {
        lemma_dec_val_round_trip(n / 10);
        assert(dec_bytes(n) == dec_bytes(n / 10).push(digit_byte(n % 10)));
        assert(dec_bytes(n).drop_last() =~= dec_bytes(n / 10));
        assert(dec_bytes(n).last() == (48 + n % 10) as u8);
        assert(dec_val(dec_bytes(n)) == (n / 10) * 10 + n % 10);
    }
}

/// One decimal text denotes one value.
pub proof fn lemma_dec_bytes_injective(m: nat, n: nat)
    requires
        dec_bytes(m) == dec_bytes(n),
    ensures
        m == n,
{
    lemma_dec_val_round_trip(m);
    lemma_dec_val_round_trip(n);
}

} // verus!
