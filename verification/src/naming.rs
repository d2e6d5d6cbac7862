use vstd::prelude::*;

verus! {

/// The decimal digits of `n`, most significant first, as ASCII bytes, with no
/// leading zeros (so `0` is the single byte `b'0'`).
pub open spec fn spec_decimal(n: nat) -> Seq<u8>
    decreases n,
{
    if n < 10 {
        seq![(48 + n) as u8]
    } else {
        spec_decimal(n / 10).push((48 + n % 10) as u8)
    }
}

/// The name the registry assigns to the device registered at index `i`:
/// `"net"` followed by the decimal digits of `i`.
pub open spec fn spec_net_name(i: nat) -> Seq<u8> {
    seq!['n' as u8, 'e' as u8, 't' as u8] + spec_decimal(i)
}

/// `10^k`.
pub open spec fn pow10(k: nat) -> nat
    decreases k,
{
    if k == 0 {
        1
    } else {
        10 * pow10((k - 1) as nat)
    }
}

/// `10^17`, written out.
pub proof fn lemma_pow10_17()
    ensures
        pow10(17) == 100_000_000_000_000_000,
{
    reveal_with_fuel(pow10, 18);
}

/// A number below `10^k` has at most `k` decimal digits.
pub proof fn lemma_decimal_len(n: nat, k: nat)
    requires
        1 <= k,
        n < pow10(k),
    ensures
        spec_decimal(n).len() <= k,
    decreases k,
{
    if n < 10 {
    } else {
        assert(pow10(0) == 1);
        assert(pow10(1) == 10 * pow10(0));
        if k == 1 {
            assert(n < 10);
        }
        assert(pow10(k) == 10 * pow10((k - 1) as nat));
        assert(n / 10 < pow10((k - 1) as nat)) by (nonlinear_arith)
            requires
                n < 10 * pow10((k - 1) as nat),
        ;
        lemma_decimal_len(n / 10, (k - 1) as nat);
    }
}

/// Appends the decimal digits of `n` to `out`.
fn push_decimal(n: usize, out: &mut Vec<u8>)
    ensures
        final(out)@ == old(out)@ + spec_decimal(n as nat),
    decreases n,
{
    if n >= 10 {
        push_decimal(n / 10, out);
    }
    let d: u8 = 48 + (n % 10) as u8;
    out.push(d);
    proof {
        if n < 10 {
            assert(old(out)@ + spec_decimal(n as nat) =~= old(out)@.push(d));
        } else {
            assert((n / 10) as nat == (n as nat) / 10);
            assert((n % 10) as nat == (n as nat) % 10);
            assert(old(out)@ + spec_decimal(n as nat)
                =~= (old(out)@ + spec_decimal((n / 10) as nat)).push(d));
        }
    }
}

/// The byte string `"net"` followed by the decimal digits of `index`.
pub fn net_name(index: usize) -> (r: Vec<u8>)
    ensures
        r@ == spec_net_name(index as nat),
{
    let mut out: Vec<u8> = Vec::new();
    out.push(110u8);
    out.push(101u8);
    out.push(116u8);
    proof {
        assert(out@ =~= seq!['n' as u8, 'e' as u8, 't' as u8]);
    }
    push_decimal(index, &mut out);
    out
}

} // verus!
