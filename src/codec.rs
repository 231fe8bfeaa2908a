use vstd::prelude::*;

verus! {

/// The `n` little-endian bytes of `v`, least significant first.
pub open spec fn le_bytes(v: nat, n: nat) -> Seq<u8>
    decreases n,
{
    if n == 0 {
        Seq::empty()
    } else {
        seq![(v % 256) as u8] + le_bytes(v / 256, (n - 1) as nat)
    }
}

/// The number whose little-endian bytes are `s`.
pub open spec fn le_value(s: Seq<u8>) -> nat
    decreases s.len(),
{
    if s.len() == 0 {
        0
    } else {
        s[0] as nat + 256 * le_value(s.drop_first())
    }
}

pub open spec fn pow256(n: nat) -> nat
    decreases n,
{
    if n == 0 {
        1
    } else {
        256 * pow256((n - 1) as nat)
    }
}

pub proof fn lemma_le_bytes_len(v: nat, n: nat)
    ensures
        le_bytes(v, n).len() == n,
    decreases n,
{
    if n > 0 {
        lemma_le_bytes_len(v / 256, (n - 1) as nat);
    }
}

/// Reading back the little-endian bytes of a number that fits gives the number.
pub proof fn lemma_le_round_trip(v: nat, n: nat)
    requires
        v < pow256(n),
    ensures
        le_value(le_bytes(v, n)) == v,
    decreases n,
{
    if n > 0 {
        let s = le_bytes(v, n);
        let rest = le_bytes(v / 256, (n - 1) as nat);
        assert(s.drop_first() =~= rest);
        let p = pow256((n - 1) as nat);
        assert(v / 256 < p) by (nonlinear_arith)
            requires
                v < 256 * p,
        ;
        lemma_le_round_trip(v / 256, (n - 1) as nat);
        assert(v == v % 256 + 256 * (v / 256)) by (nonlinear_arith);
    }
}

/// Writing out the value of `n` bytes as `n` little-endian bytes gives them back.
pub proof fn lemma_le_bytes_of_value(s: Seq<u8>)
    ensures
        le_bytes(le_value(s), s.len()) == s,
        le_value(s) < pow256(s.len()),
    decreases s.len(),
{
    if s.len() > 0 {
        let rest = s.drop_first();
        lemma_le_bytes_of_value(rest);
        let v = le_value(s);
        let b = s[0] as nat;
        let q = le_value(rest);
        assert(v % 256 == b && v / 256 == q) by (nonlinear_arith)
            requires
                v == b + 256 * q,
                b < 256,
        ;
        assert(v < pow256(s.len())) by (nonlinear_arith)
            requires
                v == b + 256 * q,
                b < 256,
                q < pow256(rest.len()),
                pow256(s.len()) == 256 * pow256(rest.len()),
        ;
        assert(le_bytes(v, s.len()) =~= s);
    }
}

pub proof fn lemma_u64_fits(v: u64)
    ensures
        (v as nat) < pow256(8),
        pow256(8) == 0x1_0000_0000_0000_0000,
{
    reveal_with_fuel(pow256, 9);
}

pub proof fn lemma_u16_fits(v: u16)
    ensures
        (v as nat) < pow256(2),
        pow256(2) == 0x1_0000,
{
    reveal_with_fuel(pow256, 3);
}

/// Relies on borsh::to_vec for `u64`: its little-endian bytes. Writing into a
/// `Vec` cannot fail.
#[verifier::external_body]
pub(crate) fn u64_to_bytes(v: u64) -> (r: Vec<u8>)
    ensures
        r@ == le_bytes(v as nat, 8),
{
    match borsh::to_vec(&v) {
        Ok(b) => b,
        Err(_) => Vec::new(),
    }
}

/// Relies on borsh::to_vec for `u16`: its little-endian bytes. Writing into a
/// `Vec` cannot fail.
#[verifier::external_body]
pub(crate) fn u16_to_bytes(v: u16) -> (r: Vec<u8>)
    ensures
        r@ == le_bytes(v as nat, 2),
{
    match borsh::to_vec(&v) {
        Ok(b) => b,
        Err(_) => Vec::new(),
    }
}

/// Relies on borsh::from_slice for `u64`: a value exactly when the slice holds
/// eight bytes, read little-endian.
#[verifier::external_body]
pub(crate) fn u64_from_bytes(b: &[u8]) -> (r: Option<u64>)
    ensures
        r is Some <==> b@.len() == 8,
        r matches Some(v) ==> v as nat == le_value(b@),
{
    borsh::from_slice::<u64>(b).ok()
}

/// Relies on borsh::from_slice for `u16`: a value exactly when the slice holds
/// two bytes, read little-endian.
#[verifier::external_body]
pub(crate) fn u16_from_bytes(b: &[u8]) -> (r: Option<u16>)
    ensures
        r is Some <==> b@.len() == 2,
        r matches Some(v) ==> v as nat == le_value(b@),
{
    borsh::from_slice::<u16>(b).ok()
}

} // verus!
