use vstd::prelude::*;
use vstd::bytes::{
    lemma_auto_spec_u128_to_from_le_bytes, spec_u128_from_le_bytes, spec_u128_to_le_bytes,
    u128_from_le_bytes, u128_to_le_bytes,
};

verus! {

/// An unsigned 256-bit token amount (also used for permit nonces and
/// deadlines), held as two 128-bit halves. The mathematical value is
/// `hi * 2^128 + lo`.
#[derive(Clone, Copy, PartialEq, Eq, Structural, Debug)]
pub struct Uint256 {
    pub hi: u128,
    pub lo: u128,
}

pub open spec fn two_pow_128() -> nat {
    0x1_0000_0000_0000_0000_0000_0000_0000_0000nat
}

impl View for Uint256 {
    type V = nat;

    open spec fn view(&self) -> nat {
        (self.hi * two_pow_128() + self.lo) as nat
    }
}

proof fn lemma_value_order(a: Uint256, b: Uint256)
    ensures
        (a@ < b@) <==> (a.hi < b.hi || (a.hi == b.hi && a.lo < b.lo)),
        (a@ == b@) <==> (a.hi == b.hi && a.lo == b.lo),
{
    assert((a.hi * two_pow_128() + a.lo < b.hi * two_pow_128() + b.lo) <==> (a.hi < b.hi || (
    a.hi == b.hi && a.lo < b.lo))) by (nonlinear_arith)
        requires
            a.lo < two_pow_128(),
            b.lo < two_pow_128(),
    ;
    assert((a.hi * two_pow_128() + a.lo == b.hi * two_pow_128() + b.lo) <==> (a.hi == b.hi && a.lo
        == b.lo)) by (nonlinear_arith)
        requires
            a.lo < two_pow_128(),
            b.lo < two_pow_128(),
    ;
}

/// The 256-bit amount holding a 64-bit value.
pub open spec fn u256_of_u64(x: u64) -> Uint256 {
    Uint256 { hi: 0, lo: x as u128 }
}

impl Uint256 {
    pub fn new(hi: u128, lo: u128) -> (r: Uint256)
        ensures
            r@ == hi * two_pow_128() + lo,
            r.hi == hi,
            r.lo == lo,
    {
        Uint256 { hi, lo }
    }

    pub fn from_u64(x: u64) -> (r: Uint256)
        ensures
            r@ == x,
            r == u256_of_u64(x),
    {
        Uint256 { hi: 0, lo: x as u128 }
    }

    pub fn zero() -> (r: Uint256)
        ensures
            r@ == 0,
    {
        Uint256 { hi: 0, lo: 0 }
    }

    pub fn lt(&self, other: &Uint256) -> (r: bool)
        ensures
            r == (self@ < other@),
    {
        proof {
            lemma_value_order(*self, *other);
        }
        self.hi < other.hi || (self.hi == other.hi && self.lo < other.lo)
    }

    pub fn is_zero(&self) -> (r: bool)
        ensures
            r == (self@ == 0),
    {
        proof {
            lemma_value_order(*self, Uint256 { hi: 0, lo: 0 });
        }
        self.hi == 0 && self.lo == 0
    }
}

/// The 16 bytes of a 128-bit integer, most significant first.
pub open spec fn be16_of(x: u128) -> Seq<u8> {
    spec_u128_to_le_bytes(x).reverse()
}

/// The 32 bytes of a 256-bit amount, most significant first: the standard
/// width of one word in contract call data and typed-data encoding.
pub open spec fn be32_of(w: Uint256) -> Seq<u8> {
    be16_of(w.hi) + be16_of(w.lo)
}

/// The amount encoded by 32 bytes, most significant first: the spec-level
/// inverse of `be32_of`.
pub open spec fn u256_from_be32(b: Seq<u8>) -> Uint256
    recommends
        b.len() == 32,
{
    Uint256 {
        hi: spec_u128_from_le_bytes(b.subrange(0, 16).reverse()),
        lo: spec_u128_from_le_bytes(b.subrange(16, 32).reverse()),
    }
}

fn push_reversed(out: &mut Vec<u8>, src: &Vec<u8>)
    ensures
        final(out)@ == old(out)@ + src@.reverse(),
{
    let n = src.len();
    let ghost base = out@;
    let mut i: usize = 0;
    while i < n
        invariant
            n == src@.len(),
            i <= n,
            out@.len() == base.len() + i,
            forall|j: int| 0 <= j < base.len() ==> out@[j] == base[j],
            forall|j: int| 0 <= j < i ==> #[trigger] out@[base.len() + j] == src@[n - 1 - j],
        decreases n - i,
    {
        out.push(src[n - 1 - i]);
        i += 1;
    }
    proof {
        let r = base + src@.reverse();
        assert(src@.reverse().len() == n);
        assert forall|k: int| 0 <= k < out@.len() implies out@[k] == r[k] by {
            if base.len() <= k {
                let j = k - base.len();
                assert(out@[base.len() + j] == src@[n - 1 - j]);
                assert(src@.reverse()[j] == src@[n - 1 - j]);
            }
        }
        assert(out@ =~= r);
    }
}

impl Uint256 {
    pub fn to_be_bytes(&self) -> (r: Vec<u8>)
        ensures
            r@ == be32_of(*self),
            r@.len() == 32,
    {
        proof {
            lemma_auto_spec_u128_to_from_le_bytes();
        }
        let hi_le = u128_to_le_bytes(self.hi);
        let lo_le = u128_to_le_bytes(self.lo);
        let mut out: Vec<u8> = Vec::new();
        push_reversed(&mut out, &hi_le);
        push_reversed(&mut out, &lo_le);
        out
    }

    pub fn from_be_bytes(b: &[u8]) -> (r: Uint256)
        requires
            b@.len() == 32,
        ensures
            be32_of(r) == b@,
            r == u256_from_be32(b@),
    {
        proof {
            lemma_auto_spec_u128_to_from_le_bytes();
        }
        let mut hi_le: Vec<u8> = Vec::new();
        let mut lo_le: Vec<u8> = Vec::new();
        let mut i: usize = 0;
        while i < 16
            invariant
                b@.len() == 32,
                i <= 16,
                hi_le@.len() == i,
                forall|j: int| 0 <= j < i ==> hi_le@[j] == b@[15 - j],
            decreases 16 - i,
        {
            hi_le.push(b[15 - i]);
            i += 1;
        }
        let mut k: usize = 0;
        while k < 16
            invariant
                b@.len() == 32,
                k <= 16,
                lo_le@.len() == k,
                forall|j: int| 0 <= j < k ==> lo_le@[j] == b@[31 - j],
            decreases 16 - k,
        {
            lo_le.push(b[31 - k]);
            k += 1;
        }
        let hi = u128_from_le_bytes(hi_le.as_slice());
        let lo = u128_from_le_bytes(lo_le.as_slice());
        let r = Uint256 { hi, lo };
        proof {
            assert(spec_u128_to_le_bytes(hi) =~= hi_le@);
            assert(spec_u128_to_le_bytes(lo) =~= lo_le@);
            assert(spec_u128_to_le_bytes(hi).reverse() =~= b@.subrange(0, 16));
            assert(spec_u128_to_le_bytes(lo).reverse() =~= b@.subrange(16, 32));
            assert(be32_of(r) =~= b@);
            assert(hi_le@ =~= b@.subrange(0, 16).reverse());
            assert(lo_le@ =~= b@.subrange(16, 32).reverse());
        }
        r
    }
}

/// Equal 32-byte encodings can only come from equal amounts, so call data
/// that carries `be32_of(w)` pins the amount it was built from.
pub proof fn lemma_be32_injective(a: Uint256, b: Uint256)
    requires
        be32_of(a) == be32_of(b),
    ensures
        a == b,
{
    lemma_auto_spec_u128_to_from_le_bytes();
    assert(spec_u128_to_le_bytes(a.hi).len() == 16);
    assert(spec_u128_to_le_bytes(b.hi).len() == 16);
    assert(spec_u128_to_le_bytes(a.hi) =~= spec_u128_to_le_bytes(b.hi)) by {
        assert forall|j: int| 0 <= j < 16 implies spec_u128_to_le_bytes(a.hi)[j]
            == spec_u128_to_le_bytes(b.hi)[j] by {
            assert(be32_of(a)[15 - j] == spec_u128_to_le_bytes(a.hi)[j]);
            assert(be32_of(b)[15 - j] == spec_u128_to_le_bytes(b.hi)[j]);
        }
    }
    assert(spec_u128_to_le_bytes(a.lo) =~= spec_u128_to_le_bytes(b.lo)) by {
        assert forall|j: int| 0 <= j < 16 implies spec_u128_to_le_bytes(a.lo)[j]
            == spec_u128_to_le_bytes(b.lo)[j] by {
            assert(be32_of(a)[16 + (15 - j)] == spec_u128_to_le_bytes(a.lo)[j]);
            assert(be32_of(b)[16 + (15 - j)] == spec_u128_to_le_bytes(b.lo)[j]);
        }
    }
    assert(a.hi == spec_u128_from_le_bytes(spec_u128_to_le_bytes(a.hi)));
    assert(b.hi == spec_u128_from_le_bytes(spec_u128_to_le_bytes(b.hi)));
    assert(a.lo == spec_u128_from_le_bytes(spec_u128_to_le_bytes(a.lo)));
    assert(b.lo == spec_u128_from_le_bytes(spec_u128_to_le_bytes(b.lo)));
}

} // verus!
