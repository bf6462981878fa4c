use vstd::prelude::*;

verus! {

pub open spec fn zeros(n: nat) -> Seq<u8> {
    Seq::new(n, |i| 0u8)
}

/// A value left-padded with zero bytes to one 32-byte word, the layout of
/// addresses and small integers in contract call data and typed-data
/// encoding.
pub open spec fn pad32(b: Seq<u8>) -> Seq<u8>
    recommends
        b.len() <= 32,
{
    zeros((32 - b.len()) as nat) + b
}

pub fn push_all(out: &mut Vec<u8>, src: &[u8])
    ensures
        final(out)@ == old(out)@ + src@,
{
    let ghost base = out@;
    let mut i: usize = 0;
    while i < src.len()
        invariant
            i <= src@.len(),
            out@ == base + src@.subrange(0, i as int),
        decreases src@.len() - i,
    {
        out.push(src[i]);
        proof {
            assert(base + src@.subrange(0, i as int) + seq![src@[i as int]] =~= base
                + src@.subrange(0, i + 1));
        }
        i += 1;
    }
    proof {
        assert(src@.subrange(0, src@.len() as int) =~= src@);
    }
}

pub fn push_zeros(out: &mut Vec<u8>, n: usize)
    ensures
        final(out)@ == old(out)@ + zeros(n as nat),
{
    let ghost base = out@;
    let mut i: usize = 0;
    while i < n
        invariant
            i <= n,
            out@ == base + zeros(i as nat),
        decreases n - i,
    {
        out.push(0u8);
        proof {
            assert(base + zeros(i as nat) + seq![0u8] =~= base + zeros((i + 1) as nat));
        }
        i += 1;
    }
}

/// Appends `b` left-padded to one 32-byte word.
pub fn push_padded32(out: &mut Vec<u8>, b: &[u8])
    requires
        b@.len() <= 32,
    ensures
        final(out)@ == old(out)@ + pad32(b@),
{
    let pad = 32 - b.len();
    push_zeros(out, pad);
    push_all(out, b);
    proof {
        assert(old(out)@ + zeros((32 - b@.len()) as nat) + b@ =~= old(out)@ + pad32(b@));
    }
}

} // verus!
