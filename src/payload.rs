//! The canonical message that a signer signs and a verifier rebuilds.
//!
//! Layout, all integers big-endian:
//! a version byte `0`; the operation name, prefixed by its length as eight
//! bytes; the 32-byte contract identifier; the network identifier, prefixed
//! by its length as eight bytes; the number of arguments as eight bytes; then
//! each argument, as a tag byte (`0` an identity, `1` an unsigned integer)
//! followed by its bytes (a scheme byte and the key for an identity, eight
//! bytes for an integer).

use vstd::prelude::*;

use crate::identity::Identifier;

verus! {

/// One argument of a signed operation.
#[derive(Clone, Copy, Debug)]
pub enum PayloadArg {
    Identifier(Identifier),
    U64(u64),
}

/// The message that authorizes one call of one operation.
#[derive(Debug)]
pub struct SignaturePayload {
    /// The name of the operation.
    pub function: Vec<u8>,
    /// The contract the call is made to.
    pub contract: [u8; 32],
    /// The network the contract lives on.
    pub network: Vec<u8>,
    /// The arguments of the call, in order.
    pub args: Vec<PayloadArg>,
}

/// The eight big-endian bytes of `n`.
pub open spec fn u64_be(n: u64) -> Seq<u8> {
    seq![
        (n >> 56u64) as u8,
        (n >> 48u64) as u8,
        (n >> 40u64) as u8,
        (n >> 32u64) as u8,
        (n >> 24u64) as u8,
        (n >> 16u64) as u8,
        (n >> 8u64) as u8,
        n as u8,
    ]
}

/// A byte string prefixed by its length.
pub open spec fn prefixed(s: Seq<u8>) -> Seq<u8> {
    u64_be(s.len() as u64) + s
}

/// The encoding of one argument.
pub open spec fn arg_bytes(a: PayloadArg) -> Seq<u8> {
    match a {
        PayloadArg::Identifier(id) => seq![0u8, 0u8] + id@,
        PayloadArg::U64(n) => seq![1u8] + u64_be(n),
    }
}

/// The encodings of the arguments, one after another.
pub open spec fn args_bytes(args: Seq<PayloadArg>) -> Seq<u8>
    decreases args.len(),
{
    if args.len() == 0 {
        Seq::empty()
    } else {
        args_bytes(args.drop_last()) + arg_bytes(args.last())
    }
}

/// The canonical encoding of a payload.
pub open spec fn payload_bytes(
    function: Seq<u8>,
    contract: Seq<u8>,
    network: Seq<u8>,
    args: Seq<PayloadArg>,
) -> Seq<u8> {
    seq![0u8] + prefixed(function) + contract + prefixed(network) + u64_be(args.len() as u64)
        + args_bytes(args)
}

/// Distinct integers have distinct encodings.
pub proof fn lemma_u64_be_injective(a: u64, b: u64)
    requires
        u64_be(a) == u64_be(b),
    ensures
        a == b,
{
    let (x, y) = (u64_be(a), u64_be(b));
    assert(x[0] == y[0] && x[1] == y[1] && x[2] == y[2] && x[3] == y[3]);
    assert(x[4] == y[4] && x[5] == y[5] && x[6] == y[6] && x[7] == y[7]);
    assert(a == b) by (bit_vector)
        requires
            (a >> 56u64) as u8 == (b >> 56u64) as u8,
            (a >> 48u64) as u8 == (b >> 48u64) as u8,
            (a >> 40u64) as u8 == (b >> 40u64) as u8,
            (a >> 32u64) as u8 == (b >> 32u64) as u8,
            (a >> 24u64) as u8 == (b >> 24u64) as u8,
            (a >> 16u64) as u8 == (b >> 16u64) as u8,
            (a >> 8u64) as u8 == (b >> 8u64) as u8,
            a as u8 == b as u8,
    ;
}

fn push_u64(out: &mut Vec<u8>, n: u64)
    ensures
        final(out)@ == old(out)@ + u64_be(n),
{
    out.push((n >> 56u64) as u8);
    out.push((n >> 48u64) as u8);
    out.push((n >> 40u64) as u8);
    out.push((n >> 32u64) as u8);
    out.push((n >> 24u64) as u8);
    out.push((n >> 16u64) as u8);
    out.push((n >> 8u64) as u8);
    out.push(n as u8);
    assert(out@ =~= old(out)@ + u64_be(n));
}

fn push_bytes(out: &mut Vec<u8>, src: &[u8])
    ensures
        final(out)@ == old(out)@ + src@,
{
    let ghost start = out@;
    let mut i: usize = 0;
    while i < src.len()
        invariant
            0 <= i <= src@.len(),
            out@ == start + src@.subrange(0, i as int),
        decreases src@.len() - i,
    {
        out.push(src[i]);
        assert(src@.subrange(0, i + 1) =~= src@.subrange(0, i as int).push(src@[i as int]));
        i = i + 1;
    }
    assert(src@.subrange(0, src@.len() as int) =~= src@);
}

fn push_arg(out: &mut Vec<u8>, a: &PayloadArg)
    ensures
        final(out)@ == old(out)@ + arg_bytes(*a),
{
    match a {
        PayloadArg::Identifier(Identifier::Ed25519(k)) => {
            out.push(0u8);
            out.push(0u8);
            push_bytes(out, k.as_slice());
            assert(out@ =~= old(out)@ + arg_bytes(*a));
        },
        PayloadArg::U64(n) => {
            out.push(1u8);
            push_u64(out, *n);
            assert(out@ =~= old(out)@ + arg_bytes(*a));
        },
    }
}

impl SignaturePayload {
    /// The canonical encoding of this payload.
    pub open spec fn spec_bytes(&self) -> Seq<u8> {
        payload_bytes(self.function@, self.contract@, self.network@, self.args@)
    }

    /// The bytes that are signed.
    pub fn to_bytes(&self) -> (r: Vec<u8>)
        ensures
            r@ == self.spec_bytes(),
    {
        let mut out: Vec<u8> = Vec::new();
        out.push(0u8);
        push_u64(&mut out, self.function.len() as u64);
        push_bytes(&mut out, self.function.as_slice());
        push_bytes(&mut out, self.contract.as_slice());
        push_u64(&mut out, self.network.len() as u64);
        push_bytes(&mut out, self.network.as_slice());
        push_u64(&mut out, self.args.len() as u64);
        let ghost head = out@;
        let mut i: usize = 0;
        while i < self.args.len()
            invariant
                0 <= i <= self.args@.len(),
                out@ == head + args_bytes(self.args@.subrange(0, i as int)),
            decreases self.args@.len() - i,
        {
            push_arg(&mut out, &self.args[i]);
            assert(self.args@.subrange(0, i + 1).drop_last() =~= self.args@.subrange(0, i as int));
            assert(out@ =~= head + args_bytes(self.args@.subrange(0, i + 1)));
            i = i + 1;
        }
        assert(self.args@.subrange(0, self.args@.len() as int) =~= self.args@);
        assert(out@ =~= self.spec_bytes());
        out
    }
}

} // verus!
