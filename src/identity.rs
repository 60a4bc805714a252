//! Identities and the signatures that speak for them.

use vstd::prelude::*;

verus! {

/// A public identity, tagged by the signature scheme that backs it.
#[derive(Clone, Copy, Debug)]
pub enum Identifier {
    /// An Ed25519 public key.
    Ed25519([u8; 32]),
}

impl View for Identifier {
    /// The key bytes of the identity.
    type V = Seq<u8>;

    open spec fn view(&self) -> Seq<u8> {
        match self {
            Identifier::Ed25519(k) => k@,
        }
    }
}

/// Byte-wise equality of two 32-byte keys.
fn keys_equal(a: &[u8; 32], b: &[u8; 32]) -> (r: bool)
    ensures
        r == (a@ == b@),
{
    let mut i: usize = 0;
    while i < 32
        invariant
            0 <= i <= 32,
            a@.len() == 32,
            b@.len() == 32,
            a@.subrange(0, i as int) == b@.subrange(0, i as int),
        decreases 32 - i,
    {
        if a[i] != b[i] {
            assert(a@[i as int] != b@[i as int]);
            return false;
        }
        assert(a@.subrange(0, i + 1) =~= a@.subrange(0, i as int).push(a@[i as int]));
        assert(b@.subrange(0, i + 1) =~= b@.subrange(0, i as int).push(b@[i as int]));
        i = i + 1;
    }
    assert(a@ =~= a@.subrange(0, 32));
    assert(b@ =~= b@.subrange(0, 32));
    true
}

impl Identifier {
    /// Whether two identities name the same key.
    pub fn same_as(&self, other: &Identifier) -> (r: bool)
        ensures
            r == (self@ == other@),
    {
        match (self, other) {
            (Identifier::Ed25519(a), Identifier::Ed25519(b)) => keys_equal(a, b),
        }
    }
}

/// An Ed25519 signature together with the public key that made it.
#[derive(Clone, Copy, Debug)]
pub struct Ed25519Signature {
    pub public_key: [u8; 32],
    pub signature: [u8; 64],
}

/// A signature, tagged by the scheme that made it.
#[derive(Clone, Copy, Debug)]
pub enum Signature {
    Ed25519(Ed25519Signature),
}

impl Signature {
    /// The identity that the signature claims to come from.
    pub open spec fn spec_identifier(&self) -> Identifier {
        match self {
            Signature::Ed25519(s) => Identifier::Ed25519(s.public_key),
        }
    }

    /// The key bytes of the identity that the signature claims to come from.
    pub open spec fn signer(&self) -> Seq<u8> {
        self.spec_identifier()@
    }

    /// The identity that the signature claims to come from.
    pub fn get_identifier(&self) -> (r: Identifier)
        ensures
            r == self.spec_identifier(),
    {
        match self {
            Signature::Ed25519(s) => Identifier::Ed25519(s.public_key),
        }
    }
}

} // verus!
