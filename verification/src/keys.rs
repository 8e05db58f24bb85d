//! Keys, signatures and content identifiers, carried as opaque bytes.

use vstd::prelude::*;

verus! {

/// A public key, as the bytes of its encoding.
#[derive(Debug, PartialEq, Eq, Hash)]
pub struct PublicKey {
    pub bytes: Vec<u8>,
}

impl View for PublicKey {
    type V = Seq<u8>;

    open spec fn view(&self) -> Seq<u8> {
        self.bytes@
    }
}

impl Clone for PublicKey {
    fn clone(&self) -> (copy: Self)
        ensures
            copy@ == self@,
    {
        let bytes = self.bytes.clone();
        assert(bytes@ =~= self.bytes@);
        PublicKey { bytes }
    }
}

/// A private key, as the bytes of its encoding.
#[derive(Clone, Debug, PartialEq, Eq)]
pub struct PrivateKey {
    pub bytes: Vec<u8>,
}

impl View for PrivateKey {
    type V = Seq<u8>;

    open spec fn view(&self) -> Seq<u8> {
        self.bytes@
    }
}

/// A signature, as the bytes of its encoding.
#[derive(Clone, Debug, PartialEq, Eq, Hash)]
pub struct Signature {
    pub bytes: Vec<u8>,
}

impl View for Signature {
    type V = Seq<u8>;

    open spec fn view(&self) -> Seq<u8> {
        self.bytes@
    }
}

/// Identifier of an operation: the hash of its content.
#[derive(Clone, Copy, Debug, PartialEq, Eq, Hash)]
pub struct OperationId {
    pub hash: [u8; 32],
}

impl View for OperationId {
    type V = Seq<u8>;

    open spec fn view(&self) -> Seq<u8> {
        self.hash@
    }
}

/// Identifier of an endorsement.
#[derive(Clone, Copy, Debug, PartialEq, Eq, Hash)]
pub struct EndorsementId {
    pub hash: [u8; 32],
}

impl View for EndorsementId {
    type V = Seq<u8>;

    open spec fn view(&self) -> Seq<u8> {
        self.hash@
    }
}

/// Identifier of a block.
#[derive(Clone, Copy, Debug, PartialEq, Eq, Hash)]
pub struct BlockId {
    pub hash: [u8; 32],
}

impl View for BlockId {
    type V = Seq<u8>;

    open spec fn view(&self) -> Seq<u8> {
        self.hash@
    }
}

} // verus!
