//! The SHA-256 checksum of a file, accumulated chunk by chunk and written
//! as lower-case hexadecimal, as the sender announces it and the receiver
//! checks it.

use vstd::prelude::*;
use crate::text::{lower_hex, hex_text};

verus! {

/// The SHA-256 digest of a byte string (FIPS 180-4), as the `sha2` crate
/// computes it.
pub uninterp spec fn sha256(data: Seq<u8>) -> Seq<u8>;

/// The checksum text of a byte string: the lower-case hexadecimal form of
/// its SHA-256 digest.
pub open spec fn checksum_text(data: Seq<u8>) -> Seq<char> {
    hex_text(sha256(data))
}

/// An incremental SHA-256 computation (a `sha2::Sha256` hasher). The
/// hasher's type is generic over traits of the `digest` and `typenum`
/// crates, so it is kept out of view in this opaque struct; `absorbed`
/// names the bytes it has been given.
#[verifier::external_body]
pub struct Checksum {
    hasher: sha2::Sha256,
}

/// The bytes a checksum has absorbed so far, in order.
pub uninterp spec fn absorbed(c: Checksum) -> Seq<u8>;

impl View for Checksum {
    type V = Seq<u8>;

    open spec fn view(&self) -> Seq<u8> {
        absorbed(*self)
    }
}

impl Checksum {
    /// Starts a checksum over no bytes (`Digest::new`).
    #[verifier::external_body]
    pub fn new() -> (c: Checksum)
        ensures
            absorbed(c) == Seq::<u8>::empty(),
    {
        Checksum { hasher: <sha2::Sha256 as sha2::Digest>::new() }
    }

    /// Absorbs the next bytes (`Digest::update`): the hasher then stands for
    /// the bytes absorbed before, followed by these.
    #[verifier::external_body]
    pub fn absorb(&mut self, data: &[u8])
        ensures
            absorbed(*final(self)) == absorbed(*old(self)) + data@,
    {
        sha2::Digest::update(&mut self.hasher, data);
    }

    /// The 32-byte SHA-256 digest of the absorbed bytes (`Digest::finalize`).
    #[verifier::external_body]
    fn digest(self) -> (d: Vec<u8>)
        ensures
            d@ == sha256(absorbed(self)),
            d@.len() == 32,
    {
        sha2::Digest::finalize(self.hasher).to_vec()
    }

    /// The checksum text of the absorbed bytes, as `format!("{:x}", digest)`
    /// writes it.
    pub fn finish(self) -> (text: String)
        ensures
            text@ == checksum_text(self@),
    {
        let d = self.digest();
        lower_hex(d.as_slice())
    }
}

} // verus!
