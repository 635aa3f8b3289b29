//! Typed contact records and their serialized byte form.
//!
//! A contact is a peer installation's public bundle together with the wallet
//! address it belongs to. The store persists the bundle as opaque bytes under
//! a small self-describing frame (a version byte and a big-endian length),
//! and reconstructing the typed record fails with a [`ContactError`] when the
//! stored bytes are malformed. That failure must propagate: a malformed
//! contact means messages to that peer cannot be encrypted.

use vstd::prelude::*;
use crate::errors::ContactError;
use crate::ids::{hex_of, sha256_of, sha256_digest, hex_encode};
use vstd::string::StringExecFns;

verus! {

/// The frame version written before every serialized bundle.
pub open spec fn contact_frame_version() -> u8 {
    1u8
}

/// The four big-endian length bytes for a value up to `u32::MAX`.
pub open spec fn be32_of(n: int) -> Seq<u8>
    recommends
        0 <= n <= u32::MAX,
{
    seq![
        ((n / 0x1000000) % 256) as u8,
        ((n / 0x10000) % 256) as u8,
        ((n / 0x100) % 256) as u8,
        (n % 256) as u8,
    ]
}

/// The value carried by four big-endian bytes.
pub open spec fn be32_val(b0: u8, b1: u8, b2: u8, b3: u8) -> int {
    b0 * 0x1000000 + b1 * 0x10000 + b2 * 0x100 + b3
}

/// The serialized form of a contact bundle: a version byte, the bundle
/// length in four big-endian bytes, then the bundle itself.
pub open spec fn contact_bytes_of(bundle: Seq<u8>) -> Seq<u8>
    recommends
        bundle.len() <= u32::MAX,
{
    seq![contact_frame_version()] + be32_of(bundle.len() as int) + bundle
}

/// Whether a byte sequence is a well-formed serialized contact: long enough
/// to hold the frame, the right version byte, and a length field that matches
/// the bytes that follow.
pub open spec fn valid_contact_bytes(b: Seq<u8>) -> bool {
    &&& b.len() >= 5
    &&& b[0] == contact_frame_version()
    &&& be32_val(b[1], b[2], b[3], b[4]) == b.len() - 5
}

/// The bundle carried by a well-formed serialized contact.
pub open spec fn bundle_of(b: Seq<u8>) -> Seq<u8>
    recommends
        valid_contact_bytes(b),
{
    b.subrange(5, b.len() as int)
}

/// Reassembling a 32-bit value from the four big-endian bytes written for it
/// gives the value back, and each byte is small enough to fit.
proof fn lemma_be32_round(n: u32)
    by (bit_vector)
    ensures
        be32_val(
            ((n / 0x1000000) % 256) as u8,
            ((n / 0x10000) % 256) as u8,
            ((n / 0x100) % 256) as u8,
            (n % 256) as u8,
        ) == n,
{
}

/// A peer installation's public contact record: the wallet address it belongs
/// to and its opaque public key bundle. The bundle's cryptographic meaning is
/// owned by the crypto layer; the store never parses it.
#[derive(Debug)]
pub struct Contact {
    pub wallet_address: String,
    pub bundle: Vec<u8>,
}

pub struct ContactV {
    pub wallet_address: Seq<char>,
    pub bundle: Seq<u8>,
}

impl View for Contact {
    type V = ContactV;

    open spec fn view(&self) -> ContactV {
        ContactV { wallet_address: self.wallet_address@, bundle: self.bundle@ }
    }
}

impl Contact {
    /// Build a contact record from a wallet address and an opaque bundle.
    pub fn new(wallet_address: String, bundle: Vec<u8>) -> (c: Contact)
        ensures
            c.wallet_address@ == wallet_address@,
            c.bundle@ == bundle@,
    {
        Contact { wallet_address, bundle }
    }

    /// The installation identifier: the lowercase hex digest of the bundle
    /// bytes, so that the same public bundle always names the same
    /// installation.
    pub fn installation_id(&self) -> (r: String)
        ensures
            r@ == hex_of(sha256_of(self.bundle@)),
    {
        let digest = sha256_digest(&self.bundle);
        hex_encode(&digest)
    }

    /// Serialize the contact's bundle under the store's frame.
    pub fn to_bytes(&self) -> (r: Vec<u8>)
        requires
            self.bundle@.len() <= u32::MAX,
        ensures
            r@ == contact_bytes_of(self.bundle@),
            valid_contact_bytes(r@),
            bundle_of(r@) == self.bundle@,
    {
        let n: u32 = self.bundle.len() as u32;
        let mut r: Vec<u8> = Vec::new();
        r.push(1u8);
        r.push(((n / 0x1000000) % 256) as u8);
        r.push(((n / 0x10000) % 256) as u8);
        r.push(((n / 0x100) % 256) as u8);
        r.push((n % 256) as u8);
        let mut i: usize = 0;
        while i < self.bundle.len()
            invariant
                i <= self.bundle@.len(),
                self.bundle@.len() <= u32::MAX,
                n == self.bundle@.len(),
                r@ =~= seq![contact_frame_version()] + be32_of(self.bundle@.len() as int)
                    + self.bundle@.take(i as int),
            decreases self.bundle@.len() - i,
        {
            r.push(self.bundle[i]);
            i = i + 1;
        }
        proof {
            lemma_be32_round(n);
            assert(r@ =~= contact_bytes_of(self.bundle@));
        }
        r
    }

    /// Reconstruct a typed contact from stored bytes and the address the row
    /// belongs to. Fails with a [`ContactError`] exactly when the bytes are
    /// not a well-formed serialized contact.
    pub fn from_bytes(bytes: Vec<u8>, wallet_address: String) -> (r: Result<Contact, ContactError>)
        ensures
            valid_contact_bytes(bytes@) ==> (r matches Ok(c) && c.wallet_address@
                == wallet_address@ && c.bundle@ == bundle_of(bytes@)),
            !valid_contact_bytes(bytes@) ==> (r matches Err(e) && e matches ContactError::BadData(
                _,
            )),
    {
        if bytes.len() < 5 {
            return Err(ContactError::BadData(String::from_str("contact record is truncated")));
        }
        if bytes[0] != 1u8 {
            return Err(
                ContactError::BadData(String::from_str("unknown contact record version")),
            );
        }
        let b1 = bytes[1];
        let b2 = bytes[2];
        let b3 = bytes[3];
        let b4 = bytes[4];
        let declared: u64 = (b1 as u64) * 0x1000000 + (b2 as u64) * 0x10000 + (b3 as u64) * 0x100
            + (b4 as u64);
        let actual: u64 = (bytes.len() - 5) as u64;
        if declared != actual {
            return Err(
                ContactError::BadData(
                    String::from_str("contact record length field does not match its contents"),
                ),
            );
        }
        let mut bundle: Vec<u8> = Vec::new();
        let mut i: usize = 5;
        while i < bytes.len()
            invariant
                5 <= i <= bytes@.len(),
                bundle@ =~= bytes@.subrange(5, i as int),
            decreases bytes@.len() - i,
        {
            bundle.push(bytes[i]);
            i = i + 1;
        }
        proof {
            assert(bundle@ =~= bundle_of(bytes@));
        }
        Ok(Contact { wallet_address, bundle })
    }
}

/// Round trip: serializing a contact and reading the bytes back yields the
/// same bundle, attached to whatever address the row carries.
pub proof fn lemma_contact_round_trip(bundle: Seq<u8>)
    requires
        bundle.len() <= u32::MAX,
    ensures
        valid_contact_bytes(contact_bytes_of(bundle)),
        bundle_of(contact_bytes_of(bundle)) == bundle,
{
    lemma_be32_round(bundle.len() as u32);
    assert(bundle_of(contact_bytes_of(bundle)) =~= bundle);
}

} // verus!
