//! Ed25519 node identity: the node ID is the hex-encoded public key.

use vstd::prelude::*;
use ed25519_dalek::Signer;
use crate::encoding::{hex_encode, hex_lower};
use crate::text::{concat3, decimal};

verus! {

/// The 32-byte Ed25519 public key derived from a 32-byte secret key.
pub uninterp spec fn ed25519_public_key(secret: Seq<u8>) -> Seq<u8>;

/// The 64-byte Ed25519 signature of `message` under the secret key.
pub uninterp spec fn ed25519_signature(secret: Seq<u8>, message: Seq<u8>) -> Seq<u8>;

/// Wraps `SigningKey::verifying_key` of the key built by
/// `SigningKey::from_bytes(secret)`, returned as its 32 bytes.
#[verifier::external_body]
fn public_key_bytes(secret: &[u8; 32]) -> (r: [u8; 32])
    ensures
        r@ == ed25519_public_key(secret@),
{
    ed25519_dalek::SigningKey::from_bytes(secret).verifying_key().to_bytes()
}

/// Wraps `Signer::sign` of the key built by `SigningKey::from_bytes(secret)`,
/// returned as the signature's 64 bytes. Ed25519 signing is deterministic.
#[verifier::external_body]
fn signature_bytes(secret: &[u8; 32], message: &[u8]) -> (r: [u8; 64])
    ensures
        r@ == ed25519_signature(secret@, message@),
{
    ed25519_dalek::SigningKey::from_bytes(secret).sign(message).to_bytes()
}

/// Ed25519 identity: the node ID is the hex-encoded 32-byte public key
/// (64 hex characters).
pub struct NodeIdentity {
    secret: [u8; 32],
}

/// A key file that does not hold exactly 32 bytes.
#[derive(Debug)]
pub enum IdentityError {
    WrongSize(usize),
}

impl IdentityError {
    /// The error's message.
    pub fn message(&self) -> (r: String)
        ensures
            match self {
                IdentityError::WrongSize(n) => r@ == "Identity file has wrong size (expected 32 bytes, got "@
                    + decimal(*n as nat) + ")"@,
            },
    {
        match self {
            IdentityError::WrongSize(n) => {
                let count = crate::text::u64_to_decimal(*n as u64);
                concat3("Identity file has wrong size (expected 32 bytes, got ", count.as_str(), ")")
            },
        }
    }
}

impl NodeIdentity {
    /// The secret key bytes of this identity.
    pub closed spec fn secret_key(&self) -> Seq<u8> {
        self.secret@
    }

    /// The node ID of this identity: the hex text of its public key.
    pub open spec fn spec_node_id(&self) -> Seq<char> {
        hex_lower(ed25519_public_key(self.secret_key()))
    }

    /// An identity with the given 32-byte secret key.
    pub fn from_secret(secret: [u8; 32]) -> (r: NodeIdentity)
        ensures
            r.secret_key() == secret@,
    {
        NodeIdentity { secret }
    }

    /// An identity read from the contents of a key file, which must hold
    /// exactly 32 bytes.
    pub fn from_key_file(data: &[u8]) -> (r: Result<NodeIdentity, IdentityError>)
        ensures
            data@.len() == 32 <==> r is Ok,
            r matches Ok(id) ==> id.secret_key() == data@,
            r matches Err(IdentityError::WrongSize(n)) ==> n == data@.len(),
    {
        if data.len() != 32 {
            return Err(IdentityError::WrongSize(data.len()));
        }
        let mut secret = [0u8; 32];
        let mut i: usize = 0;
        while i < 32
            invariant
                data@.len() == 32,
                i <= 32,
                secret@.len() == 32,
                forall|j: int| 0 <= j < i ==> secret@[j] == data@[j],
            decreases 32 - i,
        {
            secret[i] = data[i];
            i = i + 1;
        }
        assert(secret@ =~= data@);
        Ok(NodeIdentity { secret })
    }

    /// The secret key bytes, as they are stored in the key file.
    pub fn secret_bytes(&self) -> (r: [u8; 32])
        ensures
            r@ == self.secret_key(),
    {
        self.secret
    }

    /// The node ID: the hex-encoded public key.
    pub fn node_id(&self) -> (r: String)
        ensures
            r@ == self.spec_node_id(),
            r@.len() == 64,
    {
        let pk = public_key_bytes(&self.secret);
        hex_encode(pk.as_slice())
    }

    /// The public key in hex; in the protocol it is the node ID.
    pub fn public_key_hex(&self) -> (r: String)
        ensures
            r@ == self.spec_node_id(),
    {
        self.node_id()
    }

    /// Signs the data and returns the hex-encoded signature.
    pub fn sign_hex(&self, data: &[u8]) -> (r: String)
        ensures
            r@ == hex_lower(ed25519_signature(self.secret_key(), data@)),
            r@.len() == 128,
    {
        let sig = signature_bytes(&self.secret, data);
        hex_encode(sig.as_slice())
    }

    /// Signs the UTF-8 bytes of the node ID; used for relay registration.
    pub fn sign_node_id(&self) -> (r: String)
        ensures
            r@ == hex_lower(ed25519_signature(self.secret_key(), vstd::utf8::encode_utf8(self.spec_node_id()))),
    {
        let id = self.node_id();
        self.sign_hex(id.as_str().as_bytes())
    }

    /// Signs `"{from}:{to}:{session}"`, the offer/answer signature.
    pub fn sign_session(&self, from: &str, to: &str, session: &str) -> (r: String)
        ensures
            r@ == hex_lower(ed25519_signature(
                self.secret_key(),
                vstd::utf8::encode_utf8(from@ + ":"@ + to@ + ":"@ + session@),
            )),
    {
        let a = concat3(from, ":", to);
        let data = concat3(a.as_str(), ":", session);
        self.sign_hex(data.as_str().as_bytes())
    }
}

} // verus!
