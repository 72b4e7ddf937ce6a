//! Key pairs: generation through the external crypto primitive and the
//! canonical OpenSSH text encodings of the two halves.

use vstd::prelude::*;

use crate::text::{extract_base64_from_openssh_string, second_token};

verus! {

/// Names the ed25519 public key derived from 32 bytes of private key material.
pub uninterp spec fn ed25519_public_of(private: Seq<u8>) -> Seq<u8>;

/// Names the canonical one-line OpenSSH rendering
/// (`ssh-ed25519 <base64-payload>`) of an ed25519 public key.
pub uninterp spec fn openssh_public_text(public: Seq<u8>) -> Seq<char>;

/// Names the PEM-like OpenSSH rendering of an unencrypted ed25519 private
/// key; ssh_key derives every field of it (check value included) from the two
/// key halves alone.
pub uninterp spec fn openssh_private_text(private: Seq<u8>, public: Seq<u8>) -> Seq<char>;

/// The substring of the public key's canonical rendering that patterns are
/// matched against: its base64 payload.
pub open spec fn comparable_string_of(public: Seq<u8>) -> Seq<char> {
    second_token(openssh_public_text(public))
}

/// Relies on ed25519_dalek::SigningKey::generate with rand's OsRng: 32 bytes
/// of fresh private key material; nothing is promised of their values.
#[verifier::external_body]
fn fresh_signing_key_bytes() -> (r: Vec<u8>)
    ensures
        r@.len() == 32,
{
    ed25519_dalek::SigningKey::generate(&mut rand::rngs::OsRng).to_bytes().to_vec()
}

/// Relies on ed25519_dalek::SigningKey::verifying_key: the public key is a
/// function of the 32 private key bytes alone, and is 32 bytes long.
#[verifier::external_body]
fn derive_public_bytes(private: &Vec<u8>) -> (r: Vec<u8>)
    requires
        private@.len() == 32,
    ensures
        r@.len() == 32,
        r@ == ed25519_public_of(private@),
{
    let mut b = [0u8; 32];
    b.copy_from_slice(private.as_slice());
    ed25519_dalek::SigningKey::from_bytes(&b).verifying_key().to_bytes().to_vec()
}

/// Relies on ssh_key::public::PublicKey::to_openssh (through
/// Ed25519PublicKey and PublicKey::from): the one-line text is a function of
/// the 32 public key bytes alone, the comment being empty.
#[verifier::external_body]
fn encode_openssh_public(public: &Vec<u8>) -> (r: String)
    requires
        public@.len() == 32,
    ensures
        r@ == openssh_public_text(public@),
{
    let mut b = [0u8; 32];
    b.copy_from_slice(public.as_slice());
    let key = ssh_key::public::PublicKey::from(ssh_key::public::Ed25519PublicKey(b));
    key.to_openssh().expect("encoding an ed25519 public key cannot fail")
}

/// Relies on ssh_key::PrivateKey::to_openssh (through Ed25519Keypair and
/// PrivateKey::from): the unencrypted PEM text is a function of the two
/// 32-byte key halves alone (its check value is derived from the private
/// bytes).
#[verifier::external_body]
fn encode_openssh_private(private: &Vec<u8>, public: &Vec<u8>) -> (r: String)
    requires
        private@.len() == 32,
        public@.len() == 32,
    ensures
        r@ == openssh_private_text(private@, public@),
{
    let mut pb = [0u8; 32];
    pb.copy_from_slice(private.as_slice());
    let mut qb = [0u8; 32];
    qb.copy_from_slice(public.as_slice());
    let keypair = ssh_key::private::Ed25519Keypair {
        public: ssh_key::public::Ed25519PublicKey(qb),
        private: ssh_key::private::Ed25519PrivateKey::from_bytes(&pb),
    };
    let key = ssh_key::PrivateKey::from(keypair);
    let pem = key.to_openssh(ssh_key::LineEnding::LF).expect(
        "encoding an ed25519 private key cannot fail",
    );
    pem.to_string()
}

/// The two raw halves of a key pair, as ghost byte sequences.
pub struct KeyPairView {
    pub public: Seq<u8>,
    pub private: Seq<u8>,
}

/// An ownership-exclusive ed25519 key pair, immutable once created.
pub struct KeyPair {
    public_key: Vec<u8>,
    private_key: Vec<u8>,
}

impl View for KeyPair {
    type V = KeyPairView;

    closed spec fn view(&self) -> KeyPairView {
        KeyPairView { public: self.public_key@, private: self.private_key@ }
    }
}

#[verifier::type_invariant]
spec fn keypair_inv(kp: &KeyPair) -> bool {
    &&& kp.private_key@.len() == 32
    &&& kp.public_key@.len() == 32
    &&& kp.public_key@ == ed25519_public_of(kp.private_key@)
}

impl KeyPair {
    /// Builds the key pair whose private half is `private`, deriving the
    /// public half; rejects material of the wrong length.
    pub fn from_private_bytes(private: Vec<u8>) -> (r: Option<KeyPair>)
        ensures
            r is Some <==> private@.len() == 32,
            r is Some ==> r->0@.private == private@ && r->0@.public == ed25519_public_of(
                private@,
            ),
    {
        if private.len() == 32 {
            let public_key = derive_public_bytes(&private);
            Some(KeyPair { public_key, private_key: private })
        } else {
            None
        }
    }

    /// The canonical one-line OpenSSH rendering of the public key.
    pub fn public_key_string(&self) -> (r: String)
        ensures
            r@ == openssh_public_text(self@.public),
    {
        proof {
            use_type_invariant(self);
        }
        encode_openssh_public(&self.public_key)
    }

    /// The base64 payload of the public key's OpenSSH rendering: the
    /// comparable string that patterns are matched against. A pure function
    /// of the key bytes, so repeated calls yield identical strings.
    pub fn public_key_string_base64_part(&self) -> (r: String)
        ensures
            r@ == comparable_string_of(self@.public),
    {
        let line = self.public_key_string();
        extract_base64_from_openssh_string(line.as_str()).to_owned()
    }

    /// The OpenSSH PEM rendering of the private key.
    pub fn private_key_string(&self) -> (r: String)
        ensures
            r@ == openssh_private_text(self@.private, self@.public),
    {
        proof {
            use_type_invariant(self);
        }
        encode_openssh_private(&self.private_key, &self.public_key)
    }

    /// The raw public key bytes.
    pub fn public_key_bytes(&self) -> (r: &Vec<u8>)
        ensures
            r@ == self@.public,
            r@.len() == 32,
    {
        proof {
            use_type_invariant(self);
        }
        &self.public_key
    }
}

impl Clone for KeyPair {
    /// An identical key pair.
    fn clone(&self) -> (r: Self)
        ensures
            r@ == self@,
    {
        proof {
            use_type_invariant(self);
        }
        let mut public_key: Vec<u8> = Vec::new();
        let mut private_key: Vec<u8> = Vec::new();
        public_key.extend_from_slice(self.public_key.as_slice());
        private_key.extend_from_slice(self.private_key.as_slice());
        assert(public_key@ =~= self.public_key@);
        assert(private_key@ =~= self.private_key@);
        KeyPair { public_key, private_key }
    }
}

/// Law: the comparable string is a pure function of the public key bytes,
/// so any two renderings of the same key pair are identical, however far
/// apart the calls. `public_key_string_base64_part` pins its result to
/// `comparable_string_of`, so this covers repeated calls on one key pair.
pub proof fn lemma_comparable_string_deterministic(kp: KeyPairView, s1: Seq<char>, s2: Seq<char>)
    requires
        s1 == comparable_string_of(kp.public),
        s2 == comparable_string_of(kp.public),
    ensures
        s1 == s2,
{
}

/// The comparable string of a raw 32-byte public key: the base64 payload of
/// its one-line OpenSSH rendering.
pub fn comparable_string_from_public(public: &Vec<u8>) -> (r: String)
    requires
        public@.len() == 32,
    ensures
        r@ == comparable_string_of(public@),
{
    let line = encode_openssh_public(public);
    extract_base64_from_openssh_string(line.as_str()).to_owned()
}

/// Whether a raw public key's comparable string ends with `suffix`,
/// character for character.
pub fn public_key_ends_with_suffix(public_key: &Vec<u8>, suffix: &str) -> (r: bool)
    requires
        public_key@.len() == 32,
    ensures
        r == crate::text::suffix_matches(comparable_string_of(public_key@), suffix@),
{
    let base64_part = comparable_string_from_public(public_key);
    crate::text::string_ends_with(base64_part.as_str(), suffix)
}

/// Draws fresh randomness from the external crypto primitive and derives a
/// new key pair; the public half is determined by the private half.
pub fn generate_keypair() -> (r: KeyPair)
    ensures
        r@.public == ed25519_public_of(r@.private),
{
    let private_key = fresh_signing_key_bytes();
    let public_key = derive_public_bytes(&private_key);
    KeyPair { public_key, private_key }
}

} // verus!
