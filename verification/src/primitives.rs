//! The values that identities are made of: addresses, account identifiers,
//! account types, keys, signatures and challenges.

use crate::hexcode::{self, hex_bytes, hex_chars, is_hex_text};
use crate::sr25519::{self, public_key_decodes, signature_decodes, signature_verifies};
use vstd::prelude::*;
use vstd::utf8::*;

verus! {

/// Whether two byte strings are the same.
pub fn same_bytes(a: &[u8], b: &[u8]) -> (same: bool)
    ensures
        same == (a@ == b@),
{
    if a.len() != b.len() {
        return false;
    }
    let mut i: usize = 0;
    while i < a.len()
        invariant
            a@.len() == b@.len(),
            i <= a.len(),
            forall|k: int| 0 <= k < i ==> a@[k] == b@[k],
        decreases a.len() - i,
    {
        if a[i] != b[i] {
            return false;
        }
        i += 1;
    }
    assert(a@ =~= b@);
    true
}

/// The identifier of an off-chain account, such as a mail address or a chat
/// user id.
#[derive(Debug)]
pub struct Address {
    text: String,
}

impl View for Address {
    type V = Seq<char>;

    closed spec fn view(&self) -> Seq<char> {
        self.text@
    }
}

impl Clone for Address {
    fn clone(&self) -> (res: Self)
        ensures
            res == *self,
    {
        Address { text: self.text.clone() }
    }
}

impl Address {
    pub fn new(text: &str) -> (res: Self)
        ensures
            res@ == text@,
    {
        Address { text: text.to_owned() }
    }

    pub fn as_str(&self) -> (text: &str)
        ensures
            text@ == self@,
    {
        self.text.as_str()
    }

    /// Whether both name the same account, letter for letter.
    pub fn same(&self, other: &Address) -> (same: bool)
        ensures
            same == (self@ == other@),
    {
        self.text == other.text
    }
}

/// A blockchain address in its textual form.
#[derive(Debug)]
pub struct NetAccount {
    text: String,
}

impl View for NetAccount {
    type V = Seq<char>;

    closed spec fn view(&self) -> Seq<char> {
        self.text@
    }
}

impl Clone for NetAccount {
    fn clone(&self) -> (res: Self)
        ensures
            res == *self,
    {
        NetAccount { text: self.text.clone() }
    }
}

impl NetAccount {
    pub fn new(text: &str) -> (res: Self)
        ensures
            res@ == text@,
    {
        NetAccount { text: text.to_owned() }
    }

    pub fn as_str(&self) -> (text: &str)
        ensures
            text@ == self@,
    {
        self.text.as_str()
    }

    pub fn same(&self, other: &NetAccount) -> (same: bool)
        ensures
            same == (self@ == other@),
    {
        self.text == other.text
    }
}

/// The category of an off-chain account. It decides which mailbox and
/// transport handle the account.
#[derive(Clone, Copy, Debug, PartialEq, Eq, Structural)]
pub enum AddressType {
    LegalName,
    DisplayName,
    Email,
    Web,
    Twitter,
    Matrix,
}

impl AddressType {
    /// The name of the account type in messages.
    pub open spec fn name(self) -> Seq<char> {
        match self {
            AddressType::LegalName => "legal_name"@,
            AddressType::DisplayName => "display_name"@,
            AddressType::Email => "email"@,
            AddressType::Web => "web"@,
            AddressType::Twitter => "twitter"@,
            AddressType::Matrix => "matrix"@,
        }
    }

    pub fn as_str(&self) -> (text: &'static str)
        ensures
            text@ == self.name(),
    {
        match self {
            AddressType::LegalName => "legal_name",
            AddressType::DisplayName => "display_name",
            AddressType::Email => "email",
            AddressType::Web => "web",
            AddressType::Twitter => "twitter",
            AddressType::Matrix => "matrix",
        }
    }
}

/// Why a textual public key was refused.
#[derive(Clone, Copy, Debug, PartialEq, Eq, Structural)]
pub enum KeyError {
    /// The text is not hexadecimal.
    Hex,
    /// The bytes are no public key of the scheme.
    Bytes,
}

impl KeyError {
    pub open spec fn text(self) -> Seq<char> {
        match self {
            KeyError::Hex => "failed to decode public key from hex"@,
            KeyError::Bytes => "failed creating public key from bytes"@,
        }
    }

    pub fn message(&self) -> (text: &'static str)
        ensures
            text@ == self.text(),
    {
        match self {
            KeyError::Hex => "failed to decode public key from hex",
            KeyError::Bytes => "failed creating public key from bytes",
        }
    }
}

/// The public key of a network address, held in its 32 byte encoding. Every
/// value is one that the signature scheme decodes.
#[derive(Clone, Copy, Debug)]
pub struct PubKey {
    bytes: [u8; 32],
}

impl View for PubKey {
    type V = Seq<u8>;

    closed spec fn view(&self) -> Seq<u8> {
        self.bytes@
    }
}

impl PubKey {
    #[verifier::type_invariant]
    pub closed spec fn is_valid(&self) -> bool {
        public_key_decodes(self.bytes@)
    }

    /// The key with the given encoding, if the scheme decodes it.
    pub fn from_bytes(bytes: &[u8]) -> (key: Option<PubKey>)
        ensures
            key is Some <==> public_key_decodes(bytes@),
            key matches Some(k) ==> k@ == bytes@,
    {
        if !sr25519::accepts_public_key(bytes) {
            return None;
        }
        let mut held: [u8; 32] = [0u8; 32];
        let mut i: usize = 0;
        while i < 32
            invariant
                bytes@.len() == 32,
                i <= 32,
                forall|k: int| 0 <= k < i ==> held@[k] == bytes@[k],
            decreases 32 - i,
        {
            held[i] = bytes[i];
            i += 1;
        }
        assert(held@ =~= bytes@);
        Some(PubKey { bytes: held })
    }

    pub fn to_bytes(&self) -> (bytes: [u8; 32])
        ensures
            bytes@ == self@,
            public_key_decodes(bytes@),
    {
        proof {
            use_type_invariant(self);
        }
        self.bytes
    }

    /// The key as text: its bytes in lowercase hexadecimal.
    pub fn to_hex(&self) -> (text: String)
        ensures
            text@ == hex_chars(self@),
    {
        hexcode::encode(self.bytes.as_slice())
    }

    /// Reads a key from hexadecimal text.
    pub fn from_hex(text: &str) -> (r: Result<PubKey, KeyError>)
        ensures
            match r {
                Ok(key) => {
                    &&& is_hex_text(encode_utf8(text@))
                    &&& public_key_decodes(hex_bytes(encode_utf8(text@)))
                    &&& key@ == hex_bytes(encode_utf8(text@))
                },
                Err(KeyError::Hex) => !is_hex_text(encode_utf8(text@)),
                Err(KeyError::Bytes) => {
                    &&& is_hex_text(encode_utf8(text@))
                    &&& !public_key_decodes(hex_bytes(encode_utf8(text@)))
                },
            },
    {
        match hexcode::decode(text.as_bytes()) {
            Err(_) => Err(KeyError::Hex),
            Ok(bytes) => match PubKey::from_bytes(bytes.as_slice()) {
                Some(key) => Ok(key),
                None => Err(KeyError::Bytes),
            },
        }
    }

    pub fn same(&self, other: &PubKey) -> (same: bool)
        ensures
            same == (self@ == other@),
    {
        same_bytes(self.bytes.as_slice(), other.bytes.as_slice())
    }
}

/// A signature in its 64 byte encoding. Every value is one that the
/// signature scheme decodes.
#[derive(Clone, Copy, Debug)]
pub struct Signature {
    bytes: [u8; 64],
}

impl View for Signature {
    type V = Seq<u8>;

    closed spec fn view(&self) -> Seq<u8> {
        self.bytes@
    }
}

impl Signature {
    #[verifier::type_invariant]
    pub closed spec fn is_valid(&self) -> bool {
        signature_decodes(self.bytes@)
    }

    /// The signature with the given encoding, if the scheme decodes it.
    pub fn from_bytes(bytes: &[u8]) -> (sig: Option<Signature>)
        ensures
            sig is Some <==> signature_decodes(bytes@),
            sig matches Some(s) ==> s@ == bytes@,
    {
        if !sr25519::accepts_signature(bytes) {
            return None;
        }
        let mut held: [u8; 64] = [0u8; 64];
        let mut i: usize = 0;
        while i < 64
            invariant
                bytes@.len() == 64,
                i <= 64,
                forall|k: int| 0 <= k < i ==> held@[k] == bytes@[k],
            decreases 64 - i,
        {
            held[i] = bytes[i];
            i += 1;
        }
        assert(held@ =~= bytes@);
        Some(Signature { bytes: held })
    }

    pub fn to_bytes(&self) -> (bytes: [u8; 64])
        ensures
            bytes@ == self@,
            signature_decodes(bytes@),
    {
        proof {
            use_type_invariant(self);
        }
        self.bytes
    }

    /// The signature as text: its bytes in lowercase hexadecimal.
    pub fn to_hex(&self) -> (text: String)
        ensures
            text@ == hex_chars(self@),
    {
        hexcode::encode(self.bytes.as_slice())
    }
}

/// The context under which claimants sign: the bytes of `substrate`.
pub const SIGNING_CONTEXT: [u8; 9] = [0x73, 0x75, 0x62, 0x73, 0x74, 0x72, 0x61, 0x74, 0x65];

/// A random token that a claimant signs to prove control of a key.
#[derive(Debug)]
pub struct Challenge {
    text: String,
}

impl View for Challenge {
    type V = Seq<char>;

    closed spec fn view(&self) -> Seq<char> {
        self.text@
    }
}

impl Clone for Challenge {
    fn clone(&self) -> (res: Self)
        ensures
            res == *self,
    {
        Challenge { text: self.text.clone() }
    }
}

impl Challenge {
    /// The message that is signed: the text of the challenge, byte for byte.
    pub open spec fn message(&self) -> Seq<u8> {
        encode_utf8(self@)
    }

    /// Whether a signature, given by its bytes, proves the challenge for a
    /// key, given by its bytes. A challenge whose text is longer than the
    /// signature scheme takes is proved by nothing.
    pub open spec fn signed_by(&self, pub_key: Seq<u8>, sig: Seq<u8>) -> bool {
        &&& self.message().len() <= u32::MAX
        &&& signature_verifies(pub_key, SIGNING_CONTEXT@, self.message(), sig)
    }

    /// Whether the signature proves the challenge for the key.
    pub open spec fn accepts(&self, pub_key: PubKey, sig: Signature) -> bool {
        self.signed_by(pub_key@, sig@)
    }

    /// A challenge with the given text.
    pub fn new(text: &str) -> (res: Self)
        ensures
            res@ == text@,
    {
        Challenge { text: text.to_owned() }
    }

    /// The challenge made of sixteen given bytes: their hexadecimal text.
    pub fn from_entropy(raw: [u8; 16]) -> (res: Self)
        ensures
            res@ == hex_chars(raw@),
    {
        Challenge { text: hexcode::encode(raw.as_slice()) }
    }

    /// A fresh challenge: the text of sixteen random bytes.
    pub fn gen_random() -> (res: Self)
        ensures
            exists|raw: Seq<u8>| raw.len() == 16 && res@ == #[trigger] hex_chars(raw),
            res@.len() == 32,
    {
        let raw: [u8; 16] = sr25519::random_bytes();
        Challenge::from_entropy(raw)
    }

    pub fn as_str(&self) -> (text: &str)
        ensures
            text@ == self@,
    {
        self.text.as_str()
    }

    /// Checks a signature over the text of the challenge against a key. A
    /// text too long for the signature scheme is not checked: it is invalid.
    pub fn verify_challenge(&self, pub_key: &PubKey, sig: &Signature) -> (ok: bool)
        ensures
            ok == self.accepts(*pub_key, *sig),
    {
        proof {
            use_type_invariant(pub_key);
            use_type_invariant(sig);
        }
        let message = self.text.as_str().as_bytes();
        if message.len() > u32::MAX as usize {
            return false;
        }
        sr25519::verify_simple(
            pub_key.bytes.as_slice(),
            SIGNING_CONTEXT.as_slice(),
            message,
            sig.bytes.as_slice(),
        )
    }
}

/// A network address: the textual address and the key behind it. It is the
/// identity of a claimant.
#[derive(Debug)]
pub struct NetworkAddress {
    pub address: NetAccount,
    pub pub_key: PubKey,
}

impl Clone for NetworkAddress {
    fn clone(&self) -> (res: Self)
        ensures
            res == *self,
    {
        NetworkAddress { address: self.address.clone(), pub_key: self.pub_key }
    }
}

impl NetworkAddress {
    pub fn new(address: NetAccount, pub_key: PubKey) -> (res: Self)
        ensures
            res.address == address,
            res.pub_key == pub_key,
    {
        NetworkAddress { address, pub_key }
    }

    pub fn address(&self) -> (address: &NetAccount)
        ensures
            *address == self.address,
    {
        &self.address
    }

    pub fn pub_key(&self) -> (pub_key: &PubKey)
        ensures
            *pub_key == self.pub_key,
    {
        &self.pub_key
    }

    /// Whether both name the same claimant: the same address text and the
    /// same key.
    pub open spec fn names(&self, other: NetworkAddress) -> bool {
        self.address@ == other.address@ && self.pub_key@ == other.pub_key@
    }

    pub fn same(&self, other: &NetworkAddress) -> (same: bool)
        ensures
            same == self.names(*other),
    {
        self.address.same(&other.address) && self.pub_key.same(&other.pub_key)
    }
}

/// The handle of a transport session, such as a chat room, that a
/// conversation with a claimant is resumed in.
#[derive(Debug)]
pub struct RoomId {
    text: String,
}

impl View for RoomId {
    type V = Seq<char>;

    closed spec fn view(&self) -> Seq<char> {
        self.text@
    }
}

impl Clone for RoomId {
    fn clone(&self) -> (res: Self)
        ensures
            res == *self,
    {
        RoomId { text: self.text.clone() }
    }
}

impl RoomId {
    pub fn new(text: &str) -> (res: Self)
        ensures
            res@ == text@,
    {
        RoomId { text: text.to_owned() }
    }

    pub fn as_str(&self) -> (text: &str)
        ensures
            text@ == self@,
    {
        self.text.as_str()
    }
}

/// The recorded outcome of a challenge.
#[derive(Clone, Copy, Debug, PartialEq, Eq, Structural)]
pub enum ChallengeStatus {
    Accepted,
    Rejected,
}

} // verus!
