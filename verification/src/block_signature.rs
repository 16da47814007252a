//! Votes of committee nodes on a block: their byte encodings, their hash,
//! their Ed25519 signature and the rules under which a vote is valid.
use vstd::prelude::*;
use vstd::string::StringSliceAdditionalSpecFns;
use vstd::utf8::encode_utf8;

use crate::block::bytes_equal;
use crate::crypto::{
    ed25519_public_key, ed25519_sign, ed25519_verify, pkcs8_accepted, public_key_of_pkcs8, sign_with_pkcs8, verify_signature, SignError,
};
use crate::validation::{timestamp_computable, timestamp_out_of_window, timestamp_rejected};
use crate::encoding::{
    decimal, hex_decode, hex_decode_or_placeholder, hex_encode, hex_lower, hex_or_placeholder,
    hex_value, is_hex, lemma_hex_roundtrip, push_decimal, push_str,
};

verus! {

/// A committee node's vote on a block.
#[derive(Debug, Clone, PartialEq, Eq)]
pub struct BlockSignature {
    /// The signature of the vote
    pub hash: String,
    /// The timestamp at which the signature was created
    pub timestamp: u64,
    /// The hash of the block this signature is about
    pub block_hash: String,
    /// The public key of the node which created this vote
    pub signer_public_key: String,
    /// The hash of the sig signed by the voter
    pub signature: String,
    /// A nonce to prevent sig replay attacks
    pub nonce: u64,
}

/// Abstract value of a [`BlockSignature`].
pub struct BlockSignatureModel {
    pub hash: Seq<char>,
    pub timestamp: u64,
    pub block_hash: Seq<char>,
    pub signer_public_key: Seq<char>,
    pub signature: Seq<char>,
    pub nonce: u64,
}

impl View for BlockSignature {
    type V = BlockSignatureModel;

    open spec fn view(&self) -> BlockSignatureModel {
        BlockSignatureModel {
            hash: self.hash@,
            timestamp: self.timestamp,
            block_hash: self.block_hash@,
            signer_public_key: self.signer_public_key@,
            signature: self.signature@,
            nonce: self.nonce,
        }
    }
}

/// The empty vote.
pub open spec fn empty_signature() -> BlockSignatureModel {
    BlockSignatureModel {
        hash: Seq::empty(),
        timestamp: 0,
        block_hash: Seq::empty(),
        signer_public_key: Seq::empty(),
        signature: Seq::empty(),
        nonce: 0,
    }
}

/// The bytes of a vote that go into its hash: timestamp, block hash, signer
/// key and nonce, integers in decimal and strings in UTF-8.
pub open spec fn vote_bytes(s: BlockSignatureModel) -> Seq<u8> {
    decimal(s.timestamp as nat) + encode_utf8(s.block_hash) + encode_utf8(s.signer_public_key)
        + decimal(s.nonce as nat)
}

/// All bytes of a vote: its hash, the hashed bytes and its signature.
pub open spec fn vote_bytes_all(s: BlockSignatureModel) -> Seq<u8> {
    encode_utf8(s.hash) + decimal(s.timestamp as nat) + encode_utf8(s.block_hash) + encode_utf8(
        s.signer_public_key,
    ) + decimal(s.nonce as nat) + encode_utf8(s.signature)
}

/// The key that signs with the hexadecimal private key text `private_key`:
/// the PKCS#8 document it denotes.
pub open spec fn private_key_document(private_key: Seq<char>) -> Seq<u8> {
    hex_value(encode_utf8(private_key))
}

/// The hexadecimal public key of the key pair that the hexadecimal PKCS#8
/// private key text `private_key` encodes, or a report that `ring` does not
/// accept the key.
pub fn public_key_hex(private_key: &String) -> (res: Result<String, SignError>)
    requires
        is_hex(encode_utf8(private_key@)),
    ensures
        res is Ok <==> pkcs8_accepted(private_key_document(private_key@)),
        res matches Ok(pk) ==> pk@ == hex_lower(ed25519_public_key(private_key_document(private_key@))),
        res matches Err(e) ==> e == SignError::KeyRejected,
{
    let key = hex_decode(private_key.as_str()).unwrap();
    match public_key_of_pkcs8(key.as_slice()) {
        Ok(pk) => Ok(hex_encode(pk.as_slice())),
        Err(e) => Err(e),
    }
}

/// The vote's Ed25519 signature verifies under its signer key, both taken
/// from their hex texts (`[0, 1, 0]` standing in for one that is not hex).
pub open spec fn vote_signature_ok(s: BlockSignatureModel) -> bool {
    ed25519_verify(
        hex_or_placeholder(s.signer_public_key),
        encode_utf8(s.hash),
        hex_or_placeholder(s.signature),
    )
}

/// A vote passes every check before the timestamp window: the signer has a
/// certificate entry (`certificate` is not `"-1"`), the stored hash is the
/// hex rendering of `digest` and the signer's signature count `sigcount`
/// equals the vote's nonce.
pub open spec fn vote_reaches_time_check(
    s: BlockSignatureModel,
    certificate: Seq<char>,
    sigcount: Seq<char>,
    digest: Seq<u8>,
) -> bool {
    &&& certificate != "-1"@
    &&& s.hash == hex_lower(digest)
    &&& encode_utf8(sigcount) == decimal(s.nonce as nat)
}

/// A vote is valid: it reaches the timestamp check, its timestamp lies in
/// the window and its signature verifies.
pub open spec fn vote_valid(
    s: BlockSignatureModel,
    certificate: Seq<char>,
    sigcount: Seq<char>,
    digest: Seq<u8>,
    now: u64,
    max_offset: u64,
) -> bool {
    &&& vote_reaches_time_check(s, certificate, sigcount, digest)
    &&& !timestamp_rejected(s.timestamp, max_offset, now)
    &&& vote_signature_ok(s)
}

/// The vote `s` after signing it with the hexadecimal private key text
/// `private_key`: its signature is the hex rendering of the Ed25519
/// signature of the UTF-8 bytes of its hash.
pub open spec fn vote_signed(s: BlockSignatureModel, private_key: Seq<char>) -> BlockSignatureModel {
    BlockSignatureModel {
        signature: hex_lower(ed25519_sign(private_key_document(private_key), encode_utf8(s.hash))),
        ..s
    }
}

impl Default for BlockSignature {
    fn default() -> (s: BlockSignature)
        ensures
            s@ == empty_signature(),
    {
        BlockSignature {
            hash: String::new(),
            timestamp: 0,
            block_hash: String::new(),
            signer_public_key: String::new(),
            signature: String::new(),
            nonce: 0,
        }
    }
}

impl BlockSignature {
    /// A copy of the vote.
    pub fn clone_signature(&self) -> (res: BlockSignature)
        ensures
            res@ == self@,
    {
        BlockSignature {
            hash: self.hash.clone(),
            timestamp: self.timestamp,
            block_hash: self.block_hash.clone(),
            signer_public_key: self.signer_public_key.clone(),
            signature: self.signature.clone(),
            nonce: self.nonce,
        }
    }

    /// Whether two votes are equal.
    pub fn equals(&self, other: &BlockSignature) -> (res: bool)
        ensures
            res == (self@ == other@),
    {
        self.hash == other.hash && self.timestamp == other.timestamp && self.block_hash
            == other.block_hash && self.signer_public_key == other.signer_public_key
            && self.signature == other.signature && self.nonce == other.nonce
    }

    /// The vote's bytes as they go into its hash.
    pub fn bytes(&self) -> (res: Vec<u8>)
        ensures
            res@ == vote_bytes(self@),
    {
        let mut bytes: Vec<u8> = Vec::new();
        push_decimal(&mut bytes, self.timestamp);
        push_str(&mut bytes, self.block_hash.as_str());
        push_str(&mut bytes, self.signer_public_key.as_str());
        push_decimal(&mut bytes, self.nonce);
        assert(bytes@ =~= vote_bytes(self@));
        bytes
    }

    /// All of the vote's bytes, hash and signature included.
    pub fn bytes_all(&self) -> (res: Vec<u8>)
        ensures
            res@ == vote_bytes_all(self@),
    {
        let mut bytes: Vec<u8> = Vec::new();
        push_str(&mut bytes, self.hash.as_str());
        push_decimal(&mut bytes, self.timestamp);
        push_str(&mut bytes, self.block_hash.as_str());
        push_str(&mut bytes, self.signer_public_key.as_str());
        push_decimal(&mut bytes, self.nonce);
        push_str(&mut bytes, self.signature.as_str());
        assert(bytes@ =~= vote_bytes_all(self@));
        bytes
    }

    /// Stores as the vote hash the lower-case hex rendering of `digest`, the
    /// Cryptonight (variant 0) digest of `self.bytes()`, which the caller
    /// computes.
    pub fn hash(&mut self, digest: &[u8])
        ensures
            final(self)@ == (BlockSignatureModel { hash: hex_lower(digest@), ..old(self)@ }),
    {
        self.hash = hex_encode(digest);
    }

    /// The vote hash for `digest`, the Cryptonight (variant 0) digest of
    /// `self.bytes()`, which the caller computes.
    pub fn hash_return(&self, digest: &[u8]) -> (res: String)
        ensures
            res@ == hex_lower(digest@),
    {
        hex_encode(digest)
    }

    /// Signs the vote hash with the hexadecimal PKCS#8 private key and stores
    /// the hex signature; a key that `ring` rejects leaves the vote unchanged.
    pub fn sign(&mut self, private_key: String) -> (res: Result<(), SignError>)
        requires
            is_hex(encode_utf8(private_key@)),
        ensures
            res is Ok <==> pkcs8_accepted(private_key_document(private_key@)),
            res is Ok ==> final(self)@ == vote_signed(old(self)@, private_key@),
            res is Ok && old(self)@.signer_public_key == hex_lower(
                ed25519_public_key(private_key_document(private_key@)),
            ) ==> vote_signature_ok(final(self)@),
            res is Err ==> res == Err::<(), SignError>(SignError::KeyRejected) && final(self)@
                == old(self)@,
    {
        let key = hex_decode(private_key.as_str()).unwrap();
        match sign_with_pkcs8(key.as_slice(), self.hash.as_str().as_bytes()) {
            Ok(sig) => {
                self.signature = hex_encode(sig.as_slice());
                proof {
                    lemma_hex_roundtrip(sig@);
                    lemma_hex_roundtrip(ed25519_public_key(key@));
                }
                Ok(())
            },
            Err(e) => Err(e),
        }
    }

    /// Whether the vote's signature verifies under the signer's public key.
    pub fn signature_valid(&self) -> (ok: bool)
        ensures
            ok == vote_signature_ok(self@),
            ok ==> hex_or_placeholder(self@.signer_public_key).len() == 32
                && hex_or_placeholder(self@.signature).len() == 64,
    {
        let public_key = hex_decode_or_placeholder(self.signer_public_key.as_str());
        let signature = hex_decode_or_placeholder(self.signature.as_str());
        verify_signature(public_key.as_slice(), self.hash.as_str().as_bytes(), signature.as_slice())
    }

    /// Whether the vote passes the checks that come before its timestamp
    /// window: the signer has a certificate entry (`certificate` is not
    /// `"-1"`), the stored hash is the hex rendering of `digest` and the
    /// recorded signature count `sigcount` equals the nonce.
    pub fn reaches_time_check(&self, certificate: &String, sigcount: &String, digest: &[u8]) -> (res:
        bool)
        ensures
            res == vote_reaches_time_check(self@, certificate@, sigcount@, digest@),
    {
        let missing = "-1".to_owned();
        proof {
            reveal_strlit("-1");
        }
        if *certificate == missing {
            return false;
        }
        let own_hash = self.hash_return(digest);
        if self.hash != own_hash {
            return false;
        }
        let mut count_bytes: Vec<u8> = Vec::new();
        push_str(&mut count_bytes, sigcount.as_str());
        let mut nonce_bytes: Vec<u8> = Vec::new();
        push_decimal(&mut nonce_bytes, self.nonce);
        assert(count_bytes@ =~= encode_utf8(sigcount@));
        assert(nonce_bytes@ =~= decimal(self.nonce as nat));
        if !bytes_equal(&count_bytes, &nonce_bytes) {
            return false;
        }
        true
    }

    /// Whether the vote is valid, given what the node's stores hold for it:
    /// `certificate`, the signer's entry in the certificate store (`"-1"`
    /// where there is none); `sigcount`, the signer's recorded signature
    /// count; `digest`, the Cryptonight digest of `self.bytes()`; `now`, the
    /// current time in milliseconds; and `max_offset`, the allowed timestamp
    /// offset.
    pub fn valid(
        &self,
        certificate: &String,
        sigcount: &String,
        digest: &[u8],
        now: u64,
        max_offset: u64,
    ) -> (ok: bool)
        requires
            vote_reaches_time_check(self@, certificate@, sigcount@, digest@) ==> timestamp_computable(
                self.timestamp,
                max_offset,
                now,
            ),
        ensures
            ok == vote_valid(self@, certificate@, sigcount@, digest@, now, max_offset),
    {
        if !self.reaches_time_check(certificate, sigcount, digest) {
            return false;
        }
        if timestamp_out_of_window(self.timestamp, max_offset, now) {
            return false;
        }
        self.signature_valid()
    }
}

} // verus!
