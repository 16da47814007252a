//! Blocks, their headers and the transactions they carry: the abstract
//! model of each, the canonical byte encoding that is hashed, equality and
//! the empty (default) values.
use vstd::prelude::*;
use vstd::string::StringSliceAdditionalSpecFns;
use vstd::utf8::encode_utf8;

use crate::block_signature::{private_key_document, BlockSignature, BlockSignatureModel};
use crate::crypto::{ed25519_public_key, ed25519_sign, ed25519_verify, pkcs8_accepted, sign_with_pkcs8, verify_signature, SignError};
use crate::encoding::{
    decimal, lemma_hex_roundtrip, hex_decode, hex_decode_or_placeholder, hex_encode, hex_lower, hex_or_placeholder, is_hex,
    push_decimal, push_str,
};

verus! {

/// The header of a block.
#[derive(Debug, Clone, PartialEq, Eq)]
pub struct Header {
    pub version_major: u8,
    pub version_breaking: u8,
    pub version_minor: u8,
    /// The public key (hex) of the account whose chain the block extends.
    pub chain_key: String,
    /// The hash of the previous block of the chain.
    pub prev_hash: String,
    pub height: u64,
    pub timestamp: u64,
    pub network: Vec<u8>,
}

/// A transaction as a block carries it.
#[derive(Debug, Clone, PartialEq, Eq)]
pub struct Transaction {
    pub hash: String,
    pub amount: u64,
    pub extra: String,
    pub flag: char,
    pub sender_key: String,
    pub receive_key: String,
    pub access_key: String,
    pub gas_price: u64,
    pub max_gas: u64,
    pub gas: u64,
    pub nonce: u64,
    pub signature: String,
    pub timestamp: u64,
    pub unlock_time: u64,
}

/// A block of an account chain.
#[derive(Debug, Clone, PartialEq, Eq)]
pub struct Block {
    pub header: Header,
    pub txns: Vec<Transaction>,
    pub hash: String,
    pub signature: String,
    pub confimed: bool,
    /// Votes of committee nodes on this block.
    pub node_signatures: Vec<BlockSignature>,
}

/// Abstract value of a [`Header`].
pub struct HeaderModel {
    pub version_major: u8,
    pub version_breaking: u8,
    pub version_minor: u8,
    pub chain_key: Seq<char>,
    pub prev_hash: Seq<char>,
    pub height: u64,
    pub timestamp: u64,
    pub network: Seq<u8>,
}

/// Abstract value of a [`Transaction`].
pub struct TransactionModel {
    pub hash: Seq<char>,
    pub amount: u64,
    pub extra: Seq<char>,
    pub flag: char,
    pub sender_key: Seq<char>,
    pub receive_key: Seq<char>,
    pub access_key: Seq<char>,
    pub gas_price: u64,
    pub max_gas: u64,
    pub gas: u64,
    pub nonce: u64,
    pub signature: Seq<char>,
    pub timestamp: u64,
    pub unlock_time: u64,
}

/// Abstract value of a [`Block`].
pub struct BlockModel {
    pub header: HeaderModel,
    pub txns: Seq<TransactionModel>,
    pub hash: Seq<char>,
    pub signature: Seq<char>,
    pub confimed: bool,
    pub node_signatures: Seq<BlockSignatureModel>,
}

impl View for Header {
    type V = HeaderModel;

    open spec fn view(&self) -> HeaderModel {
        HeaderModel {
            version_major: self.version_major,
            version_breaking: self.version_breaking,
            version_minor: self.version_minor,
            chain_key: self.chain_key@,
            prev_hash: self.prev_hash@,
            height: self.height,
            timestamp: self.timestamp,
            network: self.network@,
        }
    }
}

impl View for Transaction {
    type V = TransactionModel;

    open spec fn view(&self) -> TransactionModel {
        TransactionModel {
            hash: self.hash@,
            amount: self.amount,
            extra: self.extra@,
            flag: self.flag,
            sender_key: self.sender_key@,
            receive_key: self.receive_key@,
            access_key: self.access_key@,
            gas_price: self.gas_price,
            max_gas: self.max_gas,
            gas: self.gas,
            nonce: self.nonce,
            signature: self.signature@,
            timestamp: self.timestamp,
            unlock_time: self.unlock_time,
        }
    }
}

impl View for Block {
    type V = BlockModel;

    open spec fn view(&self) -> BlockModel {
        BlockModel {
            header: self.header@,
            txns: self.txns@.map_values(|t: Transaction| t@),
            hash: self.hash@,
            signature: self.signature@,
            confimed: self.confimed,
            node_signatures: self.node_signatures@.map_values(|s: BlockSignature| s@),
        }
    }
}

/// The empty header.
pub open spec fn empty_header() -> HeaderModel {
    HeaderModel {
        version_major: 0,
        version_breaking: 0,
        version_minor: 0,
        chain_key: Seq::empty(),
        prev_hash: Seq::empty(),
        height: 0,
        timestamp: 0,
        network: Seq::empty(),
    }
}

/// The empty block, which lookups return where nothing is stored.
pub open spec fn empty_block() -> BlockModel {
    BlockModel {
        header: empty_header(),
        txns: Seq::empty(),
        hash: Seq::empty(),
        signature: Seq::empty(),
        confimed: false,
        node_signatures: Seq::empty(),
    }
}

/// The bytes of a header that go into a block hash: the three version
/// numbers, the chain key, the previous hash, the height and the timestamp,
/// integers in decimal and strings in UTF-8, with no separators.
pub open spec fn header_bytes(h: HeaderModel) -> Seq<u8> {
    decimal(h.version_major as nat) + decimal(h.version_breaking as nat) + decimal(
        h.version_minor as nat,
    ) + encode_utf8(h.chain_key) + encode_utf8(h.prev_hash) + decimal(h.height as nat) + decimal(
        h.timestamp as nat,
    )
}

/// The UTF-8 bytes of the transaction hashes, in order.
pub open spec fn txn_hash_bytes(txns: Seq<TransactionModel>) -> Seq<u8>
    decreases txns.len(),
{
    if txns.len() == 0 {
        Seq::empty()
    } else {
        txn_hash_bytes(txns.drop_last()) + encode_utf8(txns.last().hash)
    }
}

/// The bytes of a block that go into its hash: the header bytes followed by
/// the hashes of its transactions.
pub open spec fn block_bytes(b: BlockModel) -> Seq<u8> {
    header_bytes(b.header) + txn_hash_bytes(b.txns)
}

/// The block's Ed25519 signature verifies under the chain key, both taken
/// from their hex texts (`[0, 1, 0]` standing in for one that is not hex).
pub open spec fn block_signature_ok(b: BlockModel) -> bool {
    ed25519_verify(
        hex_or_placeholder(b.header.chain_key),
        encode_utf8(b.hash),
        hex_or_placeholder(b.signature),
    )
}

/// The block `b` after signing it with the hexadecimal private key text
/// `private_key`: its signature is the hex rendering of the Ed25519
/// signature of the UTF-8 bytes of its hash.
pub open spec fn block_signed(b: BlockModel, private_key: Seq<char>) -> BlockModel {
    BlockModel {
        signature: hex_lower(ed25519_sign(private_key_document(private_key), encode_utf8(b.hash))),
        ..b
    }
}

/// Byte vectors compare equal exactly when their contents are.
pub fn bytes_equal(a: &Vec<u8>, b: &Vec<u8>) -> (res: bool)
    ensures
        res == (a@ == b@),
{
    if a.len() != b.len() {
        return false;
    }
    let mut i: usize = 0;
    while i < a.len()
        invariant
            a@.len() == b@.len(),
            i <= a@.len(),
            forall|j: int| 0 <= j < i ==> a@[j] == b@[j],
        decreases a@.len() - i,
    {
        if a[i] != b[i] {
            return false;
        }
        i = i + 1;
    }
    assert(a@ =~= b@);
    true
}

impl Header {
    /// The header's bytes as they go into the block hash.
    pub fn bytes(&self) -> (res: Vec<u8>)
        ensures
            res@ == header_bytes(self@),
    {
        let mut bytes: Vec<u8> = Vec::new();
        push_decimal(&mut bytes, self.version_major as u64);
        push_decimal(&mut bytes, self.version_breaking as u64);
        push_decimal(&mut bytes, self.version_minor as u64);
        push_str(&mut bytes, self.chain_key.as_str());
        push_str(&mut bytes, self.prev_hash.as_str());
        push_decimal(&mut bytes, self.height);
        push_decimal(&mut bytes, self.timestamp);
        assert(bytes@ =~= header_bytes(self@));
        bytes
    }

    /// The header hash: the lower-case hex rendering of `digest`, the
    /// Cryptonight (variant 0) digest of `self.bytes()`, which the caller
    /// computes.
    pub fn hash(&mut self, digest: &[u8]) -> (res: String)
        ensures
            res@ == hex_lower(digest@),
            *final(self) == *old(self),
    {
        hex_encode(digest)
    }

    /// Whether two headers are equal.
    pub fn equals(&self, other: &Header) -> (res: bool)
        ensures
            res == (self@ == other@),
    {
        self.version_major == other.version_major && self.version_breaking
            == other.version_breaking && self.version_minor == other.version_minor
            && self.chain_key == other.chain_key && self.prev_hash == other.prev_hash
            && self.height == other.height && self.timestamp == other.timestamp && bytes_equal(
            &self.network,
            &other.network,
        )
    }
}

impl Header {
    /// A copy of the header.
    pub fn clone_header(&self) -> (res: Header)
        ensures
            res@ == self@,
    {
        let mut network: Vec<u8> = Vec::new();
        crate::encoding::push_bytes(&mut network, self.network.as_slice());
        assert(network@ =~= self.network@);
        Header {
            version_major: self.version_major,
            version_breaking: self.version_breaking,
            version_minor: self.version_minor,
            chain_key: self.chain_key.clone(),
            prev_hash: self.prev_hash.clone(),
            height: self.height,
            timestamp: self.timestamp,
            network,
        }
    }
}

impl Default for Header {
    fn default() -> (h: Header)
        ensures
            h@ == empty_header(),
    {
        Header {
            version_major: 0,
            version_breaking: 0,
            version_minor: 0,
            chain_key: String::new(),
            prev_hash: String::new(),
            height: 0,
            timestamp: 0,
            network: Vec::new(),
        }
    }
}

impl Transaction {
    /// A copy of the transaction.
    pub fn clone_transaction(&self) -> (res: Transaction)
        ensures
            res@ == self@,
    {
        Transaction {
            hash: self.hash.clone(),
            amount: self.amount,
            extra: self.extra.clone(),
            flag: self.flag,
            sender_key: self.sender_key.clone(),
            receive_key: self.receive_key.clone(),
            access_key: self.access_key.clone(),
            gas_price: self.gas_price,
            max_gas: self.max_gas,
            gas: self.gas,
            nonce: self.nonce,
            signature: self.signature.clone(),
            timestamp: self.timestamp,
            unlock_time: self.unlock_time,
        }
    }

    /// Whether two transactions are equal.
    pub fn equals(&self, other: &Transaction) -> (res: bool)
        ensures
            res == (self@ == other@),
    {
        self.hash == other.hash && self.amount == other.amount && self.extra == other.extra
            && self.flag == other.flag && self.sender_key == other.sender_key
            && self.receive_key == other.receive_key && self.access_key == other.access_key
            && self.gas_price == other.gas_price && self.max_gas == other.max_gas && self.gas
            == other.gas && self.nonce == other.nonce && self.signature == other.signature
            && self.timestamp == other.timestamp && self.unlock_time == other.unlock_time
    }
}

/// Whether two transaction lists are equal.
pub fn transactions_equal(a: &Vec<Transaction>, b: &Vec<Transaction>) -> (res: bool)
    ensures
        res == (a@.map_values(|t: Transaction| t@) == b@.map_values(|t: Transaction| t@)),
{
    let ghost va = a@.map_values(|t: Transaction| t@);
    let ghost vb = b@.map_values(|t: Transaction| t@);
    if a.len() != b.len() {
        assert(va.len() != vb.len());
        return false;
    }
    let mut i: usize = 0;
    while i < a.len()
        invariant
            a@.len() == b@.len(),
            i <= a@.len(),
            va == a@.map_values(|t: Transaction| t@),
            vb == b@.map_values(|t: Transaction| t@),
            forall|j: int| 0 <= j < i ==> va[j] == vb[j],
        decreases a@.len() - i,
    {
        if !a[i].equals(&b[i]) {
            assert(va[i as int] != vb[i as int]);
            return false;
        }
        i = i + 1;
    }
    assert(va =~= vb);
    true
}

/// Whether two node-signature lists are equal.
pub fn signatures_equal(a: &Vec<BlockSignature>, b: &Vec<BlockSignature>) -> (res: bool)
    ensures
        res == (a@.map_values(|s: BlockSignature| s@) == b@.map_values(|s: BlockSignature| s@)),
{
    let ghost va = a@.map_values(|s: BlockSignature| s@);
    let ghost vb = b@.map_values(|s: BlockSignature| s@);
    if a.len() != b.len() {
        assert(va.len() != vb.len());
        return false;
    }
    let mut i: usize = 0;
    while i < a.len()
        invariant
            a@.len() == b@.len(),
            i <= a@.len(),
            va == a@.map_values(|s: BlockSignature| s@),
            vb == b@.map_values(|s: BlockSignature| s@),
            forall|j: int| 0 <= j < i ==> va[j] == vb[j],
        decreases a@.len() - i,
    {
        if !a[i].equals(&b[i]) {
            assert(va[i as int] != vb[i as int]);
            return false;
        }
        i = i + 1;
    }
    assert(va =~= vb);
    true
}

impl Default for Block {
    fn default() -> (b: Block)
        ensures
            b@ == empty_block(),
    {
        let b = Block {
            header: Header::default(),
            txns: Vec::new(),
            hash: String::new(),
            signature: String::new(),
            confimed: false,
            node_signatures: Vec::new(),
        };
        assert(b@.txns =~= Seq::<TransactionModel>::empty());
        assert(b@.node_signatures =~= Seq::<BlockSignatureModel>::empty());
        b
    }
}

impl Block {
    /// The block's bytes as they go into its hash.
    pub fn bytes(&self) -> (res: Vec<u8>)
        ensures
            res@ == block_bytes(self@),
    {
        let mut bytes = self.header.bytes();
        let ghost txs = self@.txns;
        let mut i: usize = 0;
        while i < self.txns.len()
            invariant
                i <= self.txns@.len(),
                txs == self@.txns,
                bytes@ == header_bytes(self@.header) + txn_hash_bytes(txs.take(i as int)),
            decreases self.txns@.len() - i,
        {
            push_str(&mut bytes, self.txns[i].hash.as_str());
            proof {
                assert(txs.take(i + 1).drop_last() =~= txs.take(i as int));
                assert(txs.take(i + 1).last() == txs[i as int]);
            }
            i = i + 1;
            assert(bytes@ =~= header_bytes(self@.header) + txn_hash_bytes(txs.take(i as int)));
        }
        assert(txs.take(i as int) =~= txs);
        bytes
    }

    /// Stores as the block hash the lower-case hex rendering of `digest`, the
    /// Cryptonight (variant 0) digest of `self.bytes()`, which the caller
    /// computes.
    pub fn hash(&mut self, digest: &[u8])
        ensures
            final(self)@ == (BlockModel { hash: hex_lower(digest@), ..old(self)@ }),
    {
        self.hash = hex_encode(digest);
    }

    /// The block hash for `digest`, the Cryptonight (variant 0) digest of
    /// `self.bytes()`, which the caller computes.
    pub fn hash_return(&self, digest: &[u8]) -> (res: String)
        ensures
            res@ == hex_lower(digest@),
    {
        hex_encode(digest)
    }

    /// Signs the block hash with the hexadecimal PKCS#8 private key and
    /// stores the hex signature; a key that `ring` rejects leaves the block
    /// unchanged.
    pub fn sign(&mut self, private_key: &String) -> (res: Result<(), SignError>)
        requires
            is_hex(encode_utf8(private_key@)),
        ensures
            res is Ok <==> pkcs8_accepted(private_key_document(private_key@)),
            res is Ok ==> final(self)@ == block_signed(old(self)@, private_key@),
            res is Ok && old(self)@.header.chain_key == hex_lower(
                ed25519_public_key(private_key_document(private_key@)),
            ) ==> block_signature_ok(final(self)@),
            res is Err ==> res == Err::<(), SignError>(SignError::KeyRejected) && final(self)@
                == old(self)@,
    {
        let key = hex_decode(private_key.as_str()).unwrap();
        match sign_with_pkcs8(key.as_slice(), self.hash.as_str().as_bytes()) {
            Ok(sig) => {
                self.signature = hex_encode(sig.as_slice());
                proof {
                    lemma_hex_roundtrip(sig@);
                    lemma_hex_roundtrip(ed25519_public_key(key@));
                }
                Ok(())
            },
            Err(e) => Err(e),
        }
    }

    /// Whether the block's signature verifies under its chain key.
    pub fn validSignature(&self) -> (ok: bool)
        ensures
            ok == block_signature_ok(self@),
            ok ==> hex_or_placeholder(self@.header.chain_key).len() == 32
                && hex_or_placeholder(self@.signature).len() == 64,
    {
        let public_key = hex_decode_or_placeholder(self.header.chain_key.as_str());
        let signature = hex_decode_or_placeholder(self.signature.as_str());
        verify_signature(public_key.as_slice(), self.hash.as_str().as_bytes(), signature.as_slice())
    }

    /// Whether this block equals `OtherBlock` in every field.
    pub fn isOtherBlock(&self, OtherBlock: &Block) -> (res: bool)
        ensures
            res == (self@ == OtherBlock@),
    {
        self.header.equals(&OtherBlock.header) && transactions_equal(&self.txns, &OtherBlock.txns)
            && self.hash == OtherBlock.hash && self.signature == OtherBlock.signature
            && self.confimed == OtherBlock.confimed && signatures_equal(
            &self.node_signatures,
            &OtherBlock.node_signatures,
        )
    }

    /// A copy of the block.
    pub fn clone_block(&self) -> (res: Block)
        ensures
            res@ == self@,
    {
        let mut txns: Vec<Transaction> = Vec::new();
        let mut i: usize = 0;
        while i < self.txns.len()
            invariant
                i <= self.txns@.len(),
                txns@.len() == i,
                forall|j: int| 0 <= j < i ==> #[trigger] txns@[j]@ == self.txns@[j]@,
            decreases self.txns@.len() - i,
        {
            txns.push(self.txns[i].clone_transaction());
            i = i + 1;
        }
        let mut sigs: Vec<BlockSignature> = Vec::new();
        let mut k: usize = 0;
        while k < self.node_signatures.len()
            invariant
                k <= self.node_signatures@.len(),
                sigs@.len() == k,
                forall|j: int| 0 <= j < k ==> #[trigger] sigs@[j]@ == self.node_signatures@[j]@,
            decreases self.node_signatures@.len() - k,
        {
            sigs.push(self.node_signatures[k].clone_signature());
            k = k + 1;
        }
        let res = Block {
            header: self.header.clone_header(),
            txns,
            hash: self.hash.clone(),
            signature: self.signature.clone(),
            confimed: self.confimed,
            node_signatures: sigs,
        };
        assert(res@.txns =~= self@.txns);
        assert(res@.node_signatures =~= self@.node_signatures);
        res
    }

    /// Whether this is the empty block.
    pub fn is_empty_block(&self) -> (res: bool)
        ensures
            res == (self@ == empty_block()),
    {
        let empty = Block::default();
        self.isOtherBlock(&empty)
    }
}

} // verus!
