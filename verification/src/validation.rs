//! The rules under which a block is accepted.
use vstd::prelude::*;

use crate::block::{block_signature_ok, bytes_equal, empty_block, Block, BlockModel};
use crate::block_signature::{vote_reaches_time_check, vote_valid};
use crate::encoding::hex_lower;

verus! {

/// The arithmetic of the timestamp window check stays within `u64`:
/// `timestamp - max_offset` does not underflow, and where that difference is
/// not below `now` (so that `timestamp + max_offset` is computed too) the sum
/// does not overflow.
pub open spec fn timestamp_computable(timestamp: u64, max_offset: u64, now: u64) -> bool {
    &&& max_offset <= timestamp
    &&& timestamp - max_offset >= now ==> timestamp + max_offset <= u64::MAX
}

/// The timestamp window check fails: `timestamp - max_offset < now` or
/// `timestamp + max_offset < now`.
pub open spec fn timestamp_rejected(timestamp: u64, max_offset: u64, now: u64) -> bool {
    timestamp - max_offset < now || timestamp + max_offset < now
}

/// The timestamp window check as it is computed on `u64` values.
pub fn timestamp_out_of_window(timestamp: u64, max_offset: u64, now: u64) -> (res: bool)
    requires
        timestamp_computable(timestamp, max_offset, now),
    ensures
        res == timestamp_rejected(timestamp, max_offset, now),
{
    timestamp - max_offset < now || timestamp + max_offset < now
}

/// Why a block is refused.
#[derive(Debug, Clone, Copy, PartialEq, Eq)]
pub enum blockValidationErrors {
    invalidBlockhash,
    badSignature,
    indexMissmatch,
    invalidPreviousBlockhash,
    invalidTransaction,
    genesisBlockMissmatch,
    failedToGetGenesisBlock,
    blockExists,
    tooLittleSignatures,
    badNodeSignature,
    timestampInvalid,
    networkMissmatch,
    other,
}

/// What the genesis-block store answered for a chain key.
#[derive(Debug, Clone)]
pub enum GenesisLookup {
    /// The store holds this genesis block for the chain.
    Found(Block),
    /// The store holds no genesis block for the chain.
    NotFound,
    /// The store could not be read.
    Failed,
}

/// What the node's stores hold for one vote of a block.
#[derive(Debug, Clone)]
pub struct SignatureRecord {
    /// The signer's entry in the certificate store (`"-1"` where there is none).
    pub certificate: String,
    /// The signer's recorded signature count.
    pub sigcount: String,
    /// The Cryptonight (variant 0) digest of the vote's `bytes()`.
    pub digest: Vec<u8>,
}

/// Everything outside the block that validation reads: configuration, the
/// node's stores, the clock and the digests of the block and its votes.
#[derive(Debug, Clone)]
pub struct ValidationContext {
    /// The network the node runs on.
    pub network_id: Vec<u8>,
    /// The Cryptonight (variant 0) digest of the block's `bytes()`.
    pub block_digest: Vec<u8>,
    /// The checkpoint store's entry for the block hash (`"-1"` where there is none).
    pub checkpoint: String,
    /// The genesis-block store's answer for the block's chain key.
    pub genesis: GenesisLookup,
    /// Whether an account exists for the block's chain key.
    pub account_exists: bool,
    /// The block stored under the block's hash (the empty block where none is).
    pub stored_block: Block,
    /// The hash of the block one below this one on its chain (empty where
    /// there is none).
    pub previous_block_hash: String,
    /// The current time in milliseconds since the Unix epoch.
    pub now: u64,
    /// The allowed offset of a timestamp from the current time.
    pub timestamp_max_offset: u64,
    /// The size of the validating committee.
    pub commitee_size: u64,
    /// What the stores hold for each vote of the block, in order.
    pub signature_records: Vec<SignatureRecord>,
    /// Whether each transaction of the block is valid, in order.
    pub transaction_validity: Vec<bool>,
}

/// Abstract value of a [`GenesisLookup`].
pub enum GenesisLookupModel {
    Found(BlockModel),
    NotFound,
    Failed,
}

/// Abstract value of a [`SignatureRecord`].
pub struct SignatureRecordModel {
    pub certificate: Seq<char>,
    pub sigcount: Seq<char>,
    pub digest: Seq<u8>,
}

/// Abstract value of a [`ValidationContext`].
pub struct ContextModel {
    pub network_id: Seq<u8>,
    pub block_digest: Seq<u8>,
    pub checkpoint: Seq<char>,
    pub genesis: GenesisLookupModel,
    pub account_exists: bool,
    pub stored_block: BlockModel,
    pub previous_block_hash: Seq<char>,
    pub now: u64,
    pub timestamp_max_offset: u64,
    pub commitee_size: u64,
    pub signature_records: Seq<SignatureRecordModel>,
    pub transaction_validity: Seq<bool>,
}

impl View for GenesisLookup {
    type V = GenesisLookupModel;

    open spec fn view(&self) -> GenesisLookupModel {
        match self {
            GenesisLookup::Found(b) => GenesisLookupModel::Found(b@),
            GenesisLookup::NotFound => GenesisLookupModel::NotFound,
            GenesisLookup::Failed => GenesisLookupModel::Failed,
        }
    }
}

impl View for SignatureRecord {
    type V = SignatureRecordModel;

    open spec fn view(&self) -> SignatureRecordModel {
        SignatureRecordModel {
            certificate: self.certificate@,
            sigcount: self.sigcount@,
            digest: self.digest@,
        }
    }
}

impl View for ValidationContext {
    type V = ContextModel;

    open spec fn view(&self) -> ContextModel {
        ContextModel {
            network_id: self.network_id@,
            block_digest: self.block_digest@,
            checkpoint: self.checkpoint@,
            genesis: self.genesis@,
            account_exists: self.account_exists,
            stored_block: self.stored_block@,
            previous_block_hash: self.previous_block_hash@,
            now: self.now,
            timestamp_max_offset: self.timestamp_max_offset,
            commitee_size: self.commitee_size,
            signature_records: self.signature_records@.map_values(|r: SignatureRecord| r@),
            transaction_validity: self.transaction_validity@,
        }
    }
}

/// The context describes this block: one record per vote and one validity
/// flag per transaction.
pub open spec fn context_fits(b: BlockModel, c: ContextModel) -> bool {
    &&& c.signature_records.len() == b.node_signatures.len()
    &&& c.transaction_validity.len() == b.txns.len()
}

/// The `i`-th vote of the block is valid in the context.
pub open spec fn vote_valid_at(b: BlockModel, c: ContextModel, i: int) -> bool {
    vote_valid(
        b.node_signatures[i],
        c.signature_records[i].certificate,
        c.signature_records[i].sigcount,
        c.signature_records[i].digest,
        c.now,
        c.timestamp_max_offset,
    )
}

/// The first `n` votes of the block are valid in the context.
pub open spec fn votes_valid_upto(b: BlockModel, c: ContextModel, n: int) -> bool {
    forall|j: int| 0 <= j < n ==> #[trigger] vote_valid_at(b, c, j)
}

/// The block passes the checks that every block goes through: it is on the
/// node's network and its hash is the hex rendering of its digest.
pub open spec fn passes_common_checks(b: BlockModel, c: ContextModel) -> bool {
    &&& b.header.network == c.network_id
    &&& b.hash == hex_lower(c.block_digest)
}

/// A block carries too few votes: fewer than two thirds of the committee
/// have signed it (`3 * votes < 2 * commitee_size`).
pub open spec fn too_few_votes(votes: nat, commitee_size: u64) -> bool {
    3 * votes < 2 * commitee_size
}

/// Validation goes on to the votes of a block above height 0.
pub open spec fn reaches_vote_checks(b: BlockModel, c: ContextModel) -> bool {
    &&& passes_common_checks(b, c)
    &&& c.checkpoint == "-1"@
    &&& b.header.height != 0
    &&& !(b.confimed && too_few_votes(b.node_signatures.len(), c.commitee_size))
}

/// Validation reaches the timestamp check of a new genesis block.
pub open spec fn reaches_genesis_time_check(b: BlockModel, c: ContextModel) -> bool {
    &&& passes_common_checks(b, c)
    &&& c.checkpoint == "-1"@
    &&& b.header.height == 0
    &&& c.genesis is NotFound
    &&& b.header.prev_hash == "00000000000"@
    &&& !c.account_exists
    &&& block_signature_ok(b)
    &&& c.stored_block == empty_block()
}

/// Validation reaches the timestamp check of a block above height 0.
pub open spec fn reaches_chain_time_check(b: BlockModel, c: ContextModel) -> bool {
    &&& reaches_vote_checks(b, c)
    &&& votes_valid_upto(b, c, b.node_signatures.len() as int)
    &&& b.header.prev_hash == c.previous_block_hash
    &&& c.account_exists
    &&& block_signature_ok(b)
}

/// Every timestamp window check that validation performs stays within `u64`.
pub open spec fn check_block_computable(b: BlockModel, c: ContextModel) -> bool {
    &&& reaches_genesis_time_check(b, c) ==> timestamp_computable(
        b.header.timestamp,
        c.timestamp_max_offset,
        c.now,
    )
    &&& reaches_chain_time_check(b, c) ==> timestamp_computable(
        b.header.timestamp,
        c.timestamp_max_offset,
        c.now,
    )
    &&& reaches_vote_checks(b, c) ==> forall|i: int|
        0 <= i < b.node_signatures.len() && votes_valid_upto(b, c, i) && vote_reaches_time_check(
            #[trigger] b.node_signatures[i],
            c.signature_records[i].certificate,
            c.signature_records[i].sigcount,
            c.signature_records[i].digest,
        ) ==> timestamp_computable(b.node_signatures[i].timestamp, c.timestamp_max_offset, c.now)
}

/// The verdict on a genesis block (height 0) that is not in the checkpoint
/// store.
pub open spec fn genesis_verdict(b: BlockModel, c: ContextModel) -> Result<(), blockValidationErrors> {
    match c.genesis {
        GenesisLookupModel::Failed => Err(blockValidationErrors::failedToGetGenesisBlock),
        GenesisLookupModel::Found(g) => {
            if b != g && g != empty_block() {
                Err(blockValidationErrors::genesisBlockMissmatch)
            } else {
                Ok(())
            }
        },
        GenesisLookupModel::NotFound => {
            if b.header.prev_hash != "00000000000"@ {
                Err(blockValidationErrors::invalidPreviousBlockhash)
            } else if c.account_exists {
                Err(blockValidationErrors::genesisBlockMissmatch)
            } else if !block_signature_ok(b) {
                Err(blockValidationErrors::badSignature)
            } else if c.stored_block != empty_block() {
                Err(blockValidationErrors::blockExists)
            } else if timestamp_rejected(b.header.timestamp, c.timestamp_max_offset, c.now) {
                Err(blockValidationErrors::timestampInvalid)
            } else {
                Ok(())
            }
        },
    }
}

/// The verdict on a block above height 0 that is not in the checkpoint
/// store. Of the transactions only the first is looked at.
pub open spec fn chain_verdict(b: BlockModel, c: ContextModel) -> Result<(), blockValidationErrors> {
    if b.confimed && too_few_votes(b.node_signatures.len(), c.commitee_size) {
        Err(blockValidationErrors::tooLittleSignatures)
    } else if !votes_valid_upto(b, c, b.node_signatures.len() as int) {
        Err(blockValidationErrors::badNodeSignature)
    } else if b.header.prev_hash != c.previous_block_hash {
        Err(blockValidationErrors::invalidPreviousBlockhash)
    } else if !c.account_exists {
        Err(blockValidationErrors::other)
    } else if !block_signature_ok(b) {
        Err(blockValidationErrors::badSignature)
    } else if timestamp_rejected(b.header.timestamp, c.timestamp_max_offset, c.now) {
        Err(blockValidationErrors::timestampInvalid)
    } else if b.txns.len() > 0 && !c.transaction_validity[0] {
        Err(blockValidationErrors::invalidTransaction)
    } else {
        Ok(())
    }
}

/// The verdict on a block in a context.
pub open spec fn block_verdict(b: BlockModel, c: ContextModel) -> Result<(), blockValidationErrors> {
    if b.header.network != c.network_id {
        Err(blockValidationErrors::networkMissmatch)
    } else if b.hash != hex_lower(c.block_digest) {
        Err(blockValidationErrors::invalidBlockhash)
    } else if c.checkpoint != "-1"@ {
        Ok(())
    } else if b.header.height == 0 {
        genesis_verdict(b, c)
    } else {
        chain_verdict(b, c)
    }
}

/// The checks of a genesis block (height 0) that is not in the checkpoint
/// store.
fn check_genesis_block(blk: &Block, ctx: &ValidationContext) -> (res: Result<(), blockValidationErrors>)
    requires
        passes_common_checks(blk@, ctx@),
        ctx@.checkpoint == "-1"@,
        blk@.header.height == 0,
        check_block_computable(blk@, ctx@),
    ensures
        res == genesis_verdict(blk@, ctx@),
{
    let genesis: Block;
    let is_in_db: bool;
    match &ctx.genesis {
        GenesisLookup::Found(b) => {
            genesis = b.clone_block();
            is_in_db = true;
        },
        GenesisLookup::NotFound => {
            genesis = Block::default();
            is_in_db = false;
        },
        GenesisLookup::Failed => {
            return Err(blockValidationErrors::failedToGetGenesisBlock);
        },
    }
    if !blk.isOtherBlock(&genesis) && !genesis.is_empty_block() {
        return Err(blockValidationErrors::genesisBlockMissmatch);
    }
    if is_in_db {
        return Ok(());
    }
    let zeros = "00000000000".to_owned();
    proof {
        reveal_strlit("00000000000");
    }
    if blk.header.prev_hash != zeros {
        Err(blockValidationErrors::invalidPreviousBlockhash)
    } else if ctx.account_exists {
        Err(blockValidationErrors::genesisBlockMissmatch)
    } else if !blk.validSignature() {
        Err(blockValidationErrors::badSignature)
    } else if !ctx.stored_block.is_empty_block() {
        Err(blockValidationErrors::blockExists)
    } else if timestamp_out_of_window(blk.header.timestamp, ctx.timestamp_max_offset, ctx.now) {
        Err(blockValidationErrors::timestampInvalid)
    } else {
        Ok(())
    }
}

/// The checks of a block above height 0 that is not in the checkpoint
/// store.
fn check_chain_block(blk: &Block, ctx: &ValidationContext) -> (res: Result<(), blockValidationErrors>)
    requires
        passes_common_checks(blk@, ctx@),
        ctx@.checkpoint == "-1"@,
        blk@.header.height != 0,
        context_fits(blk@, ctx@),
        check_block_computable(blk@, ctx@),
    ensures
        res == chain_verdict(blk@, ctx@),
{
    let votes: u128 = blk.node_signatures.len() as u128;
    let committee: u128 = ctx.commitee_size as u128;
    if blk.confimed && 3 * votes < 2 * committee {
        return Err(blockValidationErrors::tooLittleSignatures);
    }
    assert(reaches_vote_checks(blk@, ctx@));
    let n: usize = blk.node_signatures.len();
    let mut i: usize = 0;
    while i < n
        invariant
            n == blk.node_signatures@.len(),
            i <= n,
            context_fits(blk@, ctx@),
            reaches_vote_checks(blk@, ctx@),
            check_block_computable(blk@, ctx@),
            votes_valid_upto(blk@, ctx@, i as int),
        decreases n - i,
    {
        let record = &ctx.signature_records[i];
        let ghost vi = blk@.node_signatures[i as int];
        assert(blk.node_signatures[i as int]@ == vi);
        assert(record@ == ctx@.signature_records[i as int]);
        if !blk.node_signatures[i].valid(
            &record.certificate,
            &record.sigcount,
            record.digest.as_slice(),
            ctx.now,
            ctx.timestamp_max_offset,
        ) {
            assert(!vote_valid_at(blk@, ctx@, i as int));
            return Err(blockValidationErrors::badNodeSignature);
        }
        assert(vote_valid_at(blk@, ctx@, i as int));
        i = i + 1;
    }
    if blk.header.prev_hash != ctx.previous_block_hash {
        Err(blockValidationErrors::invalidPreviousBlockhash)
    } else if !ctx.account_exists {
        Err(blockValidationErrors::other)
    } else if !blk.validSignature() {
        Err(blockValidationErrors::badSignature)
    } else if timestamp_out_of_window(blk.header.timestamp, ctx.timestamp_max_offset, ctx.now) {
        Err(blockValidationErrors::timestampInvalid)
    } else if blk.txns.len() > 0 {
        if !ctx.transaction_validity[0] {
            Err(blockValidationErrors::invalidTransaction)
        } else {
            Ok(())
        }
    } else {
        Ok(())
    }
}

/// Validates a block against the node's configuration, stores and clock as
/// `ctx` carries them. The block must be on the node's network and carry the
/// hash of its digest; a block in the checkpoint store is then accepted. A
/// genesis block is compared with the stored genesis block of its chain, or,
/// where there is none, must start a new chain: previous hash
/// `"00000000000"`, no account yet, a valid signature, not stored yet and a
/// timestamp in the window. Any other block must have only valid votes,
/// extend the stored chain, belong to an existing account, carry a valid
/// signature and a timestamp in the window, and its first transaction (if
/// any) must be valid.
pub fn check_block(blk: Block, ctx: &ValidationContext) -> (res: Result<(), blockValidationErrors>)
    requires
        context_fits(blk@, ctx@),
        check_block_computable(blk@, ctx@),
    ensures
        res == block_verdict(blk@, ctx@),
{
    if !bytes_equal(&blk.header.network, &ctx.network_id) {
        return Err(blockValidationErrors::networkMissmatch);
    }
    let own_hash = blk.hash_return(ctx.block_digest.as_slice());
    if blk.hash != own_hash {
        return Err(blockValidationErrors::invalidBlockhash);
    }
    let missing = "-1".to_owned();
    proof {
        reveal_strlit("-1");
    }
    if ctx.checkpoint != missing {
        return Ok(());
    }
    if blk.header.height == 0 {
        check_genesis_block(&blk, ctx)
    } else {
        check_chain_block(&blk, ctx)
    }
}

/// Applies an accepted block to the node's state. Blocks change no state
/// yet, so this always succeeds.
pub fn enact_block(_blk: Block) -> (res: Result<(), String>)
    ensures
        res is Ok,
{
    Ok(())
}

/// Whether every timestamp window check that validating the block performs
/// stays within `u64`.
pub fn timestamps_checkable(blk: &Block, ctx: &ValidationContext) -> (res: bool)
    requires
        context_fits(blk@, ctx@),
    ensures
        res == check_block_computable(blk@, ctx@),
{
    let off: u64 = ctx.timestamp_max_offset;
    let ts: u64 = blk.header.timestamp;
    let now: u64 = ctx.now;
    let ts_ok: bool = off <= ts && (ts - off < now || ts <= u64::MAX - off);
    if !bytes_equal(&blk.header.network, &ctx.network_id) {
        return true;
    }
    let own_hash = blk.hash_return(ctx.block_digest.as_slice());
    if blk.hash != own_hash {
        return true;
    }
    let missing = "-1".to_owned();
    proof {
        reveal_strlit("-1");
    }
    if ctx.checkpoint != missing {
        return true;
    }
    if blk.header.height == 0 {
        let zeros = "00000000000".to_owned();
        proof {
            reveal_strlit("00000000000");
        }
        let not_found: bool = match &ctx.genesis {
            GenesisLookup::NotFound => true,
            _ => false,
        };
        let reaches: bool = not_found && blk.header.prev_hash == zeros && !ctx.account_exists
            && blk.validSignature() && ctx.stored_block.is_empty_block();
        return !reaches || ts_ok;
    }
    let votes: u128 = blk.node_signatures.len() as u128;
    let committee: u128 = ctx.commitee_size as u128;
    if blk.confimed && 3 * votes < 2 * committee {
        return true;
    }
    assert(reaches_vote_checks(blk@, ctx@));
    let n: usize = blk.node_signatures.len();
    let mut i: usize = 0;
    while i < n
        invariant
            n == blk.node_signatures@.len(),
            i <= n,
            context_fits(blk@, ctx@),
            reaches_vote_checks(blk@, ctx@),
            off == ctx.timestamp_max_offset,
            now == ctx.now,
            votes_valid_upto(blk@, ctx@, i as int),
            forall|k: int|
                0 <= k < i ==> timestamp_computable(
                    #[trigger] blk@.node_signatures[k].timestamp,
                    ctx@.timestamp_max_offset,
                    ctx@.now,
                ),
        decreases n - i,
    {
        let record = &ctx.signature_records[i];
        let vote = &blk.node_signatures[i];
        assert(vote@ == blk@.node_signatures[i as int]);
        assert(record@ == ctx@.signature_records[i as int]);
        if !vote.reaches_time_check(&record.certificate, &record.sigcount, record.digest.as_slice()) {
            proof {
                assert(!vote_valid_at(blk@, ctx@, i as int));
                assert forall|k: int|
                    0 <= k < blk@.node_signatures.len() && votes_valid_upto(blk@, ctx@, k)
                        && vote_reaches_time_check(
                        #[trigger] blk@.node_signatures[k],
                        ctx@.signature_records[k].certificate,
                        ctx@.signature_records[k].sigcount,
                        ctx@.signature_records[k].digest,
                    ) implies timestamp_computable(
                    blk@.node_signatures[k].timestamp,
                    ctx@.timestamp_max_offset,
                    ctx@.now,
                ) by {
                    if k > i {
                        assert(vote_valid_at(blk@, ctx@, i as int));
                    }
                }
                assert(!votes_valid_upto(blk@, ctx@, blk@.node_signatures.len() as int));
            }
            return true;
        }
        let vts: u64 = vote.timestamp;
        if vts < off || (vts - off >= now && vts > u64::MAX - off) {
            proof {
                let ii = i as int;
                assert(vote_reaches_time_check(
                    blk@.node_signatures[ii],
                    ctx@.signature_records[ii].certificate,
                    ctx@.signature_records[ii].sigcount,
                    ctx@.signature_records[ii].digest,
                ));
                assert(!timestamp_computable(blk@.node_signatures[ii].timestamp, off, now));
                assert(votes_valid_upto(blk@, ctx@, ii));
            }
            return false;
        }
        if !vote.valid(
            &record.certificate,
            &record.sigcount,
            record.digest.as_slice(),
            ctx.now,
            ctx.timestamp_max_offset,
        ) {
            proof {
                assert(!vote_valid_at(blk@, ctx@, i as int));
                assert forall|k: int|
                    0 <= k < blk@.node_signatures.len() && votes_valid_upto(blk@, ctx@, k)
                        && vote_reaches_time_check(
                        #[trigger] blk@.node_signatures[k],
                        ctx@.signature_records[k].certificate,
                        ctx@.signature_records[k].sigcount,
                        ctx@.signature_records[k].digest,
                    ) implies timestamp_computable(
                    blk@.node_signatures[k].timestamp,
                    ctx@.timestamp_max_offset,
                    ctx@.now,
                ) by {
                    if k > i {
                        assert(vote_valid_at(blk@, ctx@, i as int));
                    }
                }
                assert(!votes_valid_upto(blk@, ctx@, blk@.node_signatures.len() as int));
            }
            return true;
        }
        assert(vote_valid_at(blk@, ctx@, i as int));
        i = i + 1;
    }
    let reaches: bool = blk.header.prev_hash == ctx.previous_block_hash && ctx.account_exists
        && blk.validSignature();
    !reaches || ts_ok
}

/// Validates a block as [`check_block`] does where every timestamp window
/// check on the way to the verdict stays within `u64`; returns `None`, and
/// validates nothing, where one would not.
pub fn check_block_checked(blk: Block, ctx: &ValidationContext) -> (res: Option<
    Result<(), blockValidationErrors>,
>)
    requires
        context_fits(blk@, ctx@),
    ensures
        res is None <==> !check_block_computable(blk@, ctx@),
        res matches Some(r) ==> r == block_verdict(blk@, ctx@),
{
    if timestamps_checkable(&blk, ctx) {
        Some(check_block(blk, ctx))
    } else {
        None
    }
}

} // verus!
