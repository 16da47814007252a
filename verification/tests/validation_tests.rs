use blockchain::block::Block;
use blockchain::block_signature::BlockSignature;
use blockchain::validation::{
    blockValidationErrors, check_block, check_block_checked, enact_block, GenesisLookup,
    SignatureRecord, ValidationContext,
};
use ring::signature::KeyPair;

fn new_key() -> (String, String) {
    let rng = ring::rand::SystemRandom::new();
    let pkcs8 = ring::signature::Ed25519KeyPair::generate_pkcs8(&rng).unwrap();
    let pair = ring::signature::Ed25519KeyPair::from_pkcs8(pkcs8.as_ref()).unwrap();
    (hex::encode(pkcs8.as_ref()), hex::encode(pair.public_key().as_ref()))
}

const DIGEST: [u8; 4] = [0xaa, 0xbb, 0xcc, 0xdd];
const NOW: u64 = 1_000_000;
const OFFSET: u64 = 100;

/// A signed genesis block of a new chain whose timestamp passes the window
/// check (`timestamp - offset >= now`).
fn genesis_block() -> Block {
    let (private_key, public_key) = new_key();
    let mut b = Block::default();
    b.header.network = vec![7];
    b.header.prev_hash = String::from("00000000000");
    b.header.chain_key = public_key;
    b.header.timestamp = NOW + 2 * OFFSET;
    b.hash(&DIGEST);
    b.sign(&private_key).unwrap();
    b
}

fn context() -> ValidationContext {
    ValidationContext {
        network_id: vec![7],
        block_digest: DIGEST.to_vec(),
        checkpoint: String::from("-1"),
        genesis: GenesisLookup::NotFound,
        account_exists: false,
        stored_block: Block::default(),
        previous_block_hash: String::new(),
        now: NOW,
        timestamp_max_offset: OFFSET,
        commitee_size: 3,
        signature_records: vec![],
        transaction_validity: vec![],
    }
}

/// A block above height 0 on an existing chain that passes every check.
fn chain_block() -> (Block, ValidationContext) {
    let mut b = genesis_block();
    b.header.height = 5;
    b.header.prev_hash = String::from("prev");
    let mut ctx = context();
    ctx.account_exists = true;
    ctx.previous_block_hash = String::from("prev");
    (b, ctx)
}

fn vote(nonce: u64) -> (BlockSignature, SignatureRecord) {
    let (private_key, public_key) = new_key();
    let mut s = BlockSignature {
        hash: String::new(),
        timestamp: NOW + 2 * OFFSET,
        block_hash: String::from("bh"),
        signer_public_key: public_key,
        signature: String::new(),
        nonce,
    };
    let digest = vec![nonce as u8, 1, 2];
    s.hash(&digest);
    s.sign(private_key).unwrap();
    let record = SignatureRecord {
        certificate: String::from("cert"),
        sigcount: nonce.to_string(),
        digest,
    };
    (s, record)
}

#[test]
fn new_genesis_block_accepted() {
    assert_eq!(check_block(genesis_block(), &context()), Ok(()));
}

#[test]
fn network_mismatch() {
    let mut ctx = context();
    ctx.network_id = vec![8];
    assert_eq!(check_block(genesis_block(), &ctx), Err(blockValidationErrors::networkMissmatch));
}

#[test]
fn wrong_hash() {
    let mut ctx = context();
    ctx.block_digest = vec![0xaa];
    assert_eq!(check_block(genesis_block(), &ctx), Err(blockValidationErrors::invalidBlockhash));
}

#[test]
fn law_checkpointed_block_accepted_example() {
    let mut b = genesis_block();
    b.signature = String::from("broken");
    b.header.height = 9;
    let mut ctx = context();
    ctx.checkpoint = String::from("1");
    assert_eq!(check_block(b, &ctx), Ok(()));
}

#[test]
fn law_hashed_block_passes_common_checks_example() {
    let mut b = Block::default();
    b.header.network = vec![7];
    b.header.height = 1;
    b.hash(&DIGEST);
    let r = check_block(b, &context());
    assert_ne!(r, Err(blockValidationErrors::networkMissmatch));
    assert_ne!(r, Err(blockValidationErrors::invalidBlockhash));
}

#[test]
fn genesis_store_failure() {
    let mut ctx = context();
    ctx.genesis = GenesisLookup::Failed;
    assert_eq!(
        check_block(genesis_block(), &ctx),
        Err(blockValidationErrors::failedToGetGenesisBlock)
    );
}

#[test]
fn genesis_store_mismatch_and_match() {
    let b = genesis_block();
    let mut other = b.clone();
    other.header.timestamp += 1;
    let mut ctx = context();
    ctx.genesis = GenesisLookup::Found(other);
    assert_eq!(check_block(b.clone(), &ctx), Err(blockValidationErrors::genesisBlockMissmatch));
    ctx.genesis = GenesisLookup::Found(b.clone());
    assert_eq!(check_block(b.clone(), &ctx), Ok(()));
    let mut unsigned = b.clone();
    unsigned.signature = String::new();
    ctx.genesis = GenesisLookup::Found(Block::default());
    assert_eq!(check_block(unsigned, &ctx), Ok(()));
}

#[test]
fn new_genesis_block_errors() {
    let mut b = genesis_block();
    b.header.prev_hash = String::from("1");
    assert_eq!(
        check_block(b, &context()),
        Err(blockValidationErrors::invalidPreviousBlockhash)
    );

    let mut ctx = context();
    ctx.account_exists = true;
    assert_eq!(check_block(genesis_block(), &ctx), Err(blockValidationErrors::genesisBlockMissmatch));

    let mut b = genesis_block();
    b.signature = String::from("00");
    assert_eq!(check_block(b, &context()), Err(blockValidationErrors::badSignature));

    let mut ctx = context();
    ctx.stored_block = genesis_block();
    assert_eq!(check_block(genesis_block(), &ctx), Err(blockValidationErrors::blockExists));

    let mut ctx = context();
    ctx.now = NOW + 2 * OFFSET;
    assert_eq!(check_block(genesis_block(), &ctx), Err(blockValidationErrors::timestampInvalid));
}

#[test]
fn chain_block_accepted() {
    let (b, ctx) = chain_block();
    assert_eq!(check_block(b, &ctx), Ok(()));
}

#[test]
fn chain_block_errors() {
    let (b, mut ctx) = chain_block();
    ctx.previous_block_hash = String::from("other");
    assert_eq!(check_block(b, &ctx), Err(blockValidationErrors::invalidPreviousBlockhash));

    let (b, mut ctx) = chain_block();
    ctx.account_exists = false;
    assert_eq!(check_block(b, &ctx), Err(blockValidationErrors::other));

    let (mut b, ctx) = chain_block();
    b.signature = String::from("ab");
    assert_eq!(check_block(b, &ctx), Err(blockValidationErrors::badSignature));

    let (b, mut ctx) = chain_block();
    ctx.now = u64::MAX - OFFSET;
    assert_eq!(check_block(b, &ctx), Err(blockValidationErrors::timestampInvalid));
}

#[test]
fn only_the_first_transaction_is_checked() {
    let (b, _) = chain_block();
    let mut b = b;
    let tx = blockchain::block::Transaction {
        hash: String::from("t"),
        amount: 0,
        extra: String::new(),
        flag: 'n',
        sender_key: String::new(),
        receive_key: String::new(),
        access_key: String::new(),
        gas_price: 0,
        max_gas: 0,
        gas: 0,
        nonce: 0,
        signature: String::new(),
        timestamp: 0,
        unlock_time: 0,
    };
    b.txns.push(tx.clone());
    b.txns.push(tx);
    let (_, mut ctx) = chain_block();
    ctx.transaction_validity = vec![false, true];
    assert_eq!(check_block(b.clone(), &ctx), Err(blockValidationErrors::invalidTransaction));
    ctx.transaction_validity = vec![true, false];
    assert_eq!(check_block(b, &ctx), Ok(()));
}

#[test]
fn votes_are_checked() {
    let (mut b, mut ctx) = chain_block();
    let (v1, r1) = vote(1);
    let (v2, mut r2) = vote(2);
    b.node_signatures.push(v1);
    b.node_signatures.push(v2);
    ctx.signature_records = vec![r1.clone(), r2.clone()];
    assert_eq!(check_block(b.clone(), &ctx), Ok(()));
    r2.sigcount = String::from("3");
    ctx.signature_records = vec![r1, r2];
    assert_eq!(check_block(b, &ctx), Err(blockValidationErrors::badNodeSignature));
}

#[test]
fn law_too_few_votes_refused_example() {
    let (mut b, ctx) = chain_block();
    b.confimed = true;
    assert!(b.node_signatures.is_empty());
    assert_eq!(check_block(b, &ctx), Err(blockValidationErrors::tooLittleSignatures));
}

#[test]
fn two_thirds_of_the_committee_suffice() {
    let (mut b, mut ctx) = chain_block();
    b.confimed = true;
    let (v1, r1) = vote(1);
    b.node_signatures.push(v1);
    ctx.signature_records = vec![r1.clone()];
    assert_eq!(check_block(b.clone(), &ctx), Err(blockValidationErrors::tooLittleSignatures));
    let (v2, r2) = vote(2);
    b.node_signatures.push(v2);
    ctx.signature_records = vec![r1, r2];
    assert_eq!(check_block(b.clone(), &ctx), Ok(()));
    ctx.commitee_size = 4;
    assert_eq!(check_block(b.clone(), &ctx), Err(blockValidationErrors::tooLittleSignatures));
    b.confimed = false;
    assert_eq!(check_block(b, &ctx), Ok(()));
}

#[test]
fn vote_validity_rules() {
    let (v, r) = vote(4);
    assert!(v.valid(&r.certificate, &r.sigcount, &r.digest, NOW, OFFSET));
    assert!(!v.valid(&String::from("-1"), &r.sigcount, &r.digest, NOW, OFFSET));
    assert!(!v.valid(&r.certificate, &r.sigcount, &[9, 9], NOW, OFFSET));
    assert!(!v.valid(&r.certificate, &String::from("04"), &r.digest, NOW, OFFSET));
    assert!(!v.valid(&r.certificate, &r.sigcount, &r.digest, NOW + 2 * OFFSET, OFFSET));
    let mut forged = v.clone();
    forged.signature = String::from("00");
    assert!(!forged.valid(&r.certificate, &r.sigcount, &r.digest, NOW, OFFSET));
}

#[test]
fn checked_validation() {
    assert_eq!(check_block_checked(genesis_block(), &context()), Some(Ok(())));
    let mut b = genesis_block();
    b.header.timestamp = OFFSET - 1;
    assert_eq!(check_block_checked(b.clone(), &context()), None);
    let mut ctx = context();
    ctx.network_id = vec![8];
    assert_eq!(
        check_block_checked(b.clone(), &ctx),
        Some(Err(blockValidationErrors::networkMissmatch))
    );
    let mut unsigned = b;
    unsigned.signature = String::new();
    assert_eq!(
        check_block_checked(unsigned, &context()),
        Some(Err(blockValidationErrors::badSignature))
    );
    let (mut b, mut ctx) = chain_block();
    let (mut v, r) = vote(1);
    v.timestamp = u64::MAX;
    b.node_signatures.push(v);
    ctx.signature_records = vec![r.clone()];
    assert_eq!(check_block_checked(b.clone(), &ctx), None);
    let mut no_cert = r;
    no_cert.certificate = String::from("-1");
    ctx.signature_records = vec![no_cert];
    assert_eq!(
        check_block_checked(b, &ctx),
        Some(Err(blockValidationErrors::badNodeSignature))
    );
}

#[test]
fn enact_block_succeeds() {
    assert_eq!(enact_block(Block::default()), Ok(()));
}

#[test]
fn window_check_stops_before_the_sum() {
    let (v, r) = vote(4);
    let mut late = v.clone();
    late.timestamp = u64::MAX;
    let off: u64 = (1u64 << 63) + 1;
    assert!(!late.valid(&r.certificate, &r.sigcount, &r.digest, u64::MAX, off));

    let (mut b, mut ctx) = chain_block();
    b.header.timestamp = u64::MAX;
    ctx.timestamp_max_offset = off;
    ctx.now = u64::MAX;
    assert_eq!(check_block(b.clone(), &ctx), Err(blockValidationErrors::timestampInvalid));
    assert_eq!(
        check_block_checked(b.clone(), &ctx),
        Some(Err(blockValidationErrors::timestampInvalid))
    );
    ctx.now = 0;
    assert_eq!(check_block_checked(b, &ctx), None);
}
