use blockchain::block::{Block, Transaction};
use blockchain::block_signature::{public_key_hex, BlockSignature};
use blockchain::crypto::SignError;
use ring::signature::KeyPair;

fn new_key() -> (String, String) {
    let rng = ring::rand::SystemRandom::new();
    let pkcs8 = ring::signature::Ed25519KeyPair::generate_pkcs8(&rng).unwrap();
    let pair = ring::signature::Ed25519KeyPair::from_pkcs8(pkcs8.as_ref()).unwrap();
    (hex::encode(pkcs8.as_ref()), hex::encode(pair.public_key().as_ref()))
}

fn digest(data: &[u8]) -> Vec<u8> {
    ring::digest::digest(&ring::digest::SHA256, data).as_ref().to_vec()
}

#[test]
fn test_block() {
    let mut i_t: u64 = 0;
    for i in 0..=1000u64 {
        let mut block = Block::default();
        block.header.network = vec![1, 2, 3];
        let (private_key, public_key) = new_key();
        while i_t < 10 {
            let mut txn = Transaction {
                hash: String::new(),
                amount: i * 7 + i_t,
                extra: String::new(),
                flag: 'n',
                sender_key: public_key.clone(),
                receive_key: hex::encode(digest(format!("rc{}", i_t).as_bytes())),
                access_key: String::new(),
                gas_price: 3,
                max_gas: 4,
                gas: 5,
                nonce: i_t,
                signature: String::new(),
                timestamp: 0,
                unlock_time: 0,
            };
            txn.hash = hex::encode(digest(txn.receive_key.as_bytes()));
            block.txns.push(txn);
            i_t += 1;
        }
        let d = digest(&block.bytes());
        block.hash(&d);
        block.sign(&private_key).unwrap();
        block.header.chain_key = public_key;
        assert_eq!(block.validSignature(), true);
    }
}

#[test]
fn block_signature_is_the_ring_signature_of_the_hash() {
    let (private_key, public_key) = new_key();
    let mut block = Block::default();
    block.hash = String::from("00ff00ff");
    block.header.chain_key = public_key;
    block.sign(&private_key).unwrap();
    let pkcs8 = hex::decode(&private_key).unwrap();
    let pair = ring::signature::Ed25519KeyPair::from_pkcs8(&pkcs8).unwrap();
    assert_eq!(block.signature, hex::encode(pair.sign(b"00ff00ff").as_ref()));
    assert_eq!(block.signature.len(), 128);
    assert!(block.validSignature());
}

#[test]
fn tampered_block_fails_signature_check() {
    let (private_key, public_key) = new_key();
    let mut block = Block::default();
    block.hash = String::from("abcdef");
    block.header.chain_key = public_key.clone();
    block.sign(&private_key).unwrap();
    assert!(block.validSignature());
    let mut other = block.clone();
    other.hash = String::from("abcdee");
    assert!(!other.validSignature());
    let mut bad_sig = block.clone();
    bad_sig.signature = String::from("not hex");
    assert!(!bad_sig.validSignature());
    let mut bad_key = block.clone();
    bad_key.header.chain_key = String::from("zz");
    assert!(!bad_key.validSignature());
    let (_, other_public) = new_key();
    let mut wrong_key = block.clone();
    wrong_key.header.chain_key = other_public;
    assert!(!wrong_key.validSignature());
}

#[test]
fn rejected_key_leaves_block_unchanged() {
    let mut block = Block::default();
    block.hash = String::from("aa");
    let before = block.clone();
    assert_eq!(block.sign(&String::from("00112233")), Err(SignError::KeyRejected));
    assert_eq!(block, before);
    let mut vote = BlockSignature::default();
    assert_eq!(vote.sign(String::from("")), Err(SignError::KeyRejected));
    assert_eq!(vote, BlockSignature::default());
}

#[test]
fn vote_sign_then_verify() {
    let (private_key, public_key) = new_key();
    let mut vote = BlockSignature {
        hash: String::new(),
        timestamp: 5,
        block_hash: String::from("bh"),
        signer_public_key: public_key,
        signature: String::new(),
        nonce: 1,
    };
    let d = digest(&vote.bytes());
    vote.hash(&d);
    vote.sign(private_key).unwrap();
    assert!(vote.signature_valid());
    let mut forged = vote.clone();
    forged.nonce = 2;
    let d2 = digest(&forged.bytes());
    forged.hash(&d2);
    assert!(!forged.signature_valid());
}

#[test]
fn signing_with_the_chain_key_pair_verifies() {
    let (private_key, ring_public_key) = new_key();
    let public_key = public_key_hex(&private_key).unwrap();
    assert_eq!(public_key, ring_public_key);
    let mut block = Block::default();
    block.hash = String::from("1234");
    block.header.chain_key = public_key.clone();
    block.sign(&private_key).unwrap();
    assert!(block.validSignature());
    let mut vote = BlockSignature::default();
    vote.hash = String::from("5678");
    vote.signer_public_key = public_key;
    vote.sign(private_key).unwrap();
    assert!(vote.signature_valid());
}

#[test]
fn unsigned_values_do_not_verify() {
    assert!(!Block::default().validSignature());
    assert!(!BlockSignature::default().signature_valid());
    assert_eq!(public_key_hex(&String::from("00")), Err(SignError::KeyRejected));
}

#[test]
fn law_block_sign_then_verify_example() {
    let (private_key, public_key) = new_key();
    let mut block = Block::default();
    block.header.chain_key = public_key;
    let d = digest(&block.bytes());
    block.hash(&d);
    let hash_before = block.hash.clone();
    let bytes_before = block.bytes();
    block.sign(&private_key).unwrap();
    assert_eq!(block.hash, hash_before);
    assert_eq!(block.bytes(), bytes_before);
    assert!(block.validSignature());
}
