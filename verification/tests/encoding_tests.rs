use blockchain::block::{Block, Header, Transaction};
use blockchain::block_signature::BlockSignature;

fn header() -> Header {
    Header {
        version_major: 1,
        version_breaking: 20,
        version_minor: 255,
        chain_key: String::from("ab"),
        prev_hash: String::from("cd"),
        height: 10,
        timestamp: 1234567890123,
        network: vec![1, 2, 3],
    }
}

fn txn(hash: &str) -> Transaction {
    Transaction {
        hash: String::from(hash),
        amount: 5,
        extra: String::new(),
        flag: 'n',
        sender_key: String::new(),
        receive_key: String::new(),
        access_key: String::new(),
        gas_price: 1,
        max_gas: 2,
        gas: 3,
        nonce: 4,
        signature: String::new(),
        timestamp: 0,
        unlock_time: 0,
    }
}

#[test]
fn header_bytes_are_decimal_and_text() {
    let h = header();
    assert_eq!(h.bytes(), b"120255abcd101234567890123".to_vec());
}

#[test]
fn header_bytes_match_to_string_rendering() {
    let h = Header {
        version_major: 0,
        version_breaking: 9,
        version_minor: 100,
        chain_key: String::from("k\u{e9}y"),
        prev_hash: String::new(),
        height: u64::MAX,
        timestamp: 0,
        network: vec![],
    };
    let mut expected: Vec<u8> = vec![];
    expected.extend(h.version_major.to_string().as_bytes());
    expected.extend(h.version_breaking.to_string().as_bytes());
    expected.extend(h.version_minor.to_string().as_bytes());
    expected.extend(h.chain_key.as_bytes());
    expected.extend(h.prev_hash.as_bytes());
    expected.extend(h.height.to_string().as_bytes());
    expected.extend(h.timestamp.to_string().as_bytes());
    assert_eq!(h.bytes(), expected);
}

#[test]
fn block_bytes_append_transaction_hashes() {
    let mut b = Block::default();
    b.header = header();
    b.txns.push(txn("t1"));
    b.txns.push(txn("xyz"));
    let mut expected = header().bytes();
    expected.extend(b"t1xyz");
    assert_eq!(b.bytes(), expected);
}

#[test]
fn empty_block_bytes() {
    assert_eq!(Block::default().bytes(), b"00000".to_vec());
}

#[test]
fn vote_bytes_and_bytes_all() {
    let s = BlockSignature {
        hash: String::from("h"),
        timestamp: 77,
        block_hash: String::from("bh"),
        signer_public_key: String::from("pk"),
        signature: String::from("sig"),
        nonce: 3,
    };
    assert_eq!(s.bytes(), b"77bhpk3".to_vec());
    assert_eq!(s.bytes_all(), b"h77bhpk3sig".to_vec());
}

#[test]
fn law_vote_bytes_all_frames_vote_bytes_example() {
    let s = BlockSignature {
        hash: String::from("0f"),
        timestamp: 12,
        block_hash: String::from("aa"),
        signer_public_key: String::from("bb"),
        signature: String::from("cc"),
        nonce: 0,
    };
    let mut framed = s.hash.as_bytes().to_vec();
    framed.extend(s.bytes());
    framed.extend(s.signature.as_bytes());
    assert_eq!(s.bytes_all(), framed);
}

#[test]
fn block_hash_is_lower_hex_of_digest() {
    let mut b = Block::default();
    b.hash(&[0xde, 0xad, 0x00, 0x0f]);
    assert_eq!(b.hash, "dead000f");
    assert_eq!(b.hash_return(&[0xAB, 0x01]), "ab01");
    let mut h = header();
    assert_eq!(h.hash(&[0x10, 0xff]), "10ff");
    assert_eq!(h, header());
}

#[test]
fn vote_hash_is_lower_hex_of_digest() {
    let mut s = BlockSignature::default();
    s.hash(&[0x01, 0x23, 0x45]);
    assert_eq!(s.hash, "012345");
    assert_eq!(s.hash_return(&[]), "");
}

#[test]
fn block_equality() {
    let mut a = Block::default();
    a.header = header();
    a.txns.push(txn("t"));
    let b = a.clone();
    assert!(a.isOtherBlock(&b));
    assert!(b.isOtherBlock(&a));
    let mut c = a.clone();
    c.txns[0].flag = 'm';
    assert!(!a.isOtherBlock(&c));
    let mut d = a.clone();
    d.header.network.push(9);
    assert!(!a.isOtherBlock(&d));
    assert!(Block::default().is_empty_block());
    assert!(!a.is_empty_block());
}

#[test]
fn clones_are_equal() {
    let mut a = Block::default();
    a.header = header();
    a.txns.push(txn("t"));
    a.node_signatures.push(BlockSignature::default());
    let b = a.clone_block();
    assert_eq!(a, b);
}
