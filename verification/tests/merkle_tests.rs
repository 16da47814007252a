use blockchain::merkle_root::{
    digest_missing, generate_merkle_root, generate_merkle_root_all, MerkleError,
};

fn expected(values: Vec<String>) -> Result<String, MerkleError> {
    let tree = merkle::MerkleTree::from_vec(&ring::digest::SHA256, values);
    String::from_utf8(tree.root_hash().clone()).map_err(|_| MerkleError::RootNotUtf8)
}

#[test]
fn merkle_root_of_empty_chain() {
    assert_eq!(generate_merkle_root(vec![]), expected(vec![]));
    assert_eq!(generate_merkle_root(vec![]), Err(MerkleError::RootNotUtf8));
}

#[test]
fn merkle_root_matches_merkle_crate() {
    for n in 1..40usize {
        let values: Vec<String> = (0..n).map(|i| format!("block{}", i)).collect();
        assert_eq!(generate_merkle_root(values.clone()), expected(values.clone()));
        assert_eq!(generate_merkle_root_all(values.clone()), expected(values));
    }
}

#[test]
fn missing_digest_entries() {
    assert!(digest_missing(&String::from("-1")));
    assert!(digest_missing(&String::from("0")));
    assert!(!digest_missing(&String::from("00")));
    assert!(!digest_missing(&String::from("abc")));
}
