//! Merkle digests over the blocks of a chain and over all chains.
use vstd::prelude::*;
use vstd::utf8::{decode_utf8, valid_utf8};

verus! {

/// Declares `merkle::MerkleTree`, whose leaves `merkle_leaves` names.
#[verifier::external_type_specification]
#[verifier::external_body]
#[verifier::reject_recursive_types(T)]
pub struct ExMerkleTree<T>(merkle::MerkleTree<T>);

/// The leaves that a Merkle tree of strings was built from, in order.
pub uninterp spec fn merkle_leaves(tree: merkle::MerkleTree<String>) -> Seq<Seq<char>>;

/// The root hash (`MerkleTree::root_hash`) of the SHA-256 Merkle tree whose
/// leaves are the UTF-8 bytes of `leaves`, in order.
pub uninterp spec fn merkle_root_hash(leaves: Seq<Seq<char>>) -> Seq<u8>;

/// The texts of a list of strings.
pub open spec fn texts(values: Seq<String>) -> Seq<Seq<char>> {
    values.map_values(|s: String| s@)
}

/// Calls `merkle::MerkleTree::from_vec` with the SHA-256 algorithm of
/// `ring`; the tree's leaves are the given strings, in order. An empty list
/// gives the empty tree.
#[verifier::external_body]
fn merkle_tree_from(values: Vec<String>) -> (tree: merkle::MerkleTree<String>)
    ensures
        merkle_leaves(tree) == texts(values@),
{
    merkle::MerkleTree::from_vec(&ring::digest::SHA256, values)
}

/// Calls `MerkleTree::root_hash`. Every tree of this library is built with
/// SHA-256, so the root is a function of the leaves alone.
#[verifier::external_body]
fn merkle_tree_root(tree: &merkle::MerkleTree<String>) -> (root: Vec<u8>)
    ensures
        root@ == merkle_root_hash(merkle_leaves(*tree)),
{
    tree.root_hash().clone()
}

/// Calls `String::from_utf8`, which accepts exactly the well-formed UTF-8
/// byte strings and yields the characters they encode; a rejection is
/// returned as `None`.
#[verifier::external_body]
fn string_from_utf8(bytes: Vec<u8>) -> (res: Option<String>)
    ensures
        match res {
            Some(s) => valid_utf8(bytes@) && s@ == decode_utf8(bytes@),
            None => !valid_utf8(bytes@),
        },
{
    String::from_utf8(bytes).ok()
}

/// Why a Merkle digest could not be given.
#[derive(Debug, Clone, Copy, PartialEq, Eq)]
pub enum MerkleError {
    /// The root hash is not a UTF-8 text.
    RootNotUtf8,
}

/// The digest over `leaves` as text: `Ok` with the characters that the root
/// hash encodes where it is well-formed UTF-8, `Err(RootNotUtf8)` otherwise.
pub open spec fn merkle_text(leaves: Seq<Seq<char>>) -> Result<Seq<char>, MerkleError> {
    if valid_utf8(merkle_root_hash(leaves)) {
        Ok(decode_utf8(merkle_root_hash(leaves)))
    } else {
        Err(MerkleError::RootNotUtf8)
    }
}

/// The Merkle digest of a chain, over the block hashes it holds in order
/// (as its inventory lists them), read as a UTF-8 text.
pub fn generate_merkle_root(chain_values: Vec<String>) -> (res: Result<String, MerkleError>)
    ensures
        res is Ok <==> merkle_text(texts(chain_values@)) is Ok,
        res matches Ok(root) ==> Ok::<Seq<char>, MerkleError>(root@) == merkle_text(
            texts(chain_values@),
        ),
        res matches Err(e) ==> Err::<Seq<char>, MerkleError>(e) == merkle_text(
            texts(chain_values@),
        ),
{
    let tree = merkle_tree_from(chain_values);
    let root = merkle_tree_root(&tree);
    match string_from_utf8(root) {
        Some(s) => Ok(s),
        None => Err(MerkleError::RootNotUtf8),
    }
}

/// The Merkle digest over all chains, over the digests of the chains in
/// order, read as a UTF-8 text.
pub fn generate_merkle_root_all(chain_roots: Vec<String>) -> (res: Result<String, MerkleError>)
    ensures
        res is Ok <==> merkle_text(texts(chain_roots@)) is Ok,
        res matches Ok(root) ==> Ok::<Seq<char>, MerkleError>(root@) == merkle_text(
            texts(chain_roots@),
        ),
        res matches Err(e) ==> Err::<Seq<char>, MerkleError>(e) == merkle_text(
            texts(chain_roots@),
        ),
{
    generate_merkle_root(chain_roots)
}

/// Whether a store entry read for a digest or a block hash stands for
/// "nothing stored": the stores answer `"-1"` for a missing key and `"0"`
/// for an unset one.
pub fn digest_missing(entry: &String) -> (res: bool)
    ensures
        res == (entry@ == "-1"@ || entry@ == "0"@),
{
    let minus_one = "-1".to_owned();
    let zero = "0".to_owned();
    *entry == minus_one || *entry == zero
}

} // verus!
