//! Properties that relate the operations on blocks and votes.
use vstd::prelude::*;
use vstd::utf8::encode_utf8;

use crate::block::{
    Block, Header, Transaction, block_bytes, block_signature_ok, block_signed, empty_block, header_bytes, BlockModel,
    HeaderModel, TransactionModel,
};
use crate::block_signature::{
    BlockSignature, private_key_document, vote_bytes, vote_bytes_all, vote_signature_ok, vote_signed, vote_valid,
    BlockSignatureModel,
};
use crate::crypto::{ed25519_sign, ed25519_verify};
use crate::encoding::{decimal, hex_lower, hex_or_placeholder};
use crate::validation::{
    block_verdict, blockValidationErrors, context_fits, passes_common_checks, vote_valid_at,
    votes_valid_upto, ContextModel, GenesisLookupModel,
};

verus! {

/// Signing changes neither the block hash nor the bytes it is computed
/// from, so a block hashed before signing stays correctly hashed.
pub proof fn law_signing_keeps_hash(b: BlockModel, private_key: Seq<char>)
    ensures
        block_signed(b, private_key).hash == b.hash,
        block_bytes(block_signed(b, private_key)) == block_bytes(b),
{
}

/// All bytes of a vote are its hash, then the bytes its hash is computed
/// from, then its signature.
pub proof fn law_vote_bytes_all_frames_vote_bytes(s: BlockSignatureModel)
    ensures
        vote_bytes_all(s) == encode_utf8(s.hash) + vote_bytes(s) + encode_utf8(s.signature),
{
    assert(vote_bytes_all(s) =~= encode_utf8(s.hash) + vote_bytes(s) + encode_utf8(s.signature));
}

/// A block on the node's network that was hashed with the digest the
/// context carries passes the checks every block goes through: validation
/// refuses it neither for its network nor for its hash.
pub proof fn law_hashed_block_passes_common_checks(b: BlockModel, c: ContextModel)
    requires
        b.header.network == c.network_id,
    ensures
        passes_common_checks(BlockModel { hash: hex_lower(c.block_digest), ..b }, c),
        block_verdict(BlockModel { hash: hex_lower(c.block_digest), ..b }, c) != Err::<
            (),
            blockValidationErrors,
        >(blockValidationErrors::networkMissmatch),
        block_verdict(BlockModel { hash: hex_lower(c.block_digest), ..b }, c) != Err::<
            (),
            blockValidationErrors,
        >(blockValidationErrors::invalidBlockhash),
{
}

/// A block that passes the common checks and is in the checkpoint store is
/// accepted, whatever else holds of it.
pub proof fn law_checkpointed_block_accepted(b: BlockModel, c: ContextModel)
    requires
        passes_common_checks(b, c),
        c.checkpoint != "-1"@,
    ensures
        block_verdict(b, c) == Ok::<(), blockValidationErrors>(()),
{
}

/// A confirmed block above height 0 that passes the common checks and is
/// not in the checkpoint store is refused when fewer than two thirds of the
/// committee have signed it.
pub proof fn law_too_few_votes_refused(b: BlockModel, c: ContextModel)
    requires
        passes_common_checks(b, c),
        c.checkpoint == "-1"@,
        b.header.height != 0,
        b.confimed,
        3 * b.node_signatures.len() < 2 * c.commitee_size,
    ensures
        block_verdict(b, c) == Err::<(), blockValidationErrors>(
            blockValidationErrors::tooLittleSignatures,
        ),
{
}

/// The number that a string of ASCII decimal digits denotes.
pub open spec fn digits_value(d: Seq<u8>) -> nat
    decreases d.len(),
{
    if d.len() == 0 {
        0
    } else {
        digits_value(d.drop_last()) * 10 + (d.last() - 48) as nat
    }
}

/// The decimal rendering of `n` is the canonical one that `to_string`
/// gives: a non-empty string of ASCII digits that denotes `n`, starting with
/// a non-zero digit unless `n` is zero, which renders as `"0"`.
pub proof fn law_decimal_renders_value(n: nat)
    ensures
        decimal(n).len() > 0,
        forall|i: int| 0 <= i < decimal(n).len() ==> 48 <= #[trigger] decimal(n)[i] <= 57,
        n > 0 ==> decimal(n)[0] != 48,
        n == 0 ==> decimal(n) == seq![48u8],
        digits_value(decimal(n)) == n,
    decreases n,
{
    if n >= 10 {
        let m = n / 10;
        let r = n % 10;
        law_decimal_renders_value(m);
        let d = decimal(n);
        assert(d.drop_last() =~= decimal(m));
        assert(d[0] == decimal(m)[0]);
        assert(d.last() == (48 + r) as u8);
        assert(((48 + r) as u8) - 48 == r);
        assert(m * 10 + r == n);
        assert(digits_value(d) == digits_value(decimal(m)) * 10 + r);
    } else {
        let d = decimal(n);
        assert(d.drop_last() =~= Seq::<u8>::empty());
        assert(d == seq![(48 + n) as u8]);
        assert(digits_value(d.drop_last()) == 0);
        assert(d.last() - 48 == n);
        assert(digits_value(d) == n);
    }
}

/// Different numbers have different decimal renderings.
pub proof fn law_decimal_injective(n: nat, m: nat)
    requires
        n != m,
    ensures
        decimal(n) != decimal(m),
{
    law_decimal_renders_value(n);
    law_decimal_renders_value(m);
}

/// Replacing a middle part of a concatenation by a different one changes
/// the whole.
proof fn lemma_middle_differs(p: Seq<u8>, a: Seq<u8>, b: Seq<u8>, q: Seq<u8>)
    requires
        a != b,
    ensures
        p + a + q != p + b + q,
{
    if a.len() == b.len() {
        if forall|i: int| 0 <= i < a.len() ==> a[i] == b[i] {
            assert(a =~= b);
        }
        let i = choose|i: int| 0 <= i < a.len() && a[i] != b[i];
        assert((p + a + q)[p.len() + i] == a[i]);
        assert((p + b + q)[p.len() + i] == b[i]);
    } else {
        assert((p + a + q).len() != (p + b + q).len());
    }
}

/// The hashed bytes of a vote begin with the decimal rendering of its full
/// timestamp and end with that of its nonce.
pub proof fn law_vote_bytes_frame(s: BlockSignatureModel)
    ensures
        vote_bytes(s).take(decimal(s.timestamp as nat).len() as int) == decimal(s.timestamp as nat),
        vote_bytes(s).skip(vote_bytes(s).len() - decimal(s.nonce as nat).len()) == decimal(
            s.nonce as nat,
        ),
        vote_bytes_all(s).skip(encode_utf8(s.hash).len() as int).take(
            decimal(s.timestamp as nat).len() as int,
        ) == decimal(s.timestamp as nat),
{
    let t = decimal(s.timestamp as nat);
    let rest = encode_utf8(s.block_hash) + encode_utf8(s.signer_public_key) + decimal(
        s.nonce as nat,
    );
    assert(vote_bytes(s) =~= t + rest);
    assert((t + rest).take(t.len() as int) =~= t);
    let front = t + encode_utf8(s.block_hash) + encode_utf8(s.signer_public_key);
    assert(vote_bytes(s) =~= front + decimal(s.nonce as nat));
    assert((front + decimal(s.nonce as nat)).skip(front.len() as int) =~= decimal(s.nonce as nat));
    let h = encode_utf8(s.hash);
    let rest_all = rest + encode_utf8(s.signature);
    assert(vote_bytes_all(s) =~= h + (t + rest_all));
    assert((h + (t + rest_all)).skip(h.len() as int) =~= t + rest_all);
    assert((t + rest_all).take(t.len() as int) =~= t);
}

/// Two votes that agree on everything but their timestamps hash different
/// bytes, and their full byte encodings differ too.
pub proof fn law_vote_bytes_distinguish_timestamps(s1: BlockSignatureModel, s2: BlockSignatureModel)
    requires
        s1.timestamp != s2.timestamp,
        s1.block_hash == s2.block_hash,
        s1.signer_public_key == s2.signer_public_key,
        s1.nonce == s2.nonce,
    ensures
        vote_bytes(s1) != vote_bytes(s2),
        s1.hash == s2.hash && s1.signature == s2.signature ==> vote_bytes_all(s1) != vote_bytes_all(
            s2,
        ),
{
    law_decimal_injective(s1.timestamp as nat, s2.timestamp as nat);
    let q = encode_utf8(s1.block_hash) + encode_utf8(s1.signer_public_key) + decimal(
        s1.nonce as nat,
    );
    let e = Seq::<u8>::empty();
    lemma_middle_differs(e, decimal(s1.timestamp as nat), decimal(s2.timestamp as nat), q);
    assert(vote_bytes(s1) =~= e + decimal(s1.timestamp as nat) + q);
    assert(vote_bytes(s2) =~= e + decimal(s2.timestamp as nat) + q);
    if s1.hash == s2.hash && s1.signature == s2.signature {
        let q2 = q + encode_utf8(s1.signature);
        lemma_middle_differs(
            encode_utf8(s1.hash),
            decimal(s1.timestamp as nat),
            decimal(s2.timestamp as nat),
            q2,
        );
        assert(vote_bytes_all(s1) =~= encode_utf8(s1.hash) + decimal(s1.timestamp as nat) + q2);
        assert(vote_bytes_all(s2) =~= encode_utf8(s1.hash) + decimal(s2.timestamp as nat) + q2);
    }
}

/// Two votes that agree on everything but their nonces hash different bytes.
pub proof fn law_vote_bytes_distinguish_nonces(s1: BlockSignatureModel, s2: BlockSignatureModel)
    requires
        s1.nonce != s2.nonce,
        s1.timestamp == s2.timestamp,
        s1.block_hash == s2.block_hash,
        s1.signer_public_key == s2.signer_public_key,
    ensures
        vote_bytes(s1) != vote_bytes(s2),
{
    law_decimal_injective(s1.nonce as nat, s2.nonce as nat);
    let p = decimal(s1.timestamp as nat) + encode_utf8(s1.block_hash) + encode_utf8(
        s1.signer_public_key,
    );
    let e = Seq::<u8>::empty();
    lemma_middle_differs(p, decimal(s1.nonce as nat), decimal(s2.nonce as nat), e);
    assert(vote_bytes(s1) =~= p + decimal(s1.nonce as nat) + e);
    assert(vote_bytes(s2) =~= p + decimal(s2.nonce as nat) + e);
}

/// Two headers that agree on everything but their heights, or everything
/// but their timestamps, hash different bytes.
pub proof fn law_header_bytes_distinguish_height_and_timestamp(h1: HeaderModel, h2: HeaderModel)
    requires
        h1.version_major == h2.version_major,
        h1.version_breaking == h2.version_breaking,
        h1.version_minor == h2.version_minor,
        h1.chain_key == h2.chain_key,
        h1.prev_hash == h2.prev_hash,
        h1.height != h2.height || h1.timestamp != h2.timestamp,
        h1.height == h2.height || h1.timestamp == h2.timestamp,
    ensures
        header_bytes(h1) != header_bytes(h2),
{
    let p = decimal(h1.version_major as nat) + decimal(h1.version_breaking as nat) + decimal(
        h1.version_minor as nat,
    ) + encode_utf8(h1.chain_key) + encode_utf8(h1.prev_hash);
    if h1.height != h2.height {
        law_decimal_injective(h1.height as nat, h2.height as nat);
        let q = decimal(h1.timestamp as nat);
        lemma_middle_differs(p, decimal(h1.height as nat), decimal(h2.height as nat), q);
        assert(header_bytes(h1) =~= p + decimal(h1.height as nat) + q);
        assert(header_bytes(h2) =~= p + decimal(h2.height as nat) + q);
    } else {
        law_decimal_injective(h1.timestamp as nat, h2.timestamp as nat);
        let p2 = p + decimal(h1.height as nat);
        let e = Seq::<u8>::empty();
        lemma_middle_differs(p2, decimal(h1.timestamp as nat), decimal(h2.timestamp as nat), e);
        assert(header_bytes(h1) =~= p2 + decimal(h1.timestamp as nat) + e);
        assert(header_bytes(h2) =~= p2 + decimal(h2.timestamp as nat) + e);
    }
}

/// The block bytes begin with the header bytes, and adding a transaction to
/// a block appends exactly that transaction's hash bytes, however many
/// transactions the block already has.
pub proof fn law_block_bytes_cover_every_transaction(b: BlockModel, t: TransactionModel)
    ensures
        block_bytes(b).take(header_bytes(b.header).len() as int) == header_bytes(b.header),
        block_bytes(BlockModel { txns: b.txns.push(t), ..b }) == block_bytes(b) + encode_utf8(
            t.hash,
        ),
{
    let pushed = BlockModel { txns: b.txns.push(t), ..b };
    assert(pushed.txns.drop_last() =~= b.txns);
    assert(block_bytes(pushed) =~= block_bytes(b) + encode_utf8(t.hash));
    assert(block_bytes(b).take(header_bytes(b.header).len() as int) =~= header_bytes(b.header));
}

/// Validation checks every block's network and hash, whatever its height:
/// a block on another network is refused with `networkMissmatch`, a block on
/// the node's network whose hash is not the hex rendering of its digest is
/// refused with `invalidBlockhash`, and an accepted block passes both.
pub proof fn law_every_block_hash_is_checked(b: BlockModel, c: ContextModel)
    ensures
        b.header.network != c.network_id ==> block_verdict(b, c) == Err::<(), blockValidationErrors>(
            blockValidationErrors::networkMissmatch,
        ),
        b.header.network == c.network_id && b.hash != hex_lower(c.block_digest) ==> block_verdict(
            b,
            c,
        ) == Err::<(), blockValidationErrors>(blockValidationErrors::invalidBlockhash),
        block_verdict(b, c) is Ok ==> b.header.network == c.network_id && b.hash == hex_lower(
            c.block_digest,
        ),
{
}

/// A block above height 0 that is not in the checkpoint store is accepted
/// exactly when it has enough votes (if confirmed), every vote is valid, it
/// extends the stored chain, its account exists, its signature verifies
/// under its chain key over the UTF-8 bytes of its hash, its timestamp lies
/// in the window and its first transaction (if any) is valid, besides being
/// on the node's network with the hash of its digest.
pub proof fn law_chain_block_acceptance(b: BlockModel, c: ContextModel)
    requires
        context_fits(b, c),
        c.checkpoint == "-1"@,
        b.header.height != 0,
    ensures
        block_verdict(b, c) is Ok <==> {
            &&& b.header.network == c.network_id
            &&& b.hash == hex_lower(c.block_digest)
            &&& !(b.confimed && 3 * b.node_signatures.len() < 2 * c.commitee_size)
            &&& forall|i: int|
                0 <= i < b.node_signatures.len() ==> vote_valid(
                    #[trigger] b.node_signatures[i],
                    c.signature_records[i].certificate,
                    c.signature_records[i].sigcount,
                    c.signature_records[i].digest,
                    c.now,
                    c.timestamp_max_offset,
                )
            &&& b.header.prev_hash == c.previous_block_hash
            &&& c.account_exists
            &&& ed25519_verify(
                hex_or_placeholder(b.header.chain_key),
                encode_utf8(b.hash),
                hex_or_placeholder(b.signature),
            )
            &&& !(b.header.timestamp - c.timestamp_max_offset < c.now || b.header.timestamp
                + c.timestamp_max_offset < c.now)
            &&& b.txns.len() > 0 ==> c.transaction_validity[0]
        },
{
    let n = b.node_signatures.len() as int;
    if votes_valid_upto(b, c, n) {
        assert forall|i: int| 0 <= i < n implies vote_valid(
            #[trigger] b.node_signatures[i],
            c.signature_records[i].certificate,
            c.signature_records[i].sigcount,
            c.signature_records[i].digest,
            c.now,
            c.timestamp_max_offset,
        ) by {
            assert(vote_valid_at(b, c, i));
        }
    }
    if forall|i: int|
        0 <= i < n ==> vote_valid(
            #[trigger] b.node_signatures[i],
            c.signature_records[i].certificate,
            c.signature_records[i].sigcount,
            c.signature_records[i].digest,
            c.now,
            c.timestamp_max_offset,
        ) {
        assert forall|i: int| 0 <= i < n implies #[trigger] vote_valid_at(b, c, i) by {
            assert(vote_valid(
                b.node_signatures[i],
                c.signature_records[i].certificate,
                c.signature_records[i].sigcount,
                c.signature_records[i].digest,
                c.now,
                c.timestamp_max_offset,
            ));
        }
        assert(votes_valid_upto(b, c, n));
    }
}

/// A genesis block (height 0) that is not in the checkpoint store is
/// accepted exactly when, besides being on the node's network with the hash
/// of its digest, it is the genesis block stored for its chain (or the
/// stored one is empty), or, where none is stored, it starts a new chain:
/// previous hash `"00000000000"`, no account yet, a signature that verifies
/// under its chain key, not stored yet, and a timestamp in the window.
pub proof fn law_genesis_block_acceptance(b: BlockModel, c: ContextModel)
    requires
        c.checkpoint == "-1"@,
        b.header.height == 0,
    ensures
        block_verdict(b, c) is Ok <==> {
            &&& b.header.network == c.network_id
            &&& b.hash == hex_lower(c.block_digest)
            &&& match c.genesis {
                GenesisLookupModel::Failed => false,
                GenesisLookupModel::Found(g) => b == g || g == empty_block(),
                GenesisLookupModel::NotFound => {
                    &&& b.header.prev_hash == "00000000000"@
                    &&& !c.account_exists
                    &&& ed25519_verify(
                        hex_or_placeholder(b.header.chain_key),
                        encode_utf8(b.hash),
                        hex_or_placeholder(b.signature),
                    )
                    &&& c.stored_block == empty_block()
                    &&& !(b.header.timestamp - c.timestamp_max_offset < c.now || b.header.timestamp
                        + c.timestamp_max_offset < c.now)
                },
            }
        },
{
}

/// A vote is valid exactly when the signer has a certificate entry, the
/// vote's stored hash is the lower-case hex rendering of its digest, the
/// recorded signature count is the decimal rendering of its nonce, its
/// timestamp lies in the window and its signature verifies under the
/// signer's key over the UTF-8 bytes of its hash text.
pub proof fn law_vote_validity(
    s: BlockSignatureModel,
    certificate: Seq<char>,
    sigcount: Seq<char>,
    digest: Seq<u8>,
    now: u64,
    max_offset: u64,
)
    ensures
        vote_valid(s, certificate, sigcount, digest, now, max_offset) <==> {
            &&& certificate != "-1"@
            &&& s.hash == hex_lower(digest)
            &&& encode_utf8(sigcount) == decimal(s.nonce as nat)
            &&& !(s.timestamp - max_offset < now || s.timestamp + max_offset < now)
            &&& ed25519_verify(
                hex_or_placeholder(s.signer_public_key),
                encode_utf8(s.hash),
                hex_or_placeholder(s.signature),
            )
        },
        vote_valid(s, certificate, sigcount, digest, now, max_offset) ==> s.hash == hex_lower(
            digest,
        ),
{
}

/// Votes and blocks are signed and checked alike: the message is the UTF-8
/// bytes of the hash text. A vote and a block with the same hash get the
/// same signature from the same key, and a vote checks exactly as a block
/// with the same hash, key and signature texts does.
pub proof fn law_votes_and_blocks_sign_alike(
    s: BlockSignatureModel,
    b: BlockModel,
    private_key: Seq<char>,
)
    ensures
        vote_signed(s, private_key).signature == hex_lower(
            ed25519_sign(private_key_document(private_key), encode_utf8(s.hash)),
        ),
        s.hash == b.hash ==> vote_signed(s, private_key).signature == block_signed(
            b,
            private_key,
        ).signature,
        vote_signature_ok(s) == ed25519_verify(
            hex_or_placeholder(s.signer_public_key),
            encode_utf8(s.hash),
            hex_or_placeholder(s.signature),
        ),
        s.hash == b.hash && s.signer_public_key == b.header.chain_key && s.signature == b.signature
            ==> vote_signature_ok(s) == block_signature_ok(b),
{
}

/// A block is signed and checked over the UTF-8 bytes of its hash text:
/// its signature becomes the hex of the Ed25519 signature of those bytes, and
/// the check verifies the decoded signature under the decoded chain key.
pub proof fn law_block_signature_message(b: BlockModel, private_key: Seq<char>)
    ensures
        block_signed(b, private_key).signature == hex_lower(
            ed25519_sign(private_key_document(private_key), encode_utf8(b.hash)),
        ),
        block_signature_ok(b) == ed25519_verify(
            hex_or_placeholder(b.header.chain_key),
            encode_utf8(b.hash),
            hex_or_placeholder(b.signature),
        ),
{
}

/// The header bytes begin with the decimal rendering of the major version
/// and end with that of the timestamp.
pub proof fn law_header_bytes_frame(h: HeaderModel)
    ensures
        header_bytes(h).take(decimal(h.version_major as nat).len() as int) == decimal(
            h.version_major as nat,
        ),
        header_bytes(h).skip(header_bytes(h).len() - decimal(h.timestamp as nat).len()) == decimal(
            h.timestamp as nat,
        ),
{
    let a = decimal(h.version_major as nat);
    let rest = decimal(h.version_breaking as nat) + decimal(h.version_minor as nat) + encode_utf8(
        h.chain_key,
    ) + encode_utf8(h.prev_hash) + decimal(h.height as nat) + decimal(h.timestamp as nat);
    assert(header_bytes(h) =~= a + rest);
    assert((a + rest).take(a.len() as int) =~= a);
    let front = decimal(h.version_major as nat) + decimal(h.version_breaking as nat) + decimal(
        h.version_minor as nat,
    ) + encode_utf8(h.chain_key) + encode_utf8(h.prev_hash) + decimal(h.height as nat);
    let t = decimal(h.timestamp as nat);
    assert(header_bytes(h) =~= front + t);
    assert((front + t).skip(front.len() as int) =~= t);
}

/// Blocks, headers, transactions and votes with equal abstract values agree
/// in every field, so equality (`isOtherBlock`, `equals`) compares them all.
pub proof fn law_models_keep_every_field(
    b1: Block,
    b2: Block,
    h1: Header,
    h2: Header,
    t1: Transaction,
    t2: Transaction,
    s1: BlockSignature,
    s2: BlockSignature,
)
    ensures
        h1@ == h2@ ==> h1.version_major == h2.version_major && h1.version_breaking
            == h2.version_breaking && h1.version_minor == h2.version_minor && h1.chain_key@
            == h2.chain_key@ && h1.prev_hash@ == h2.prev_hash@ && h1.height == h2.height
            && h1.timestamp == h2.timestamp && h1.network@ == h2.network@,
        t1@ == t2@ ==> t1.hash@ == t2.hash@ && t1.amount == t2.amount && t1.extra@ == t2.extra@
            && t1.flag == t2.flag && t1.sender_key@ == t2.sender_key@ && t1.receive_key@
            == t2.receive_key@ && t1.access_key@ == t2.access_key@ && t1.gas_price == t2.gas_price
            && t1.max_gas == t2.max_gas && t1.gas == t2.gas && t1.nonce == t2.nonce
            && t1.signature@ == t2.signature@ && t1.timestamp == t2.timestamp && t1.unlock_time
            == t2.unlock_time,
        s1@ == s2@ ==> s1.hash@ == s2.hash@ && s1.timestamp == s2.timestamp && s1.block_hash@
            == s2.block_hash@ && s1.signer_public_key@ == s2.signer_public_key@ && s1.signature@
            == s2.signature@ && s1.nonce == s2.nonce,
        b1@ == b2@ ==> b1.header@ == b2.header@ && b1.hash@ == b2.hash@ && b1.signature@
            == b2.signature@ && b1.confimed == b2.confimed && b1.txns@.len() == b2.txns@.len()
            && (forall|i: int| 0 <= i < b1.txns@.len() ==> #[trigger] b1.txns@[i]@ == b2.txns@[i]@)
            && b1.node_signatures@.len() == b2.node_signatures@.len() && (forall|i: int|
            0 <= i < b1.node_signatures@.len() ==> #[trigger] b1.node_signatures@[i]@
                == b2.node_signatures@[i]@),
{
    if b1@ == b2@ {
        assert(b1@.txns.len() == b2@.txns.len());
        assert forall|i: int| 0 <= i < b1.txns@.len() implies #[trigger] b1.txns@[i]@
            == b2.txns@[i]@ by {
            assert(b1@.txns[i] == b2@.txns[i]);
        }
        assert(b1@.node_signatures.len() == b2@.node_signatures.len());
        assert forall|i: int| 0 <= i < b1.node_signatures@.len() implies #[trigger] b1.node_signatures@[i]@
            == b2.node_signatures@[i]@ by {
            assert(b1@.node_signatures[i] == b2@.node_signatures[i]);
        }
    }
}

} // verus!
