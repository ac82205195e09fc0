//! Content hashes and derived identifiers, computed by the ledger's and the
//! registry's own libraries, and the byte encodings that feed them.

use vstd::prelude::*;
use crate::accounts::AccountView;
use crate::errors::ErrorCode;

verus! {

/// Keccak-256 of a list of byte strings, as the ledger's library computes it.
pub uninterp spec fn keccak_hashv(vals: Seq<Seq<u8>>) -> Seq<u8>;

/// The identifier the registry gives to the asset minted as number `nonce` of
/// the tree at `tree`.
pub uninterp spec fn asset_id_of(tree: Seq<u8>, nonce: u64) -> Seq<u8>;

/// A creator as the registry records one.
#[derive(Clone, Copy, Debug, PartialEq, Eq)]
pub struct Creator {
    /// Where the creator's royalty is paid.
    pub address: [u8; 32],
    /// Whether the creator has confirmed the asset.
    pub verified: bool,
    /// Percentage of the royalty, out of 100.
    pub share: u8,
}

/// The bytes that stand for one creator: address, verified flag, share.
pub open spec fn creator_row(creator: Creator) -> Seq<u8> {
    creator.address@ + seq![if creator.verified { 1u8 } else { 0u8 }] + seq![creator.share]
}

/// The rows of a creator list, in order.
pub open spec fn creator_rows(creators: Seq<Creator>) -> Seq<Seq<u8>> {
    Seq::new(creators.len(), |i: int| creator_row(creators[i]))
}

/// The hash that binds a creator list to an asset.
pub open spec fn creators_hash_spec(creators: Seq<Creator>) -> Seq<u8> {
    keccak_hashv(creator_rows(creators))
}

/// The `width` low-order bytes of `value`, least significant first.
pub open spec fn le_bytes(value: nat, width: nat) -> Seq<u8>
    decreases width,
{
    if width == 0 {
        Seq::empty()
    } else {
        seq![(value % 256) as u8] + le_bytes(value / 256, (width - 1) as nat)
    }
}

/// The hash the registry expects for an asset whose metadata hashes to
/// `metadata_hash` and whose royalty rate is `seller_fee_basis_points`.
pub open spec fn data_hash_spec(metadata_hash: Seq<u8>, seller_fee_basis_points: u16) -> Seq<u8> {
    keccak_hashv(seq![metadata_hash, le_bytes(seller_fee_basis_points as nat, 2)])
}

/// The contents of a list of byte vectors.
pub open spec fn byte_strings(vals: Seq<Vec<u8>>) -> Seq<Seq<u8>> {
    Seq::new(vals.len(), |i: int| vals[i]@)
}

/// Calls `solana_program::keccak::hashv` on the given byte strings. Believed:
/// the digest is a function of the byte strings and their order alone.
#[verifier::external_body]
fn keccak_of(vals: &Vec<Vec<u8>>) -> (digest: [u8; 32])
    ensures
        digest@ == keccak_hashv(byte_strings(vals@)),
{
    let slices: Vec<&[u8]> = vals.iter().map(|v| v.as_slice()).collect();
    solana_program::keccak::hashv(&slices).to_bytes()
}

/// Calls `mpl_bubblegum::hash::hash_creators`. Believed: the digest is the
/// Keccak-256 of the creators' rows, one byte string per creator, each made of
/// the address, the verified flag as one byte and the share.
#[verifier::external_body]
fn creators_digest(creators: &Vec<Creator>) -> (digest: [u8; 32])
    ensures
        digest@ == creators_hash_spec(creators@),
{
    let outside: Vec<mpl_bubblegum::types::Creator> = creators.iter().map(
        |c| mpl_bubblegum::types::Creator {
            address: solana_program::pubkey::Pubkey::new_from_array(c.address),
            verified: c.verified,
            share: c.share,
        },
    ).collect();
    mpl_bubblegum::hash::hash_creators(&outside)
}

/// Calls `mpl_bubblegum::utils::get_asset_id`. Believed: the identifier is a
/// function of the tree's address and the nonce alone. The derivation tries
/// 255 candidate addresses and gives up only if none of them is usable.
#[verifier::external_body]
pub(crate) fn derive_asset_id(tree: &[u8; 32], nonce: u64) -> (id: [u8; 32])
    ensures
        id@ == asset_id_of(tree@, nonce),
{
    let tree_key = solana_program::pubkey::Pubkey::new_from_array(*tree);
    mpl_bubblegum::utils::get_asset_id(&tree_key, nonce).to_bytes()
}

/// The bytes of a key, as a vector.
pub fn key_bytes(key: &[u8; 32]) -> (bytes: Vec<u8>)
    ensures
        bytes@ == key@,
{
    let mut bytes: Vec<u8> = Vec::new();
    let mut i: usize = 0;
    while i < 32
        invariant
            0 <= i <= 32,
            bytes@ == key@.subrange(0, i as int),
        decreases 32 - i,
    {
        bytes.push(key[i]);
        proof {
            assert(bytes@ =~= key@.subrange(0, i + 1));
        }
        i += 1;
    }
    proof {
        assert(bytes@ =~= key@);
    }
    bytes
}

/// The two bytes of `value`, least significant first.
pub fn u16_le_bytes(value: u16) -> (bytes: Vec<u8>)
    ensures
        bytes@ == le_bytes(value as nat, 2),
{
    let mut bytes: Vec<u8> = Vec::new();
    bytes.push((value % 256) as u8);
    bytes.push((value / 256) as u8);
    proof {
        reveal_with_fuel(le_bytes, 3);
        assert(bytes@ =~= le_bytes(value as nat, 2));
    }
    bytes
}

/// Binds the royalty rate into the metadata hash: the value the registry will
/// check the asset's leaf against.
pub fn hash_metadata_data(metadata_args_hash: [u8; 32], seller_fee_basis_points: u16) -> (out:
    Result<[u8; 32], ErrorCode>)
    ensures
        out is Ok,
        out->Ok_0@ == data_hash_spec(metadata_args_hash@, seller_fee_basis_points),
{
    let mut parts: Vec<Vec<u8>> = Vec::new();
    parts.push(key_bytes(&metadata_args_hash));
    parts.push(u16_le_bytes(seller_fee_basis_points));
    proof {
        assert(byte_strings(parts@) =~= seq![
            metadata_args_hash@,
            le_bytes(seller_fee_basis_points as nat, 2),
        ]);
    }
    Ok(keccak_of(&parts))
}

/// The creator list that the given accounts, shares and flags describe: entry
/// `i` has the address of account `i`, flag `i`, and share `i` cut to its low
/// eight bits.
pub open spec fn canonical_creators(
    accounts: Seq<AccountView>,
    shares: Seq<u16>,
    verified: Seq<bool>,
) -> Seq<Creator> {
    Seq::new(
        accounts.len(),
        |i: int|
            Creator {
                address: accounts[i].key,
                verified: verified[i],
                share: (shares[i] % 256) as u8,
            },
    )
}

/// Whether the supplied creator data is what `creator_hash` was computed from.
pub open spec fn verify_creators_spec(
    accounts: Seq<AccountView>,
    shares: Seq<u16>,
    verified: Seq<bool>,
    creator_hash: [u8; 32],
) -> Result<(), ErrorCode> {
    if accounts.len() != shares.len() || accounts.len() != verified.len() {
        Err(ErrorCode::MismatchedCreatorDataLengths)
    } else if creators_hash_spec(canonical_creators(accounts, shares, verified))
        != creator_hash@ {
        Err(ErrorCode::InvalidCreators)
    } else {
        Ok(())
    }
}

/// Builds the canonical creator list from equally long inputs.
pub fn build_creators(
    creator_accounts: &[AccountView],
    creator_shares: &Vec<u16>,
    creator_verified: &Vec<bool>,
) -> (creators: Vec<Creator>)
    requires
        creator_accounts@.len() == creator_shares@.len(),
        creator_accounts@.len() == creator_verified@.len(),
    ensures
        creators@ == canonical_creators(creator_accounts@, creator_shares@, creator_verified@),
{
    let mut creators: Vec<Creator> = Vec::new();
    let mut i: usize = 0;
    while i < creator_accounts.len()
        invariant
            0 <= i <= creator_accounts@.len(),
            creator_accounts@.len() == creator_shares@.len(),
            creator_accounts@.len() == creator_verified@.len(),
            creators@.len() == i,
            forall|j: int|
                0 <= j < i ==> creators@[j] == canonical_creators(
                    creator_accounts@,
                    creator_shares@,
                    creator_verified@,
                )[j],
        decreases creator_accounts@.len() - i,
    {
        creators.push(
            Creator {
                address: creator_accounts[i].key,
                verified: creator_verified[i],
                share: (creator_shares[i] % 256) as u8,
            },
        );
        i += 1;
    }
    proof {
        assert(creators@ =~= canonical_creators(
            creator_accounts@,
            creator_shares@,
            creator_verified@,
        ));
    }
    creators
}

/// Accepts a computed creator hash exactly when it is the supplied one.
pub fn check_creator_hash(computed_hash: &[u8; 32], creator_hash: &[u8; 32]) -> (out: Result<
    (),
    ErrorCode,
>)
    ensures
        computed_hash@ == creator_hash@ ==> out == Ok::<(), ErrorCode>(()),
        computed_hash@ != creator_hash@ ==> out == Err::<(), ErrorCode>(
            ErrorCode::InvalidCreators,
        ),
{
    proof {
        crate::accounts::lemma_key_by_bytes(*computed_hash, *creator_hash);
    }
    if crate::accounts::keys_equal(computed_hash, creator_hash) {
        Ok(())
    } else {
        Err(ErrorCode::InvalidCreators)
    }
}

/// Checks the supplied creator data against the creator hash on record.
pub fn verify_creators(
    creator_accounts: &[AccountView],
    creator_shares: Vec<u16>,
    creator_verified: Vec<bool>,
    creator_hash: [u8; 32],
) -> (out: Result<(), ErrorCode>)
    ensures
        out == verify_creators_spec(
            creator_accounts@,
            creator_shares@,
            creator_verified@,
            creator_hash,
        ),
{
    if creator_accounts.len() != creator_shares.len() || creator_accounts.len()
        != creator_verified.len() {
        return Err(ErrorCode::MismatchedCreatorDataLengths);
    }
    let creators = build_creators(creator_accounts, &creator_shares, &creator_verified);
    let computed_hash = creators_digest(&creators);
    check_creator_hash(&computed_hash, &creator_hash)
}

/// Changing a creator's address or verified flag changes what is hashed.
pub proof fn lemma_tampering_changes_rows(genuine: Seq<Creator>, tampered: Seq<Creator>, i: int)
    requires
        0 <= i < genuine.len(),
        genuine.len() == tampered.len(),
        genuine[i].address != tampered[i].address || genuine[i].verified
            != tampered[i].verified,
    ensures
        creator_rows(genuine) != creator_rows(tampered),
{
    let a = genuine[i];
    let b = tampered[i];
    crate::accounts::lemma_key_by_bytes(a.address, b.address);
    assert(creator_rows(genuine)[i] == creator_row(a));
    assert(creator_rows(tampered)[i] == creator_row(b));
    if a.address != b.address {
        assert(a.address@ != b.address@);
        assert(creator_row(a).subrange(0, 32) =~= a.address@);
        assert(creator_row(b).subrange(0, 32) =~= b.address@);
    } else {
        assert(creator_row(a)[32] != creator_row(b)[32]);
    }
}

/// Creator data whose hash is not the supplied one is rejected with
/// `InvalidCreators`, and creator data whose hash is the supplied one is
/// accepted.
pub proof fn lemma_creator_hash_decides(
    accounts: Seq<AccountView>,
    shares: Seq<u16>,
    verified: Seq<bool>,
    creator_hash: [u8; 32],
)
    requires
        accounts.len() == shares.len(),
        accounts.len() == verified.len(),
    ensures
        creators_hash_spec(canonical_creators(accounts, shares, verified)) != creator_hash@
            <==> verify_creators_spec(accounts, shares, verified, creator_hash) == Err::<
            (),
            ErrorCode,
        >(ErrorCode::InvalidCreators),
        creators_hash_spec(canonical_creators(accounts, shares, verified)) == creator_hash@
            <==> verify_creators_spec(accounts, shares, verified, creator_hash) is Ok,
{
}

} // verus!
