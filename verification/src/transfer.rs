//! Custody transfer: the one call to the asset registry that hands a leaf of a
//! tree from its owner to a new owner.

use vstd::prelude::*;
use crate::accounts::{AccountMeta, AccountView};
use crate::hashing::{byte_strings, le_bytes};

verus! {

/// Tag by which the registry recognises a leaf transfer.
pub const TRANSFER_DISCRIMINATOR: [u8; 8] = [163, 52, 200, 231, 140, 3, 69, 186];

/// Number of accounts that every leaf transfer names before the proof path.
pub const FIXED_ACCOUNTS: usize = 8;

/// A call to the registry, ready to be issued.
#[derive(Clone, Debug, PartialEq, Eq)]
pub struct RegistryCall {
    /// The registry program.
    pub program_id: [u8; 32],
    /// The accounts the registry is told about, with their permissions.
    pub accounts: Vec<AccountMeta>,
    /// Operation tag and payload.
    pub data: Vec<u8>,
    /// The accounts handed along with the call, in the order of `accounts`.
    pub account_infos: Vec<[u8; 32]>,
    /// The seeds under which the caller signs as its derived identity, if it
    /// does; otherwise a signature already on the transaction is relied on.
    pub signer_seeds: Option<Vec<Vec<u8>>>,
}

/// The mathematical content of a `RegistryCall`.
pub struct RegistryCallView {
    pub program_id: [u8; 32],
    pub accounts: Seq<AccountMeta>,
    pub data: Seq<u8>,
    pub account_infos: Seq<[u8; 32]>,
    pub signer_seeds: Option<Seq<Seq<u8>>>,
}

impl View for RegistryCall {
    type V = RegistryCallView;

    open spec fn view(&self) -> RegistryCallView {
        RegistryCallView {
            program_id: self.program_id,
            accounts: self.accounts@,
            data: self.data@,
            account_infos: self.account_infos@,
            signer_seeds: match self.signer_seeds {
                Some(seeds) => Some(byte_strings(seeds@)),
                None => None,
            },
        }
    }
}

/// The seeds of the escrow identity under `bump`: the namespace label, the
/// escrow label, and the bump as one byte.
pub open spec fn signer_seeds_spec(bump: u8) -> Seq<Seq<u8>> {
    seq![seq![109u8, 51u8], seq![115u8, 105u8, 103u8, 110u8, 101u8, 114u8], seq![bump]]
}

/// The seeds under which the program signs as its escrow identity.
pub fn program_signer_seeds(bump: u8) -> (seeds: Vec<Vec<u8>>)
    ensures
        byte_strings(seeds@) == signer_seeds_spec(bump),
{
    let mut prefix: Vec<u8> = Vec::new();
    prefix.push(109);
    prefix.push(51);
    let mut signer: Vec<u8> = Vec::new();
    signer.push(115);
    signer.push(105);
    signer.push(103);
    signer.push(110);
    signer.push(101);
    signer.push(114);
    let mut last: Vec<u8> = Vec::new();
    last.push(bump);
    let mut seeds: Vec<Vec<u8>> = Vec::new();
    seeds.push(prefix);
    seeds.push(signer);
    seeds.push(last);
    proof {
        assert(seeds@[0]@ =~= seq![109u8, 51u8]);
        assert(seeds@[1]@ =~= seq![115u8, 105u8, 103u8, 110u8, 101u8, 114u8]);
        assert(seeds@[2]@ =~= seq![bump]);
        assert(byte_strings(seeds@) =~= signer_seeds_spec(bump));
    }
    seeds
}

/// An account the registry may only read.
pub open spec fn readonly(key: [u8; 32], is_signer: bool) -> AccountMeta {
    AccountMeta { pubkey: key, is_signer, is_writable: false }
}

/// An account the registry may write.
pub open spec fn writable(key: [u8; 32], is_signer: bool) -> AccountMeta {
    AccountMeta { pubkey: key, is_signer, is_writable: true }
}

/// The addresses a leaf transfer involves: the eight fixed ones in their
/// order, then the proof path.
pub open spec fn transfer_keys(
    tree_authority: [u8; 32],
    leaf_owner: [u8; 32],
    leaf_delegate: [u8; 32],
    new_leaf_owner: [u8; 32],
    merkle_tree: [u8; 32],
    log_wrapper: [u8; 32],
    compression_program: [u8; 32],
    system_program: [u8; 32],
    proof_path: Seq<AccountView>,
) -> Seq<[u8; 32]> {
    seq![
        tree_authority,
        leaf_owner,
        leaf_delegate,
        new_leaf_owner,
        merkle_tree,
        log_wrapper,
        compression_program,
        system_program,
    ] + Seq::new(proof_path.len(), |i: int| proof_path[i].key)
}

/// The permissions of a leaf transfer's accounts: only the owner signs, only
/// the tree is written.
pub open spec fn transfer_metas(keys: Seq<[u8; 32]>) -> Seq<AccountMeta> {
    Seq::new(
        keys.len(),
        |i: int|
            if i == 4 {
                writable(keys[i], false)
            } else {
                readonly(keys[i], i == 1)
            },
    )
}

/// The bytes of a leaf transfer: the tag, the three hashes, the nonce in
/// eight bytes and the index in four, least significant byte first.
pub open spec fn transfer_data(
    root: [u8; 32],
    data_hash: [u8; 32],
    creator_hash: [u8; 32],
    nonce: u64,
    index: u32,
) -> Seq<u8> {
    TRANSFER_DISCRIMINATOR@ + root@ + data_hash@ + creator_hash@ + le_bytes(nonce as nat, 8)
        + le_bytes(index as nat, 4)
}

/// Appends `bytes` to `out`.
pub fn push_bytes(out: &mut Vec<u8>, bytes: &[u8])
    ensures
        final(out)@ == old(out)@ + bytes@,
{
    let ghost start = out@;
    let mut i: usize = 0;
    while i < bytes.len()
        invariant
            0 <= i <= bytes@.len(),
            out@ == start + bytes@.subrange(0, i as int),
        decreases bytes@.len() - i,
    {
        out.push(bytes[i]);
        proof {
            assert(out@ =~= start + bytes@.subrange(0, i + 1));
        }
        i += 1;
    }
    proof {
        assert(bytes@.subrange(0, bytes@.len() as int) =~= bytes@);
    }
}

/// Appends the `width` low-order bytes of `value`, least significant first.
pub fn push_le_bytes(out: &mut Vec<u8>, value: u64, width: usize)
    ensures
        final(out)@ == old(out)@ + le_bytes(value as nat, width as nat),
{
    let ghost start = out@;
    let mut rest: u64 = value;
    let mut i: usize = 0;
    while i < width
        invariant
            0 <= i <= width,
            out@ + le_bytes(rest as nat, (width - i) as nat) == start + le_bytes(
                value as nat,
                width as nat,
            ),
        decreases width - i,
    {
        let ghost before = out@;
        out.push((rest % 256) as u8);
        proof {
            assert(before + le_bytes(rest as nat, (width - i) as nat) =~= out@ + le_bytes(
                (rest / 256) as nat,
                (width - i - 1) as nat,
            ));
        }
        rest = rest / 256;
        i += 1;
    }
    proof {
        assert(out@ + le_bytes(rest as nat, 0) =~= out@);
    }
}

/// Builds the call that asks the registry to hand a leaf to a new owner.
///
/// Nothing about the asset is checked here: the registry rejects a wrong
/// proof. With signer seeds the call is made under the caller's derived
/// identity; without, a signature already on the transaction is relied on.
pub fn transfer_compressed_nft(
    tree_authority: &AccountView,
    leaf_owner: &AccountView,
    leaf_delegate: &AccountView,
    new_leaf_owner: &AccountView,
    merkle_tree: &AccountView,
    log_wrapper: &AccountView,
    compression_program: &AccountView,
    system_program: &AccountView,
    proof_path: &[AccountView],
    bubblegum_program_key: [u8; 32],
    root: [u8; 32],
    data_hash: [u8; 32],
    creator_hash: [u8; 32],
    nonce: u64,
    index: u32,
    signer_seeds: Option<Vec<Vec<u8>>>,
) -> (call: RegistryCall)
    ensures
        call@ == transfer_call_spec(
            tree_authority.key,
            leaf_owner.key,
            leaf_delegate.key,
            new_leaf_owner.key,
            merkle_tree.key,
            log_wrapper.key,
            compression_program.key,
            system_program.key,
            proof_path@,
            bubblegum_program_key,
            root,
            data_hash,
            creator_hash,
            nonce,
            index,
            match signer_seeds {
                Some(seeds) => Some(byte_strings(seeds@)),
                None => None,
            },
        ),
{
    let ghost keys = transfer_keys(
        tree_authority.key,
        leaf_owner.key,
        leaf_delegate.key,
        new_leaf_owner.key,
        merkle_tree.key,
        log_wrapper.key,
        compression_program.key,
        system_program.key,
        proof_path@,
    );
    let mut accounts: Vec<AccountMeta> = Vec::new();
    accounts.push(AccountMeta { pubkey: tree_authority.key, is_signer: false, is_writable: false });
    accounts.push(AccountMeta { pubkey: leaf_owner.key, is_signer: true, is_writable: false });
    accounts.push(AccountMeta { pubkey: leaf_delegate.key, is_signer: false, is_writable: false });
    accounts.push(
        AccountMeta { pubkey: new_leaf_owner.key, is_signer: false, is_writable: false },
    );
    accounts.push(AccountMeta { pubkey: merkle_tree.key, is_signer: false, is_writable: true });
    accounts.push(AccountMeta { pubkey: log_wrapper.key, is_signer: false, is_writable: false });
    accounts.push(
        AccountMeta { pubkey: compression_program.key, is_signer: false, is_writable: false },
    );
    accounts.push(AccountMeta { pubkey: system_program.key, is_signer: false, is_writable: false });

    let mut data: Vec<u8> = Vec::new();
    push_bytes(&mut data, TRANSFER_DISCRIMINATOR.as_slice());
    push_bytes(&mut data, root.as_slice());
    push_bytes(&mut data, data_hash.as_slice());
    push_bytes(&mut data, creator_hash.as_slice());
    push_le_bytes(&mut data, nonce, 8);
    push_le_bytes(&mut data, index as u64, 4);

    let mut account_infos: Vec<[u8; 32]> = Vec::new();
    account_infos.push(tree_authority.key);
    account_infos.push(leaf_owner.key);
    account_infos.push(leaf_delegate.key);
    account_infos.push(new_leaf_owner.key);
    account_infos.push(merkle_tree.key);
    account_infos.push(log_wrapper.key);
    account_infos.push(compression_program.key);
    account_infos.push(system_program.key);

    let mut i: usize = 0;
    while i < proof_path.len()
        invariant
            0 <= i <= proof_path@.len(),
            keys == transfer_keys(
                tree_authority.key,
                leaf_owner.key,
                leaf_delegate.key,
                new_leaf_owner.key,
                merkle_tree.key,
                log_wrapper.key,
                compression_program.key,
                system_program.key,
                proof_path@,
            ),
            account_infos@ == keys.subrange(0, 8 + i),
            accounts@ == transfer_metas(keys).subrange(0, 8 + i),
        decreases proof_path@.len() - i,
    {
        let key = proof_path[i].key;
        accounts.push(AccountMeta { pubkey: key, is_signer: false, is_writable: false });
        account_infos.push(key);
        proof {
            assert(account_infos@ =~= keys.subrange(0, 8 + i + 1));
            assert(accounts@ =~= transfer_metas(keys).subrange(0, 8 + i + 1));
        }
        i += 1;
    }
    proof {
        assert(account_infos@ =~= keys);
        assert(accounts@ =~= transfer_metas(keys));
    }
    RegistryCall { program_id: bubblegum_program_key, accounts, data, account_infos, signer_seeds }
}

/// The call that hands a leaf to a new owner.
pub open spec fn transfer_call_spec(
    tree_authority: [u8; 32],
    leaf_owner: [u8; 32],
    leaf_delegate: [u8; 32],
    new_leaf_owner: [u8; 32],
    merkle_tree: [u8; 32],
    log_wrapper: [u8; 32],
    compression_program: [u8; 32],
    system_program: [u8; 32],
    proof_path: Seq<AccountView>,
    bubblegum_program_key: [u8; 32],
    root: [u8; 32],
    data_hash: [u8; 32],
    creator_hash: [u8; 32],
    nonce: u64,
    index: u32,
    signer_seeds: Option<Seq<Seq<u8>>>,
) -> RegistryCallView {
    let keys = transfer_keys(
        tree_authority,
        leaf_owner,
        leaf_delegate,
        new_leaf_owner,
        merkle_tree,
        log_wrapper,
        compression_program,
        system_program,
        proof_path,
    );
    RegistryCallView {
        program_id: bubblegum_program_key,
        accounts: transfer_metas(keys),
        data: transfer_data(root, data_hash, creator_hash, nonce, index),
        account_infos: keys,
        signer_seeds,
    }
}

/// The shape of a leaf transfer: eight fixed accounts and then the proof
/// path, each handed along under its own address; the owner the only signer
/// and the tree the only account written; and a payload of 116 bytes with
/// each part at its place.
pub proof fn lemma_transfer_call_shape(
    tree_authority: [u8; 32],
    leaf_owner: [u8; 32],
    leaf_delegate: [u8; 32],
    new_leaf_owner: [u8; 32],
    merkle_tree: [u8; 32],
    log_wrapper: [u8; 32],
    compression_program: [u8; 32],
    system_program: [u8; 32],
    proof_path: Seq<AccountView>,
    bubblegum_program_key: [u8; 32],
    root: [u8; 32],
    data_hash: [u8; 32],
    creator_hash: [u8; 32],
    nonce: u64,
    index: u32,
    signer_seeds: Option<Seq<Seq<u8>>>,
)
    ensures
        ({
            let call = transfer_call_spec(
                tree_authority,
                leaf_owner,
                leaf_delegate,
                new_leaf_owner,
                merkle_tree,
                log_wrapper,
                compression_program,
                system_program,
                proof_path,
                bubblegum_program_key,
                root,
                data_hash,
                creator_hash,
                nonce,
                index,
                signer_seeds,
            );
            &&& call.accounts.len() == FIXED_ACCOUNTS + proof_path.len()
            &&& call.account_infos.len() == call.accounts.len()
            &&& forall|i: int|
                0 <= i < call.accounts.len() ==> {
                    &&& (#[trigger] call.accounts[i]).pubkey == call.account_infos[i]
                    &&& call.accounts[i].is_signer == (i == 1)
                    &&& call.accounts[i].is_writable == (i == 4)
                }
            &&& call.account_infos[0] == tree_authority
            &&& call.account_infos[1] == leaf_owner
            &&& call.account_infos[2] == leaf_delegate
            &&& call.account_infos[3] == new_leaf_owner
            &&& call.account_infos[4] == merkle_tree
            &&& call.account_infos[5] == log_wrapper
            &&& call.account_infos[6] == compression_program
            &&& call.account_infos[7] == system_program
            &&& forall|i: int|
                0 <= i < proof_path.len() ==> call.account_infos[FIXED_ACCOUNTS + i]
                    == (#[trigger] proof_path[i]).key
            &&& call.data.len() == 116
            &&& call.data.subrange(0, 8) == TRANSFER_DISCRIMINATOR@
            &&& call.data.subrange(8, 40) == root@
            &&& call.data.subrange(40, 72) == data_hash@
            &&& call.data.subrange(72, 104) == creator_hash@
            &&& call.data.subrange(104, 112) == le_bytes(nonce as nat, 8)
            &&& call.data.subrange(112, 116) == le_bytes(index as nat, 4)
        }),
{
    crate::layout::lemma_le_bytes_then_value(nonce as nat, 8);
    crate::layout::lemma_le_bytes_then_value(index as nat, 4);
    let data = transfer_data(root, data_hash, creator_hash, nonce, index);
    assert(data.subrange(0, 8) =~= TRANSFER_DISCRIMINATOR@);
    assert(data.subrange(8, 40) =~= root@);
    assert(data.subrange(40, 72) =~= data_hash@);
    assert(data.subrange(72, 104) =~= creator_hash@);
    assert(data.subrange(104, 112) =~= le_bytes(nonce as nat, 8));
    assert(data.subrange(112, 116) =~= le_bytes(index as nat, 4));
}

} // verus!
