//! The stored form of a listing record: a tag, the fields at fixed offsets,
//! and padding.

use vstd::prelude::*;
use crate::hashing::le_bytes;
use crate::states::{SellerTradeState, SELLER_TRADE_STATE_DISCRIMINATOR};
use crate::transfer::{push_bytes, push_le_bytes};

verus! {

/// Bytes taken by the tag and the fields of a stored record.
pub const USED_LEN: usize = 8 + 32 + 32 + 8 + 32 + 32 + 1 + 32 + 4 + 8 + 8;

/// Bytes of padding behind the fields of a stored record.
pub const PADDING_LEN: usize = 240;

/// 256 to the power `width`.
pub open spec fn pow256(width: nat) -> nat
    decreases width,
{
    if width == 0 {
        1
    } else {
        256 * pow256((width - 1) as nat)
    }
}

/// The number that `bytes` spell, least significant byte first.
pub open spec fn le_value(bytes: Seq<u8>) -> nat
    decreases bytes.len(),
{
    if bytes.len() == 0 {
        0
    } else {
        bytes[0] as nat + 256 * le_value(bytes.drop_first())
    }
}

/// A signed 64-bit number as the unsigned number with the same bits.
pub open spec fn twos_complement(x: i64) -> nat {
    if x >= 0 {
        x as nat
    } else {
        (x + 0x1_0000_0000_0000_0000) as nat
    }
}

/// The signed 64-bit number with the bits of `u`.
pub open spec fn from_twos_complement(u: u64) -> i64 {
    if u < 0x8000_0000_0000_0000 {
        u as i64
    } else {
        (u - 0x1_0000_0000_0000_0000) as i64
    }
}

/// The powers of 256 up to the eighth.
pub proof fn lemma_pow256_values()
    ensures
        pow256(0) == 1,
        pow256(1) == 0x100,
        pow256(2) == 0x1_0000,
        pow256(3) == 0x100_0000,
        pow256(4) == 0x1_0000_0000,
        pow256(5) == 0x100_0000_0000,
        pow256(6) == 0x1_0000_0000_0000,
        pow256(7) == 0x100_0000_0000_0000,
        pow256(8) == 0x1_0000_0000_0000_0000,
{
    reveal_with_fuel(pow256, 10);
}

/// `width` bytes spell a number below 256 to the `width`.
pub proof fn lemma_le_value_bound(bytes: Seq<u8>)
    ensures
        le_value(bytes) < pow256(bytes.len()),
    decreases bytes.len(),
{
    if bytes.len() > 0 {
        lemma_le_value_bound(bytes.drop_first());
    }
}

/// The bytes of a number are as many as asked for, and spell the number
/// again where it fits in them.
pub proof fn lemma_le_bytes_then_value(value: nat, width: nat)
    ensures
        le_bytes(value, width).len() == width,
        value < pow256(width) ==> le_value(le_bytes(value, width)) == value,
    decreases width,
{
    if width > 0 {
        lemma_le_bytes_then_value(value / 256, (width - 1) as nat);
        let rest = le_bytes(value / 256, (width - 1) as nat);
        let all = le_bytes(value, width);
        assert(all.drop_first() =~= rest);
        if value < pow256(width) {
            assert(value / 256 < pow256((width - 1) as nat)) by (nonlinear_arith)
                requires
                    value < 256 * pow256((width - 1) as nat),
            ;
        }
    }
}

/// The number that bytes spell has exactly those bytes.
pub proof fn lemma_le_value_then_bytes(bytes: Seq<u8>)
    ensures
        le_bytes(le_value(bytes), bytes.len()) == bytes,
    decreases bytes.len(),
{
    if bytes.len() > 0 {
        let rest = bytes.drop_first();
        lemma_le_value_then_bytes(rest);
        let value = le_value(bytes);
        let first = bytes[0] as nat;
        let tail = le_value(rest);
        assert(value == first + 256 * tail);
        assert(value % 256 == first && value / 256 == tail) by (nonlinear_arith)
            requires
                value == first + 256 * tail,
                first < 256,
        ;
        assert(le_bytes(value, bytes.len()) =~= bytes);
    } else {
        assert(le_bytes(le_value(bytes), 0) =~= bytes);
    }
}

/// Signed and unsigned readings of 64 bits turn into each other.
pub proof fn lemma_twos_complement(x: i64, u: u64)
    ensures
        twos_complement(x) < 0x1_0000_0000_0000_0000,
        from_twos_complement(twos_complement(x) as u64) == x,
        twos_complement(from_twos_complement(u)) == u,
{
}

/// The fields of a record in their stored order: seller, referral, price,
/// asset, payment unit, bump, tree, index, creation and update time. Numbers
/// are stored least significant byte first, the times in two's complement.
pub open spec fn encoded_fields(state: SellerTradeState) -> Seq<u8> {
    state.seller@ + state.seller_referral@ + le_bytes(state.buyer_price as nat, 8)
        + state.asset_id@ + state.payment_mint@ + seq![state.bump] + state.merkle_tree@
        + le_bytes(state.index as nat, 4) + le_bytes(twos_complement(state.created_at), 8)
        + le_bytes(twos_complement(state.updated_at), 8)
}

/// The stored form of a record: tag, fields, padding of zeros.
pub open spec fn encoded(state: SellerTradeState) -> Seq<u8> {
    SELLER_TRADE_STATE_DISCRIMINATOR@ + encoded_fields(state) + Seq::new(
        PADDING_LEN as nat,
        |i: int| 0u8,
    )
}

/// What stored bytes hold: a record, where they open with the tag of one and
/// are long enough for its fields. The record is the one whose fields are
/// stored there.
pub open spec fn decodes_to(data: Seq<u8>, out: Option<SellerTradeState>) -> bool {
    match out {
        Some(state) => {
            &&& data.len() >= USED_LEN
            &&& data.subrange(0, 8) == SELLER_TRADE_STATE_DISCRIMINATOR@
            &&& encoded_fields(state) == data.subrange(8, USED_LEN as int)
        },
        None => data.len() < USED_LEN || data.subrange(0, 8)
            != SELLER_TRADE_STATE_DISCRIMINATOR@,
    }
}

/// The unsigned number with the bits of `x`.
pub fn to_twos_complement(x: i64) -> (u: u64)
    ensures
        u == twos_complement(x),
{
    if x >= 0 {
        x as u64
    } else {
        let above_min: u64 = (x - i64::MIN) as u64;
        above_min + 0x8000_0000_0000_0000
    }
}

/// The signed number with the bits of `u`.
pub fn signed_from_twos_complement(u: u64) -> (x: i64)
    ensures
        x == from_twos_complement(u),
{
    if u < 0x8000_0000_0000_0000 {
        u as i64
    } else {
        let above_min: u64 = u - 0x8000_0000_0000_0000;
        (above_min as i64) + i64::MIN
    }
}

/// Reads `width` bytes at `offset` as a number, least significant byte first.
pub fn read_le(data: &[u8], offset: usize, width: usize) -> (value: u64)
    requires
        width <= 8,
        offset + width <= data@.len(),
    ensures
        value == le_value(data@.subrange(offset as int, offset + width)),
{
    let len = data.len();
    let mut value: u64 = 0;
    let mut i: usize = width;
    proof {
        lemma_pow256_values();
        assert(data@.subrange(offset + width, offset + width).len() == 0);
    }
    while i > 0
        invariant
            0 <= i <= width,
            width <= 8,
            len == data@.len(),
            offset + width <= data@.len(),
            value == le_value(data@.subrange(offset + i, offset + width)),
        decreases i,
    {
        let ghost tail = data@.subrange(offset + i, offset + width);
        i -= 1;
        proof {
            let piece = data@.subrange(offset + i, offset + width);
            assert(piece.drop_first() =~= tail);
            assert(piece[0] == data@[offset + i]);
            lemma_le_value_bound(tail);
            lemma_pow256_values();
            assert(tail.len() <= 7);
            assert(pow256(tail.len()) <= 0x100_0000_0000_0000) by {
                if tail.len() == 0 {
                } else if tail.len() == 1 {
                } else if tail.len() == 2 {
                } else if tail.len() == 3 {
                } else if tail.len() == 4 {
                } else if tail.len() == 5 {
                } else if tail.len() == 6 {
                } else {
                    assert(tail.len() == 7);
                }
            }
        }
        value = value * 256 + data[offset + i] as u64;
    }
    value
}

/// Reads the 32 bytes at `offset` as a key.
pub fn read_key(data: &[u8], offset: usize) -> (key: [u8; 32])
    requires
        offset + 32 <= data@.len(),
    ensures
        key@ == data@.subrange(offset as int, offset + 32),
{
    let len = data.len();
    let mut key: [u8; 32] = [0u8; 32];
    let mut i: usize = 0;
    while i < 32
        invariant
            0 <= i <= 32,
            len == data@.len(),
            offset + 32 <= data@.len(),
            forall|j: int| 0 <= j < i ==> key@[j] == data@[offset + j],
        decreases 32 - i,
    {
        key[i] = data[offset + i];
        i += 1;
    }
    proof {
        assert(key@ =~= data@.subrange(offset as int, offset + 32));
    }
    key
}

impl SellerTradeState {
    /// The stored form of this record.
    pub fn to_bytes(&self) -> (bytes: Vec<u8>)
        ensures
            bytes@ == encoded(*self),
            bytes@.len() == SellerTradeState::LEN,
    {
        let mut bytes: Vec<u8> = Vec::new();
        push_bytes(&mut bytes, SELLER_TRADE_STATE_DISCRIMINATOR.as_slice());
        let ghost tag = bytes@;
        let mut fields: Vec<u8> = Vec::new();
        push_bytes(&mut fields, self.seller.as_slice());
        push_bytes(&mut fields, self.seller_referral.as_slice());
        push_le_bytes(&mut fields, self.buyer_price, 8);
        push_bytes(&mut fields, self.asset_id.as_slice());
        push_bytes(&mut fields, self.payment_mint.as_slice());
        let bump: [u8; 1] = [self.bump];
        proof {
            assert(bump@ =~= seq![self.bump]);
        }
        push_bytes(&mut fields, bump.as_slice());
        push_bytes(&mut fields, self.merkle_tree.as_slice());
        push_le_bytes(&mut fields, self.index as u64, 4);
        push_le_bytes(&mut fields, to_twos_complement(self.created_at), 8);
        push_le_bytes(&mut fields, to_twos_complement(self.updated_at), 8);
        proof {
            assert(fields@ == encoded_fields(*self));
            lemma_encoded_fields_len(*self);
        }
        push_bytes(&mut bytes, fields.as_slice());
        let mut i: usize = 0;
        while i < PADDING_LEN
            invariant
                0 <= i <= PADDING_LEN,
                bytes@ == tag + fields@ + Seq::new(i as nat, |j: int| 0u8),
            decreases PADDING_LEN - i,
        {
            bytes.push(0u8);
            proof {
                assert(bytes@ =~= tag + fields@ + Seq::new((i + 1) as nat, |j: int| 0u8));
            }
            i += 1;
        }
        bytes
    }

    /// Reads a record from its stored form. Bytes behind the fields are not
    /// looked at.
    pub fn from_bytes(data: &[u8]) -> (out: Option<SellerTradeState>)
        ensures
            decodes_to(data@, out),
    {
        if data.len() < USED_LEN {
            return None;
        }
        let tag = vstd::slice::slice_subrange(data, 0, 8);
        if !crate::accounts::bytes_equal(tag, SELLER_TRADE_STATE_DISCRIMINATOR.as_slice()) {
            return None;
        }
        let state = SellerTradeState {
            seller: read_key(data, 8),
            seller_referral: read_key(data, 40),
            buyer_price: read_le(data, 72, 8),
            asset_id: read_key(data, 80),
            payment_mint: read_key(data, 112),
            bump: data[144],
            merkle_tree: read_key(data, 145),
            index: read_le(data, 177, 4) as u32,
            created_at: signed_from_twos_complement(read_le(data, 181, 8)),
            updated_at: signed_from_twos_complement(read_le(data, 189, 8)),
        };
        proof {
            let d = data@;
            lemma_pow256_values();
            lemma_le_value_then_bytes(d.subrange(72, 80));
            lemma_le_value_then_bytes(d.subrange(177, 181));
            lemma_le_value_then_bytes(d.subrange(181, 189));
            lemma_le_value_then_bytes(d.subrange(189, 197));
            lemma_le_value_bound(d.subrange(177, 181));
            lemma_twos_complement(0, read_le_value(d, 181));
            lemma_twos_complement(0, read_le_value(d, 189));
            lemma_le_value_bound(d.subrange(181, 189));
            lemma_le_value_bound(d.subrange(189, 197));
            assert(seq![state.bump] =~= d.subrange(144, 145));
            assert(encoded_fields(state) =~= d.subrange(8, 197));
        }
        Some(state)
    }
}

/// The eight bytes at `offset`, read as an unsigned number.
pub open spec fn read_le_value(data: Seq<u8>, offset: int) -> u64 {
    le_value(data.subrange(offset, offset + 8)) as u64
}

/// The fields of a record take 189 bytes.
pub proof fn lemma_encoded_fields_len(state: SellerTradeState)
    ensures
        encoded_fields(state).len() == USED_LEN - 8,
        encoded(state).len() == SellerTradeState::LEN,
{
    lemma_le_bytes_then_value(state.buyer_price as nat, 8);
    lemma_le_bytes_then_value(state.index as nat, 4);
    lemma_le_bytes_then_value(twos_complement(state.created_at), 8);
    lemma_le_bytes_then_value(twos_complement(state.updated_at), 8);
}

/// Where each field lies among the stored fields.
pub proof fn lemma_field_offsets(state: SellerTradeState)
    ensures
        ({
            let f = encoded_fields(state);
            &&& f.len() == 189
            &&& f.subrange(0, 32) == state.seller@
            &&& f.subrange(32, 64) == state.seller_referral@
            &&& f.subrange(64, 72) == le_bytes(state.buyer_price as nat, 8)
            &&& f.subrange(72, 104) == state.asset_id@
            &&& f.subrange(104, 136) == state.payment_mint@
            &&& f[136] == state.bump
            &&& f.subrange(137, 169) == state.merkle_tree@
            &&& f.subrange(169, 173) == le_bytes(state.index as nat, 4)
            &&& f.subrange(173, 181) == le_bytes(twos_complement(state.created_at), 8)
            &&& f.subrange(181, 189) == le_bytes(twos_complement(state.updated_at), 8)
        }),
{
    lemma_le_bytes_then_value(state.buyer_price as nat, 8);
    lemma_le_bytes_then_value(state.index as nat, 4);
    lemma_le_bytes_then_value(twos_complement(state.created_at), 8);
    lemma_le_bytes_then_value(twos_complement(state.updated_at), 8);
    let f = encoded_fields(state);
    assert(f.subrange(0, 32) =~= state.seller@);
    assert(f.subrange(32, 64) =~= state.seller_referral@);
    assert(f.subrange(64, 72) =~= le_bytes(state.buyer_price as nat, 8));
    assert(f.subrange(72, 104) =~= state.asset_id@);
    assert(f.subrange(104, 136) =~= state.payment_mint@);
    assert(f.subrange(137, 169) =~= state.merkle_tree@);
    assert(f.subrange(169, 173) =~= le_bytes(state.index as nat, 4));
    assert(f.subrange(173, 181) =~= le_bytes(twos_complement(state.created_at), 8));
    assert(f.subrange(181, 189) =~= le_bytes(twos_complement(state.updated_at), 8));
}

/// Records with the same stored fields are the same record.
pub proof fn lemma_stored_fields_decide(a: SellerTradeState, b: SellerTradeState)
    requires
        encoded_fields(a) == encoded_fields(b),
    ensures
        a == b,
{
    lemma_field_offsets(a);
    lemma_field_offsets(b);
    lemma_pow256_values();
    crate::accounts::lemma_key_by_bytes(a.seller, b.seller);
    crate::accounts::lemma_key_by_bytes(a.seller_referral, b.seller_referral);
    crate::accounts::lemma_key_by_bytes(a.asset_id, b.asset_id);
    crate::accounts::lemma_key_by_bytes(a.payment_mint, b.payment_mint);
    crate::accounts::lemma_key_by_bytes(a.merkle_tree, b.merkle_tree);
    lemma_le_bytes_then_value(a.buyer_price as nat, 8);
    lemma_le_bytes_then_value(b.buyer_price as nat, 8);
    lemma_le_bytes_then_value(a.index as nat, 4);
    lemma_le_bytes_then_value(b.index as nat, 4);
    lemma_le_bytes_then_value(twos_complement(a.created_at), 8);
    lemma_le_bytes_then_value(twos_complement(b.created_at), 8);
    lemma_le_bytes_then_value(twos_complement(a.updated_at), 8);
    lemma_le_bytes_then_value(twos_complement(b.updated_at), 8);
    lemma_twos_complement(a.created_at, 0);
    lemma_twos_complement(b.created_at, 0);
    lemma_twos_complement(a.updated_at, 0);
    lemma_twos_complement(b.updated_at, 0);
}

/// Reading the stored form of a record gives the record back.
pub proof fn lemma_stored_form_round_trip(state: SellerTradeState, out: Option<SellerTradeState>)
    requires
        decodes_to(encoded(state), out),
    ensures
        out == Some(state),
{
    lemma_encoded_fields_len(state);
    let bytes = encoded(state);
    assert(bytes.subrange(0, 8) =~= SELLER_TRADE_STATE_DISCRIMINATOR@);
    assert(bytes.subrange(8, USED_LEN as int) =~= encoded_fields(state));
    lemma_stored_fields_decide(out->Some_0, state);
}

} // verus!
