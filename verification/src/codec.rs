use vstd::prelude::*;
use vstd::bytes::{
    lemma_auto_spec_u16_to_from_le_bytes, lemma_auto_spec_u32_to_from_le_bytes,
    lemma_auto_spec_u64_to_from_le_bytes, spec_u16_to_le_bytes, spec_u32_from_le_bytes,
    spec_u32_to_le_bytes, spec_u64_from_le_bytes, spec_u64_to_le_bytes, u16_to_le_bytes,
    u32_from_le_bytes, u32_to_le_bytes, u64_from_le_bytes, u64_to_le_bytes,
};
use vstd::slice::slice_subrange;
use crate::ids::Id32;
use crate::records::{CardRecord, CardStatus, Listing, ListingStatus, Rarity, VaultState};

verus! {

// Persisted records use a fixed-width, little-endian, schema-tagged byte
// layout.  Every field sits at a fixed offset, so the encodings below are
// deterministic whatever the previous contents of a record's storage were.

/// Schema tag of a persisted vault configuration.
pub const VAULT_STATE_TAG: u64 = 1;

/// Schema tag of a persisted card record.
pub const CARD_RECORD_TAG: u64 = 2;

/// Schema tag of a persisted listing.
pub const LISTING_TAG: u64 = 3;

/// Encoded size of a vault configuration.
pub const VAULT_STATE_BYTES: usize = 215;

/// Encoded size of a card record.
pub const CARD_RECORD_BYTES: usize = 110;

/// Encoded size of a listing.
pub const LISTING_BYTES: usize = 146;

/// A 32-byte identifier as bytes: its four limbs, little-endian, in order.
pub open spec fn spec_id_bytes(id: Id32) -> Seq<u8> {
    spec_u64_to_le_bytes(id.w0) + spec_u64_to_le_bytes(id.w1) + spec_u64_to_le_bytes(id.w2)
        + spec_u64_to_le_bytes(id.w3)
}

/// The identifier a 32-byte chunk holds.
pub open spec fn spec_id_of_bytes(s: Seq<u8>) -> Id32 {
    Id32 {
        w0: spec_u64_from_le_bytes(s.subrange(0, 8)),
        w1: spec_u64_from_le_bytes(s.subrange(8, 16)),
        w2: spec_u64_from_le_bytes(s.subrange(16, 24)),
        w3: spec_u64_from_le_bytes(s.subrange(24, 32)),
    }
}

/// Reading back an encoded identifier yields the identifier.
pub proof fn lemma_id_codec_round_trip(id: Id32)
    ensures
        spec_id_of_bytes(spec_id_bytes(id)) == id,
{
    lemma_auto_spec_u64_to_from_le_bytes();
    let s = spec_id_bytes(id);
    assert(s.subrange(0, 8) =~= spec_u64_to_le_bytes(id.w0));
    assert(s.subrange(8, 16) =~= spec_u64_to_le_bytes(id.w1));
    assert(s.subrange(16, 24) =~= spec_u64_to_le_bytes(id.w2));
    assert(s.subrange(24, 32) =~= spec_u64_to_le_bytes(id.w3));
}

/// An optional identifier as bytes: a presence flag, then the identifier
/// (or a zeroed placeholder), always 33 bytes.
pub open spec fn spec_opt_id_bytes(o: Option<Id32>) -> Seq<u8> {
    match o {
        Some(id) => seq![1u8] + spec_id_bytes(id),
        None => seq![0u8] + spec_id_bytes(Id32::spec_zero()),
    }
}

fn push_u64(out: &mut Vec<u8>, x: u64)
    ensures
        final(out)@ == old(out)@ + spec_u64_to_le_bytes(x),
{
    let mut b = u64_to_le_bytes(x);
    out.append(&mut b);
}

fn push_u32(out: &mut Vec<u8>, x: u32)
    ensures
        final(out)@ == old(out)@ + spec_u32_to_le_bytes(x),
{
    let mut b = u32_to_le_bytes(x);
    out.append(&mut b);
}

fn push_u16(out: &mut Vec<u8>, x: u16)
    ensures
        final(out)@ == old(out)@ + spec_u16_to_le_bytes(x),
{
    let mut b = u16_to_le_bytes(x);
    out.append(&mut b);
}

/// Timestamps and window lengths are signed; they are stored as their
/// 64-bit two's-complement image.
fn push_i64(out: &mut Vec<u8>, x: i64)
    ensures
        final(out)@ == old(out)@ + spec_u64_to_le_bytes(x as u64),
{
    let mut b = u64_to_le_bytes(x as u64);
    out.append(&mut b);
}

fn push_id(out: &mut Vec<u8>, id: Id32)
    ensures
        final(out)@ == old(out)@ + spec_id_bytes(id),
{
    push_u64(out, id.w0);
    push_u64(out, id.w1);
    push_u64(out, id.w2);
    push_u64(out, id.w3);
    proof {
        assert(out@ =~= old(out)@ + spec_id_bytes(id));
    }
}

fn push_opt_id(out: &mut Vec<u8>, o: Option<Id32>)
    ensures
        final(out)@ == old(out)@ + spec_opt_id_bytes(o),
{
    match o {
        Some(id) => {
            out.push(1u8);
            push_id(out, id);
        },
        None => {
            out.push(0u8);
            push_id(out, Id32::zero());
        },
    }
    proof {
        assert(out@ =~= old(out)@ + spec_opt_id_bytes(o));
    }
}

/// Rarity tiers as stored bytes, in declaration order.
pub open spec fn spec_rarity_byte(r: Rarity) -> u8 {
    match r {
        Rarity::Common => 0u8,
        Rarity::Uncommon => 1u8,
        Rarity::Rare => 2u8,
        Rarity::DoubleRare => 3u8,
        Rarity::UltraRare => 4u8,
        Rarity::IllustrationRare => 5u8,
        Rarity::SpecialIllustrationRare => 6u8,
        Rarity::MegaHyperRare => 7u8,
        Rarity::Energy => 8u8,
    }
}

/// The rarity tier a stored byte names, if it names one.
pub open spec fn spec_rarity_of_byte(b: u8) -> Option<Rarity> {
    if b == 0 {
        Some(Rarity::Common)
    } else if b == 1 {
        Some(Rarity::Uncommon)
    } else if b == 2 {
        Some(Rarity::Rare)
    } else if b == 3 {
        Some(Rarity::DoubleRare)
    } else if b == 4 {
        Some(Rarity::UltraRare)
    } else if b == 5 {
        Some(Rarity::IllustrationRare)
    } else if b == 6 {
        Some(Rarity::SpecialIllustrationRare)
    } else if b == 7 {
        Some(Rarity::MegaHyperRare)
    } else if b == 8 {
        Some(Rarity::Energy)
    } else {
        None
    }
}

fn rarity_to_byte(r: Rarity) -> (b: u8)
    ensures
        b == spec_rarity_byte(r),
{
    match r {
        Rarity::Common => 0u8,
        Rarity::Uncommon => 1u8,
        Rarity::Rare => 2u8,
        Rarity::DoubleRare => 3u8,
        Rarity::UltraRare => 4u8,
        Rarity::IllustrationRare => 5u8,
        Rarity::SpecialIllustrationRare => 6u8,
        Rarity::MegaHyperRare => 7u8,
        Rarity::Energy => 8u8,
    }
}

fn rarity_of_byte(b: u8) -> (r: Option<Rarity>)
    ensures
        r == spec_rarity_of_byte(b),
{
    if b == 0 {
        Some(Rarity::Common)
    } else if b == 1 {
        Some(Rarity::Uncommon)
    } else if b == 2 {
        Some(Rarity::Rare)
    } else if b == 3 {
        Some(Rarity::DoubleRare)
    } else if b == 4 {
        Some(Rarity::UltraRare)
    } else if b == 5 {
        Some(Rarity::IllustrationRare)
    } else if b == 6 {
        Some(Rarity::SpecialIllustrationRare)
    } else if b == 7 {
        Some(Rarity::MegaHyperRare)
    } else if b == 8 {
        Some(Rarity::Energy)
    } else {
        None
    }
}

/// Card statuses as stored bytes, in declaration order.
pub open spec fn spec_card_status_byte(s: CardStatus) -> u8 {
    match s {
        CardStatus::Available => 0u8,
        CardStatus::Reserved => 1u8,
        CardStatus::UserOwned => 2u8,
        CardStatus::RedeemPending => 3u8,
        CardStatus::Burned => 4u8,
        CardStatus::Deprecated => 5u8,
    }
}

/// The card status a stored byte names, if it names one.
pub open spec fn spec_card_status_of_byte(b: u8) -> Option<CardStatus> {
    if b == 0 {
        Some(CardStatus::Available)
    } else if b == 1 {
        Some(CardStatus::Reserved)
    } else if b == 2 {
        Some(CardStatus::UserOwned)
    } else if b == 3 {
        Some(CardStatus::RedeemPending)
    } else if b == 4 {
        Some(CardStatus::Burned)
    } else if b == 5 {
        Some(CardStatus::Deprecated)
    } else {
        None
    }
}

fn card_status_to_byte(s: CardStatus) -> (b: u8)
    ensures
        b == spec_card_status_byte(s),
{
    match s {
        CardStatus::Available => 0u8,
        CardStatus::Reserved => 1u8,
        CardStatus::UserOwned => 2u8,
        CardStatus::RedeemPending => 3u8,
        CardStatus::Burned => 4u8,
        CardStatus::Deprecated => 5u8,
    }
}

fn card_status_of_byte(b: u8) -> (r: Option<CardStatus>)
    ensures
        r == spec_card_status_of_byte(b),
{
    if b == 0 {
        Some(CardStatus::Available)
    } else if b == 1 {
        Some(CardStatus::Reserved)
    } else if b == 2 {
        Some(CardStatus::UserOwned)
    } else if b == 3 {
        Some(CardStatus::RedeemPending)
    } else if b == 4 {
        Some(CardStatus::Burned)
    } else if b == 5 {
        Some(CardStatus::Deprecated)
    } else {
        None
    }
}

/// Listing statuses as stored bytes, in declaration order.
pub open spec fn spec_listing_status_byte(s: ListingStatus) -> u8 {
    match s {
        ListingStatus::Active => 0u8,
        ListingStatus::Filled => 1u8,
        ListingStatus::Cancelled => 2u8,
        ListingStatus::Burned => 3u8,
        ListingStatus::Deprecated => 4u8,
    }
}

fn listing_status_to_byte(s: ListingStatus) -> (b: u8)
    ensures
        b == spec_listing_status_byte(s),
{
    match s {
        ListingStatus::Active => 0u8,
        ListingStatus::Filled => 1u8,
        ListingStatus::Cancelled => 2u8,
        ListingStatus::Burned => 3u8,
        ListingStatus::Deprecated => 4u8,
    }
}

/// A card record as bytes: tag, vault, asset, template, rarity, status,
/// owner.
pub open spec fn spec_card_record_bytes(c: CardRecord) -> Seq<u8> {
    spec_u64_to_le_bytes(CARD_RECORD_TAG) + spec_id_bytes(c.vault_state) + spec_id_bytes(
        c.core_asset,
    ) + spec_u32_to_le_bytes(c.template_id) + seq![spec_rarity_byte(c.rarity)] + seq![
        spec_card_status_byte(c.status),
    ] + spec_id_bytes(c.owner)
}

pub proof fn lemma_card_record_bytes_len(c: CardRecord)
    ensures
        spec_card_record_bytes(c).len() == CARD_RECORD_BYTES,
{
    lemma_auto_spec_u64_to_from_le_bytes();
    lemma_auto_spec_u32_to_from_le_bytes();
}

pub fn encode_card_record(c: &CardRecord) -> (out: Vec<u8>)
    ensures
        out@ == spec_card_record_bytes(*c),
        out@.len() == CARD_RECORD_BYTES,
{
    let mut out: Vec<u8> = Vec::new();
    push_u64(&mut out, CARD_RECORD_TAG);
    push_id(&mut out, c.vault_state);
    push_id(&mut out, c.core_asset);
    push_u32(&mut out, c.template_id);
    out.push(rarity_to_byte(c.rarity));
    out.push(card_status_to_byte(c.status));
    push_id(&mut out, c.owner);
    proof {
        lemma_card_record_bytes_len(*c);
        assert(out@ =~= spec_card_record_bytes(*c));
    }
    out
}

/// Strict schema validation of stored card-record bytes: the exact length,
/// the card-record tag, and meaningful rarity and status bytes; anything
/// else is rejected.
pub open spec fn spec_decode_card_record(s: Seq<u8>) -> Option<CardRecord> {
    if s.len() != CARD_RECORD_BYTES {
        None
    } else if s.subrange(0, 8) != spec_u64_to_le_bytes(CARD_RECORD_TAG) {
        None
    } else {
        match (spec_rarity_of_byte(s[76]), spec_card_status_of_byte(s[77])) {
            (Some(rarity), Some(status)) => Some(
                CardRecord {
                    vault_state: spec_id_of_bytes(s.subrange(8, 40)),
                    core_asset: spec_id_of_bytes(s.subrange(40, 72)),
                    template_id: spec_u32_from_le_bytes(s.subrange(72, 76)),
                    rarity,
                    status,
                    owner: spec_id_of_bytes(s.subrange(78, 110)),
                },
            ),
            _ => None,
        }
    }
}

fn read_id(s: &[u8], off: usize) -> (r: Id32)
    requires
        off + 32 <= s@.len(),
    ensures
        r == spec_id_of_bytes(s@.subrange(off as int, off + 32)),
{
    let n = s.len();
    proof {
        assert(off + 32 <= n);
    }
    let w0 = u64_from_le_bytes(slice_subrange(s, off, off + 8));
    let w1 = u64_from_le_bytes(slice_subrange(s, off + 8, off + 16));
    let w2 = u64_from_le_bytes(slice_subrange(s, off + 16, off + 24));
    let w3 = u64_from_le_bytes(slice_subrange(s, off + 24, off + 32));
    proof {
        let chunk = s@.subrange(off as int, off + 32);
        assert(chunk.subrange(0, 8) =~= s@.subrange(off as int, off + 8));
        assert(chunk.subrange(8, 16) =~= s@.subrange(off + 8, off + 16));
        assert(chunk.subrange(16, 24) =~= s@.subrange(off + 16, off + 24));
        assert(chunk.subrange(24, 32) =~= s@.subrange(off + 24, off + 32));
    }
    Id32 { w0, w1, w2, w3 }
}

pub fn decode_card_record(bytes: &Vec<u8>) -> (r: Option<CardRecord>)
    ensures
        r == spec_decode_card_record(bytes@),
{
    proof {
        lemma_auto_spec_u64_to_from_le_bytes();
    }
    if bytes.len() != CARD_RECORD_BYTES {
        return None;
    }
    let s = bytes.as_slice();
    let tag = u64_from_le_bytes(slice_subrange(s, 0, 8));
    if tag != CARD_RECORD_TAG {
        return None;
    }
    proof {
        assert(bytes@.subrange(0, 8) == spec_u64_to_le_bytes(spec_u64_from_le_bytes(
            bytes@.subrange(0, 8),
        )));
    }
    let rarity = match rarity_of_byte(s[76]) {
        Some(r) => r,
        None => {
            return None;
        },
    };
    let status = match card_status_of_byte(s[77]) {
        Some(st) => st,
        None => {
            return None;
        },
    };
    let vault_state = read_id(s, 8);
    let core_asset = read_id(s, 40);
    let template_id = u32_from_le_bytes(slice_subrange(s, 72, 76));
    let owner = read_id(s, 78);
    proof {
        assert(bytes@.subrange(72, 76) =~= bytes@.subrange(72, 76));
    }
    Some(CardRecord { vault_state, core_asset, template_id, rarity, status, owner })
}

pub proof fn lemma_rarity_byte_round_trip(r: Rarity)
    ensures
        spec_rarity_of_byte(spec_rarity_byte(r)) == Some(r),
{
}

pub proof fn lemma_card_status_byte_round_trip(s: CardStatus)
    ensures
        spec_card_status_of_byte(spec_card_status_byte(s)) == Some(s),
{
}

/// Decoding an encoded card record yields the record: the persisted format
/// loses nothing.
pub proof fn lemma_card_record_codec_round_trip(c: CardRecord)
    ensures
        spec_decode_card_record(spec_card_record_bytes(c)) == Some(c),
{
    lemma_auto_spec_u64_to_from_le_bytes();
    lemma_auto_spec_u32_to_from_le_bytes();
    let s = spec_card_record_bytes(c);
    assert(s.len() == CARD_RECORD_BYTES);
    assert(s.subrange(0, 8) =~= spec_u64_to_le_bytes(CARD_RECORD_TAG));
    assert(s.subrange(8, 40) =~= spec_id_bytes(c.vault_state));
    assert(s.subrange(40, 72) =~= spec_id_bytes(c.core_asset));
    assert(s.subrange(72, 76) =~= spec_u32_to_le_bytes(c.template_id));
    assert(s[76] == spec_rarity_byte(c.rarity));
    assert(s[77] == spec_card_status_byte(c.status));
    assert(s.subrange(78, 110) =~= spec_id_bytes(c.owner));
    lemma_id_codec_round_trip(c.vault_state);
    lemma_id_codec_round_trip(c.core_asset);
    lemma_id_codec_round_trip(c.owner);
    lemma_rarity_byte_round_trip(c.rarity);
    lemma_card_status_byte_round_trip(c.status);
}

/// A vault configuration as bytes: tag, admin, custody authority, prices,
/// buyback rate, window length, fee rate, the three optional mints, the
/// reward amount, the derivation disambiguator, and zeroed padding.
pub open spec fn spec_vault_state_bytes(v: VaultState) -> Seq<u8> {
    spec_u64_to_le_bytes(VAULT_STATE_TAG) + spec_id_bytes(v.admin) + spec_id_bytes(
        v.vault_authority,
    ) + spec_u64_to_le_bytes(v.pack_price_sol) + spec_u64_to_le_bytes(v.pack_price_usdc)
        + spec_u16_to_le_bytes(v.buyback_bps) + spec_u64_to_le_bytes(v.claim_window_seconds as u64)
        + spec_u16_to_le_bytes(v.marketplace_fee_bps) + spec_opt_id_bytes(v.core_collection)
        + spec_opt_id_bytes(v.usdc_mint) + spec_opt_id_bytes(v.mochi_mint) + spec_u64_to_le_bytes(
        v.reward_per_pack,
    ) + seq![v.vault_authority_bump] + seq![0u8, 0u8, 0u8, 0u8, 0u8, 0u8, 0u8]
}

pub fn encode_vault_state(v: &VaultState) -> (out: Vec<u8>)
    ensures
        out@ == spec_vault_state_bytes(*v),
        out@.len() == VAULT_STATE_BYTES,
{
    let mut out: Vec<u8> = Vec::new();
    push_u64(&mut out, VAULT_STATE_TAG);
    push_id(&mut out, v.admin);
    push_id(&mut out, v.vault_authority);
    push_u64(&mut out, v.pack_price_sol);
    push_u64(&mut out, v.pack_price_usdc);
    push_u16(&mut out, v.buyback_bps);
    push_i64(&mut out, v.claim_window_seconds);
    push_u16(&mut out, v.marketplace_fee_bps);
    push_opt_id(&mut out, v.core_collection);
    push_opt_id(&mut out, v.usdc_mint);
    push_opt_id(&mut out, v.mochi_mint);
    push_u64(&mut out, v.reward_per_pack);
    out.push(v.vault_authority_bump);
    out.push(0u8);
    out.push(0u8);
    out.push(0u8);
    out.push(0u8);
    out.push(0u8);
    out.push(0u8);
    out.push(0u8);
    proof {
        lemma_auto_spec_u64_to_from_le_bytes();
        lemma_auto_spec_u16_to_from_le_bytes();
        assert(out@ =~= spec_vault_state_bytes(*v));
    }
    out
}

/// A listing as bytes: tag, vault, seller, asset, price, optional payment
/// mint, status.
pub open spec fn spec_listing_bytes(l: Listing) -> Seq<u8> {
    spec_u64_to_le_bytes(LISTING_TAG) + spec_id_bytes(l.vault_state) + spec_id_bytes(l.seller)
        + spec_id_bytes(l.core_asset) + spec_u64_to_le_bytes(l.price_lamports) + spec_opt_id_bytes(
        l.currency_mint,
    ) + seq![spec_listing_status_byte(l.status)]
}

pub fn encode_listing(l: &Listing) -> (out: Vec<u8>)
    ensures
        out@ == spec_listing_bytes(*l),
        out@.len() == LISTING_BYTES,
{
    let mut out: Vec<u8> = Vec::new();
    push_u64(&mut out, LISTING_TAG);
    push_id(&mut out, l.vault_state);
    push_id(&mut out, l.seller);
    push_id(&mut out, l.core_asset);
    push_u64(&mut out, l.price_lamports);
    push_opt_id(&mut out, l.currency_mint);
    out.push(listing_status_to_byte(l.status));
    proof {
        lemma_auto_spec_u64_to_from_le_bytes();
        assert(out@ =~= spec_listing_bytes(*l));
    }
    out
}

} // verus!
