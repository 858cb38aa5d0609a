use mochi_vault::codec::{
    decode_card_record, encode_card_record, encode_listing, encode_vault_state,
};
use mochi_vault::ids::Id32;
use mochi_vault::records::{
    CardRecord, CardStatus, Listing, ListingStatus, Rarity, VaultState,
};

fn id(n: u64) -> Id32 {
    Id32 { w0: n, w1: n + 1, w2: n + 2, w3: n + 3 }
}

fn sample_record() -> CardRecord {
    CardRecord {
        vault_state: id(10),
        core_asset: id(500),
        template_id: 0x0102_0304,
        rarity: Rarity::SpecialIllustrationRare,
        status: CardStatus::Reserved,
        owner: id(7),
    }
}

#[test]
fn card_record_bytes_round_trip() {
    let record = sample_record();
    let bytes = encode_card_record(&record);
    assert_eq!(bytes.len(), 110);
    assert_eq!(decode_card_record(&bytes), Some(record));
}

#[test]
fn card_record_layout_is_fixed_and_little_endian() {
    let record = sample_record();
    let bytes = encode_card_record(&record);
    // Schema tag.
    assert_eq!(&bytes[0..8], &[2, 0, 0, 0, 0, 0, 0, 0]);
    // First limb of the vault identifier.
    assert_eq!(&bytes[8..16], &[10, 0, 0, 0, 0, 0, 0, 0]);
    // Template id at its fixed offset.
    assert_eq!(&bytes[72..76], &[4, 3, 2, 1]);
    // Rarity and status bytes.
    assert_eq!(bytes[76], 6);
    assert_eq!(bytes[77], 1);
}

#[test]
fn strict_decode_rejects_malformed_bytes() {
    let record = sample_record();
    let good = encode_card_record(&record);
    // Wrong length.
    let mut short = good.clone();
    short.pop();
    assert_eq!(decode_card_record(&short), None);
    // Wrong schema tag.
    let mut wrong_tag = good.clone();
    wrong_tag[0] = 9;
    assert_eq!(decode_card_record(&wrong_tag), None);
    // Meaningless rarity byte.
    let mut bad_rarity = good.clone();
    bad_rarity[76] = 200;
    assert_eq!(decode_card_record(&bad_rarity), None);
    // Meaningless status byte.
    let mut bad_status = good;
    bad_status[77] = 200;
    assert_eq!(decode_card_record(&bad_status), None);
}

#[test]
fn vault_state_bytes_have_the_fixed_layout() {
    let cfg = VaultState {
        admin: id(1),
        vault_authority: id(2),
        vault_authority_bump: 254,
        pack_price_sol: 0x11,
        pack_price_usdc: 0x22,
        buyback_bps: 0x3344,
        claim_window_seconds: 3600,
        marketplace_fee_bps: 0x5566,
        core_collection: None,
        usdc_mint: Some(id(77)),
        mochi_mint: None,
        reward_per_pack: 9,
    };
    let bytes = encode_vault_state(&cfg);
    assert_eq!(bytes.len(), 215);
    // Schema tag.
    assert_eq!(&bytes[0..8], &[1, 0, 0, 0, 0, 0, 0, 0]);
    // Prices at their fixed offsets.
    assert_eq!(bytes[72], 0x11);
    assert_eq!(bytes[80], 0x22);
    // Buyback rate, little-endian.
    assert_eq!(&bytes[88..90], &[0x44, 0x33]);
    // Window length.
    assert_eq!(&bytes[90..98], &[0x10, 0x0e, 0, 0, 0, 0, 0, 0]);
    // Marketplace fee.
    assert_eq!(&bytes[98..100], &[0x66, 0x55]);
    // Option flags: collection unset, payment mint set, reward mint unset.
    assert_eq!(bytes[100], 0);
    assert_eq!(bytes[133], 1);
    assert_eq!(bytes[166], 0);
    // Reward amount, disambiguator, and zero padding.
    assert_eq!(bytes[199], 9);
    assert_eq!(bytes[207], 254);
    assert_eq!(&bytes[208..215], &[0, 0, 0, 0, 0, 0, 0]);
}

#[test]
fn listing_bytes_have_the_fixed_layout() {
    let listing = Listing {
        vault_state: id(20),
        seller: id(7),
        core_asset: id(500),
        price_lamports: 0x99,
        currency_mint: None,
        status: ListingStatus::Filled,
    };
    let bytes = encode_listing(&listing);
    assert_eq!(bytes.len(), 146);
    assert_eq!(&bytes[0..8], &[3, 0, 0, 0, 0, 0, 0, 0]);
    assert_eq!(bytes[104], 0x99);
    // Unset payment mint: flag and zeroed placeholder.
    assert_eq!(bytes[112], 0);
    assert!(bytes[113..145].iter().all(|b| *b == 0));
    // Status byte.
    assert_eq!(bytes[145], 1);
}
