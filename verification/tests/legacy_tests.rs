use mochi_vault::errors::MochiError;
use mochi_vault::ids::Id32;
use mochi_vault::pack_legacy::{
    admin_force_close_session, admin_force_expire, admin_reset_cards, admin_reset_session,
    claim_pack, claim_pack_batch, claim_pack_batch3, expire_session, finalize_claim,
    open_pack_start, sellback_pack, user_reset_session,
};
use mochi_vault::records::{CardRecord, CardStatus, Currency, PackState, Rarity, VaultState};
use mochi_vault::session::{PackSession, PACK_CARD_COUNT};

fn id(n: u64) -> Id32 {
    Id32 { w0: n, w1: 0, w2: 0, w3: 0 }
}

fn test_cfg() -> VaultState {
    VaultState {
        admin: id(1),
        vault_authority: id(2),
        vault_authority_bump: 254,
        pack_price_sol: 1000,
        pack_price_usdc: 500,
        buyback_bps: 5000,
        claim_window_seconds: 3600,
        marketplace_fee_bps: 250,
        core_collection: None,
        usdc_mint: None,
        mochi_mint: None,
        reward_per_pack: 0,
    }
}

fn fresh_session() -> PackSession {
    PackSession {
        user: id(0),
        currency: Currency::Sol,
        paid_amount: 0,
        created_at: 0,
        expires_at: 0,
        card_record_keys: Vec::new(),
        state: PackState::Uninitialized,
        client_seed_hash: id(0),
        rarity_prices: Vec::new(),
    }
}

fn full_deck(vault: Id32) -> (Vec<CardRecord>, Vec<Id32>) {
    let mut cards = Vec::new();
    let mut ids = Vec::new();
    for slot in 0..PACK_CARD_COUNT as u64 {
        cards.push(CardRecord {
            vault_state: vault,
            core_asset: id(300 + slot),
            template_id: slot as u32,
            rarity: Rarity::Common,
            status: CardStatus::Available,
            owner: id(2),
        });
        ids.push(id(400 + slot));
    }
    (cards, ids)
}

fn open_full(
    session: &mut PackSession,
    cards: &mut Vec<CardRecord>,
    ids: Vec<Id32>,
    prices: Vec<u64>,
) {
    open_pack_start(
        &test_cfg(),
        id(10),
        id(3),
        session,
        cards,
        ids,
        id(7),
        5_000,
        1_000,
        Currency::Sol,
        id(42),
        prices,
        None,
    )
    .unwrap();
}

#[test]
fn full_open_reserves_all_eleven_slots() {
    let mut session = fresh_session();
    let (mut cards, ids) = full_deck(id(10));
    open_full(&mut session, &mut cards, ids.clone(), vec![100; PACK_CARD_COUNT]);
    assert_eq!(session.state, PackState::PendingDecision);
    assert_eq!(session.paid_amount, 1000);
    assert_eq!(session.card_record_keys, ids);
    assert_eq!(session.expires_at, 4_600);
    for c in &cards {
        assert_eq!(c.status, CardStatus::Reserved);
        assert_eq!(c.owner, id(7));
    }
}

#[test]
fn full_open_needs_funds_and_eleven_slots() {
    let mut session = fresh_session();
    let (mut cards, ids) = full_deck(id(10));
    let r = open_pack_start(
        &test_cfg(),
        id(10),
        id(3),
        &mut session,
        &mut cards,
        ids,
        id(7),
        999,
        1_000,
        Currency::Sol,
        id(42),
        Vec::new(),
        None,
    );
    assert_eq!(r.unwrap_err(), MochiError::InsufficientFunds);
    let mut short_cards = vec![cards[0]];
    let r = open_pack_start(
        &test_cfg(),
        id(10),
        id(3),
        &mut session,
        &mut short_cards,
        vec![id(400)],
        id(7),
        5_000,
        1_000,
        Currency::Sol,
        id(42),
        Vec::new(),
        None,
    );
    assert_eq!(r.unwrap_err(), MochiError::InvalidCardCount);
}

#[test]
fn full_claim_hands_every_slot_to_the_user() {
    let mut session = fresh_session();
    let (mut cards, ids) = full_deck(id(10));
    open_full(&mut session, &mut cards, ids, vec![100; PACK_CARD_COUNT]);
    let transfers = claim_pack(&mut session, &mut cards, id(7), 4_600).unwrap();
    assert_eq!(transfers.len(), PACK_CARD_COUNT);
    for (slot, t) in transfers.iter().enumerate() {
        assert_eq!(t.asset, id(300 + slot as u64));
        assert_eq!(t.new_owner, id(7));
    }
    for c in &cards {
        assert_eq!(c.status, CardStatus::UserOwned);
        assert_eq!(c.owner, id(7));
    }
    assert_eq!(session.state, PackState::Accepted);
}

#[test]
fn oversized_price_list_is_truncated_on_claim() {
    let mut session = fresh_session();
    let (mut cards, ids) = full_deck(id(10));
    open_full(&mut session, &mut cards, ids, vec![100; PACK_CARD_COUNT + 4]);
    claim_pack(&mut session, &mut cards, id(7), 4_600).unwrap();
    assert_eq!(session.rarity_prices.len(), PACK_CARD_COUNT);
}

#[test]
fn batched_claims_defer_acceptance_to_finalize() {
    let mut session = fresh_session();
    let (mut cards, ids) = full_deck(id(10));
    open_full(&mut session, &mut cards, ids.clone(), vec![100; PACK_CARD_COUNT]);
    // 11 slots: four batches of two, then one of three.
    let mut done: Vec<CardRecord> = Vec::new();
    for chunk in 0..4 {
        let mut batch = cards[chunk * 2..chunk * 2 + 2].to_vec();
        let transfers = claim_pack_batch(&session, &mut batch, id(7), 2_000).unwrap();
        assert_eq!(transfers.len(), 2);
        done.extend_from_slice(&batch);
    }
    let mut batch = cards[8..11].to_vec();
    let transfers = claim_pack_batch3(&session, &mut batch, id(7), 2_000).unwrap();
    assert_eq!(transfers.len(), 3);
    done.extend_from_slice(&batch);
    assert_eq!(session.state, PackState::PendingDecision);
    for c in &done {
        assert_eq!(c.status, CardStatus::UserOwned);
    }
    finalize_claim(&mut session, &done, &ids, id(7), 3_000).unwrap();
    assert_eq!(session.state, PackState::Accepted);
}

#[test]
fn batch_sizes_are_bounded() {
    let mut session = fresh_session();
    let (mut cards, ids) = full_deck(id(10));
    open_full(&mut session, &mut cards, ids, Vec::new());
    let mut batch = cards[0..3].to_vec();
    let r = claim_pack_batch(&session, &mut batch, id(7), 2_000);
    assert_eq!(r.unwrap_err(), MochiError::InvalidCardCount);
    let mut batch = cards[0..2].to_vec();
    let r = claim_pack_batch3(&session, &mut batch, id(7), 2_000);
    assert_eq!(r.unwrap_err(), MochiError::InvalidCardCount);
}

#[test]
fn finalize_refuses_a_slot_still_reserved() {
    let mut session = fresh_session();
    let (mut cards, ids) = full_deck(id(10));
    open_full(&mut session, &mut cards, ids.clone(), Vec::new());
    let r = finalize_claim(&mut session, &cards, &ids, id(7), 2_000);
    assert_eq!(r.unwrap_err(), MochiError::CardNotReserved);
    assert_eq!(session.state, PackState::PendingDecision);
}

#[test]
fn finalize_verifies_every_reserved_slot() {
    let mut session = fresh_session();
    let (mut cards, ids) = full_deck(id(10));
    open_full(&mut session, &mut cards, ids.clone(), Vec::new());
    // Hand every slot over through bounded batches first.
    let mut settled: Vec<_> = Vec::new();
    for chunk in 0..4 {
        let mut batch = cards[chunk * 2..chunk * 2 + 2].to_vec();
        claim_pack_batch(&session, &mut batch, id(7), 2_000).unwrap();
        settled.extend_from_slice(&batch);
    }
    let mut batch = cards[8..11].to_vec();
    claim_pack_batch3(&session, &mut batch, id(7), 2_000).unwrap();
    settled.extend_from_slice(&batch);
    // Supplying no records at all is refused: acceptance demands the full
    // reserved slot list.
    let r = finalize_claim(&mut session, &Vec::new(), &Vec::new(), id(7), 3_000);
    assert_eq!(r.unwrap_err(), MochiError::InvalidCardCount);
    assert_eq!(session.state, PackState::PendingDecision);
    // A record standing in for a slot the session did not reserve is
    // refused too.
    let mut wrong_ids = ids.clone();
    wrong_ids[4] = id(999);
    let r = finalize_claim(&mut session, &settled, &wrong_ids, id(7), 3_000);
    assert_eq!(r.unwrap_err(), MochiError::CardKeyMismatch);
    assert_eq!(session.state, PackState::PendingDecision);
    // The complete, matching slot list is accepted.
    finalize_claim(&mut session, &settled, &ids, id(7), 3_000).unwrap();
    assert_eq!(session.state, PackState::Accepted);
}

#[test]
fn sellback_pays_floor_of_price_sum_times_buyback() {
    // prices [100, 200, 300], buyback 5000 bps: payout floor(600 * 0.5) = 300.
    let mut session = fresh_session();
    let (mut cards, ids) = full_deck(id(10));
    open_full(&mut session, &mut cards, ids, vec![100, 200, 300]);
    let refund = sellback_pack(
        &test_cfg(),
        &mut session,
        &mut cards,
        id(7),
        4_000,
        id(3),
        None,
    )
    .unwrap();
    assert_eq!(refund.amount, 300);
    assert_eq!(refund.from, id(3));
    assert_eq!(refund.to, id(7));
    assert_eq!(session.state, PackState::Rejected);
    for c in &cards {
        assert_eq!(c.status, CardStatus::Available);
        assert_eq!(c.owner, id(2));
    }
}

#[test]
fn sellback_price_sum_overflow_is_refused() {
    let mut session = fresh_session();
    let (mut cards, ids) = full_deck(id(10));
    open_full(&mut session, &mut cards, ids, vec![u64::MAX, 1]);
    let r = sellback_pack(&test_cfg(), &mut session, &mut cards, id(7), 4_000, id(3), None);
    assert_eq!(r.unwrap_err(), MochiError::MathOverflow);
}

#[test]
fn expire_needs_the_window_to_have_passed() {
    let mut session = fresh_session();
    let (mut cards, ids) = full_deck(id(10));
    open_full(&mut session, &mut cards, ids, Vec::new());
    assert_eq!(
        expire_session(&test_cfg(), &mut session, &mut cards, 4_600).unwrap_err(),
        MochiError::SessionNotExpired
    );
    expire_session(&test_cfg(), &mut session, &mut cards, 4_601).unwrap();
    assert_eq!(session.state, PackState::Expired);
}

#[test]
fn admin_force_expire_skips_the_time_check() {
    let mut session = fresh_session();
    let (mut cards, ids) = full_deck(id(10));
    open_full(&mut session, &mut cards, ids, Vec::new());
    assert_eq!(
        admin_force_expire(&test_cfg(), id(5), &mut session, &mut cards).unwrap_err(),
        MochiError::Unauthorized
    );
    admin_force_expire(&test_cfg(), id(1), &mut session, &mut cards).unwrap();
    assert_eq!(session.state, PackState::Expired);
    for c in &cards {
        assert_eq!(c.status, CardStatus::Available);
        assert_eq!(c.owner, id(2));
    }
}

#[test]
fn admin_reset_refuses_a_pending_session() {
    let mut session = fresh_session();
    let (mut cards, ids) = full_deck(id(10));
    open_full(&mut session, &mut cards, ids, Vec::new());
    let r = admin_reset_session(&test_cfg(), id(10), id(1), &mut session, &mut cards);
    assert_eq!(r.unwrap_err(), MochiError::InvalidSessionState);
}

#[test]
fn admin_reset_restores_session_defaults() {
    let mut session = fresh_session();
    let (mut cards, ids) = full_deck(id(10));
    open_full(&mut session, &mut cards, ids, vec![100, 200]);
    expire_session(&test_cfg(), &mut session, &mut cards, 10_000).unwrap();
    session.state = PackState::Expired;
    cards[0].vault_state = id(99);
    let freed = admin_reset_session(&test_cfg(), id(10), id(1), &mut session, &mut cards).unwrap();
    assert_eq!(freed[0], false);
    assert!(freed[1..].iter().all(|f| *f));
    assert_eq!(session.state, PackState::Uninitialized);
    assert_eq!(session.card_record_keys, vec![id(0); PACK_CARD_COUNT]);
    assert!(session.rarity_prices.is_empty());
    assert_eq!(session.client_seed_hash, id(0));
    // The user binding survives the reset.
    assert_eq!(session.user, id(7));
}

#[test]
fn user_reset_frees_and_zeroes_a_settled_session() {
    let mut session = fresh_session();
    let (mut cards, ids) = full_deck(id(10));
    open_full(&mut session, &mut cards, ids, Vec::new());
    assert_eq!(
        user_reset_session(&test_cfg(), id(10), &mut session, &mut cards).unwrap_err(),
        MochiError::InvalidSessionState
    );
    expire_session(&test_cfg(), &mut session, &mut cards, 10_000).unwrap();
    let freed = user_reset_session(&test_cfg(), id(10), &mut session, &mut cards).unwrap();
    assert_eq!(freed.len(), PACK_CARD_COUNT);
    assert_eq!(session.state, PackState::Uninitialized);
}

#[test]
fn admin_force_close_works_in_any_state() {
    let mut session = fresh_session();
    let (mut cards, ids) = full_deck(id(10));
    open_full(&mut session, &mut cards, ids, Vec::new());
    let freed =
        admin_force_close_session(&test_cfg(), id(10), id(1), &mut session, &mut cards).unwrap();
    assert!(freed.iter().all(|f| *f));
    assert_eq!(session.state, PackState::Uninitialized);
}

#[test]
fn admin_reset_cards_skips_foreign_vault_entries() {
    let mut cards = vec![
        CardRecord {
            vault_state: id(10),
            core_asset: id(300),
            template_id: 0,
            rarity: Rarity::Rare,
            status: CardStatus::Reserved,
            owner: id(7),
        },
        CardRecord {
            vault_state: id(99),
            core_asset: id(301),
            template_id: 0,
            rarity: Rarity::Rare,
            status: CardStatus::Reserved,
            owner: id(7),
        },
    ];
    assert_eq!(
        admin_reset_cards(&test_cfg(), id(10), id(5), &mut cards).unwrap_err(),
        MochiError::Unauthorized
    );
    let freed = admin_reset_cards(&test_cfg(), id(10), id(1), &mut cards).unwrap();
    assert_eq!(freed, vec![true, false]);
    assert_eq!(cards[0].status, CardStatus::Available);
    assert_eq!(cards[0].owner, id(2));
    assert_eq!(cards[1].status, CardStatus::Reserved);
    assert_eq!(cards[1].owner, id(7));
}
