use mochi_vault::actions::CustodyAction;
use mochi_vault::errors::MochiError;
use mochi_vault::ids::Id32;
use mochi_vault::pack::{
    admin_force_close_v2, claim_pack_v2, expire_session_v2, open_pack, sellback_pack_v2,
};
use mochi_vault::records::{
    CardRecord, CardStatus, Currency, PackState, Rarity, RewardAccounts, TokenAccountInfo,
    VaultState,
};
use mochi_vault::session::PackSessionV2;

fn id(n: u64) -> Id32 {
    Id32 { w0: n, w1: 0, w2: 0, w3: 0 }
}

fn test_cfg() -> VaultState {
    VaultState {
        admin: id(1),
        vault_authority: id(2),
        vault_authority_bump: 254,
        pack_price_sol: 1000,
        pack_price_usdc: 500,
        buyback_bps: 5000,
        claim_window_seconds: 3600,
        marketplace_fee_bps: 250,
        core_collection: None,
        usdc_mint: None,
        mochi_mint: None,
        reward_per_pack: 0,
    }
}

fn fresh_session() -> PackSessionV2 {
    PackSessionV2 {
        user: id(0),
        currency: Currency::Sol,
        paid_amount: 0,
        created_at: 0,
        expires_at: 0,
        rare_card_keys: Vec::new(),
        rare_templates: Vec::new(),
        state: PackState::Uninitialized,
        client_seed_hash: id(0),
        total_slots: 11,
        bump: 0,
    }
}

fn available_card(vault: Id32, asset: u64, template: u32, rarity: Rarity) -> CardRecord {
    CardRecord {
        vault_state: vault,
        core_asset: id(asset),
        template_id: template,
        rarity,
        status: CardStatus::Available,
        owner: id(2),
    }
}

fn no_reward() -> RewardAccounts {
    RewardAccounts {
        mint: id(0),
        mint_authority: None,
        user_token: TokenAccountInfo { address: id(0), mint: id(0), owner: id(0) },
    }
}

fn open_three(
    session: &mut PackSessionV2,
    cards: &mut Vec<CardRecord>,
) -> Result<mochi_vault::pack::OpenPackReceipt, MochiError> {
    let cfg = test_cfg();
    open_pack(
        &cfg,
        id(10),
        id(3),
        session,
        cards,
        vec![id(100), id(101), id(102)],
        id(7),
        1_000,
        Currency::Sol,
        id(42),
        vec![5, 6, 7],
        None,
        &no_reward(),
        9,
    )
}

#[test]
fn open_reserves_rare_cards_and_collects_price() {
    let mut session = fresh_session();
    let mut cards = vec![
        available_card(id(10), 100, 5, Rarity::Rare),
        available_card(id(10), 101, 6, Rarity::UltraRare),
        available_card(id(10), 102, 7, Rarity::MegaHyperRare),
    ];
    let receipt = open_three(&mut session, &mut cards).unwrap();
    assert_eq!(receipt.payment.amount, 1000);
    assert_eq!(receipt.payment.from, id(7));
    assert_eq!(receipt.payment.to, id(3));
    assert!(receipt.reward.is_none());
    assert_eq!(session.state, PackState::PendingDecision);
    assert_eq!(session.paid_amount, 1000);
    assert_eq!(session.created_at, 1_000);
    assert_eq!(session.expires_at, 4_600);
    assert_eq!(session.rare_card_keys, vec![id(100), id(101), id(102)]);
    assert_eq!(session.rare_templates, vec![5, 6, 7]);
    for c in &cards {
        assert_eq!(c.status, CardStatus::Reserved);
        assert_eq!(c.owner, id(7));
    }
}

#[test]
fn open_rejects_batch_with_one_reserved_card() {
    // One reserved card out of three: the whole call is refused and no
    // record changes.
    let mut session = fresh_session();
    let mut cards = vec![
        available_card(id(10), 100, 5, Rarity::Rare),
        available_card(id(10), 101, 6, Rarity::UltraRare),
        available_card(id(10), 102, 7, Rarity::MegaHyperRare),
    ];
    cards[2].status = CardStatus::Reserved;
    let before_cards = cards.clone();
    let before_session = session.clone();
    let r = open_three(&mut session, &mut cards);
    assert_eq!(r.unwrap_err(), MochiError::CardNotAvailable);
    assert_eq!(cards, before_cards);
    assert_eq!(session, before_session);
}

#[test]
fn second_open_before_decision_fails() {
    let mut session = fresh_session();
    let mut cards = vec![
        available_card(id(10), 100, 5, Rarity::Rare),
        available_card(id(10), 101, 6, Rarity::UltraRare),
        available_card(id(10), 102, 7, Rarity::MegaHyperRare),
    ];
    open_three(&mut session, &mut cards).unwrap();
    let mut more_cards = vec![available_card(id(10), 103, 9, Rarity::Rare)];
    let cfg = test_cfg();
    let r = open_pack(
        &cfg,
        id(10),
        id(3),
        &mut session,
        &mut more_cards,
        vec![id(103)],
        id(7),
        2_000,
        Currency::Sol,
        id(43),
        vec![9],
        None,
        &no_reward(),
        9,
    );
    assert_eq!(r.unwrap_err(), MochiError::SessionExists);
}

#[test]
fn open_refuses_too_many_rare_cards() {
    let mut session = fresh_session();
    let mut cards = vec![
        available_card(id(10), 100, 1, Rarity::Rare),
        available_card(id(10), 101, 2, Rarity::Rare),
        available_card(id(10), 102, 3, Rarity::Rare),
        available_card(id(10), 103, 4, Rarity::Rare),
    ];
    let cfg = test_cfg();
    let r = open_pack(
        &cfg,
        id(10),
        id(3),
        &mut session,
        &mut cards,
        vec![id(100), id(101), id(102), id(103)],
        id(7),
        1_000,
        Currency::Sol,
        id(42),
        vec![1, 2, 3, 4],
        None,
        &no_reward(),
        9,
    );
    assert_eq!(r.unwrap_err(), MochiError::TooManyRareCards);
}

#[test]
fn open_refuses_common_card_and_wrong_template_and_wrong_vault() {
    let cfg = test_cfg();
    // Common-tier card.
    let mut session = fresh_session();
    let mut cards = vec![available_card(id(10), 100, 5, Rarity::Common)];
    let r = open_pack(
        &cfg,
        id(10),
        id(3),
        &mut session,
        &mut cards,
        vec![id(100)],
        id(7),
        1_000,
        Currency::Sol,
        id(42),
        vec![5],
        None,
        &no_reward(),
        9,
    );
    assert_eq!(r.unwrap_err(), MochiError::CardTooCommon);
    // Declared template differs from the record.
    let mut session = fresh_session();
    let mut cards = vec![available_card(id(10), 100, 5, Rarity::Rare)];
    let r = open_pack(
        &cfg,
        id(10),
        id(3),
        &mut session,
        &mut cards,
        vec![id(100)],
        id(7),
        1_000,
        Currency::Sol,
        id(42),
        vec![6],
        None,
        &no_reward(),
        9,
    );
    assert_eq!(r.unwrap_err(), MochiError::TemplateMismatch);
    // Card of another vault.
    let mut session = fresh_session();
    let mut cards = vec![available_card(id(99), 100, 5, Rarity::Rare)];
    let r = open_pack(
        &cfg,
        id(10),
        id(3),
        &mut session,
        &mut cards,
        vec![id(100)],
        id(7),
        1_000,
        Currency::Sol,
        id(42),
        vec![5],
        None,
        &no_reward(),
        9,
    );
    assert_eq!(r.unwrap_err(), MochiError::VaultMismatch);
}

#[test]
fn open_refuses_zero_price_and_missing_token_accounts() {
    let mut cfg = test_cfg();
    cfg.pack_price_sol = 0;
    let mut session = fresh_session();
    let mut cards: Vec<CardRecord> = Vec::new();
    let r = open_pack(
        &cfg,
        id(10),
        id(3),
        &mut session,
        &mut cards,
        Vec::new(),
        id(7),
        1_000,
        Currency::Sol,
        id(42),
        Vec::new(),
        None,
        &no_reward(),
        9,
    );
    assert_eq!(r.unwrap_err(), MochiError::InvalidPrice);
    let cfg = test_cfg();
    let mut session = fresh_session();
    let r = open_pack(
        &cfg,
        id(10),
        id(3),
        &mut session,
        &mut cards,
        Vec::new(),
        id(7),
        1_000,
        Currency::Token,
        id(42),
        Vec::new(),
        None,
        &no_reward(),
        9,
    );
    assert_eq!(r.unwrap_err(), MochiError::MissingTokenAccount);
}

#[test]
fn open_with_pinned_mint_checks_token_accounts() {
    let mut cfg = test_cfg();
    cfg.usdc_mint = Some(id(77));
    let mut session = fresh_session();
    let mut cards: Vec<CardRecord> = Vec::new();
    let wrong_mint = (
        TokenAccountInfo { address: id(50), mint: id(78), owner: id(7) },
        TokenAccountInfo { address: id(51), mint: id(77), owner: id(2) },
    );
    let r = open_pack(
        &cfg,
        id(10),
        id(3),
        &mut session,
        &mut cards,
        Vec::new(),
        id(7),
        1_000,
        Currency::Token,
        id(42),
        Vec::new(),
        Some(wrong_mint),
        &no_reward(),
        9,
    );
    assert_eq!(r.unwrap_err(), MochiError::MintMismatch);
    let good = (
        TokenAccountInfo { address: id(50), mint: id(77), owner: id(7) },
        TokenAccountInfo { address: id(51), mint: id(77), owner: id(2) },
    );
    let receipt = open_pack(
        &cfg,
        id(10),
        id(3),
        &mut session,
        &mut cards,
        Vec::new(),
        id(7),
        1_000,
        Currency::Token,
        id(42),
        Vec::new(),
        Some(good),
        &no_reward(),
        9,
    )
    .unwrap();
    assert_eq!(receipt.payment.amount, 500);
    assert_eq!(receipt.payment.from, id(50));
    assert_eq!(receipt.payment.to, id(51));
}

#[test]
fn open_mints_configured_reward() {
    let mut cfg = test_cfg();
    cfg.mochi_mint = Some(id(88));
    cfg.reward_per_pack = 250;
    let mut session = fresh_session();
    let mut cards: Vec<CardRecord> = Vec::new();
    let reward = RewardAccounts {
        mint: id(88),
        mint_authority: Some(id(2)),
        user_token: TokenAccountInfo { address: id(60), mint: id(88), owner: id(7) },
    };
    let receipt = open_pack(
        &cfg,
        id(10),
        id(3),
        &mut session,
        &mut cards,
        Vec::new(),
        id(7),
        1_000,
        Currency::Sol,
        id(42),
        Vec::new(),
        None,
        &reward,
        9,
    )
    .unwrap();
    let mint = receipt.reward.unwrap();
    assert_eq!(mint.mint, id(88));
    assert_eq!(mint.to, id(60));
    assert_eq!(mint.amount, 250);
    // A reward mint whose minting authority is not the vault's custody
    // authority is refused.
    let mut session = fresh_session();
    let bad = RewardAccounts {
        mint: id(88),
        mint_authority: Some(id(4)),
        user_token: TokenAccountInfo { address: id(60), mint: id(88), owner: id(7) },
    };
    let r = open_pack(
        &cfg,
        id(10),
        id(3),
        &mut session,
        &mut cards,
        Vec::new(),
        id(7),
        1_000,
        Currency::Sol,
        id(42),
        Vec::new(),
        None,
        &bad,
        9,
    );
    assert_eq!(r.unwrap_err(), MochiError::Unauthorized);
}

#[test]
fn claim_transfers_each_reserved_card() {
    let mut session = fresh_session();
    let mut cards = vec![
        available_card(id(10), 100, 5, Rarity::Rare),
        available_card(id(10), 101, 6, Rarity::UltraRare),
        available_card(id(10), 102, 7, Rarity::MegaHyperRare),
    ];
    open_three(&mut session, &mut cards).unwrap();
    let card_ids = vec![id(100), id(101), id(102)];
    let transfers = claim_pack_v2(&mut session, &mut cards, &card_ids, id(7), 4_000).unwrap();
    // One custody transfer per reserved record.
    assert_eq!(transfers.len(), 3);
    assert_eq!(
        transfers,
        vec![
            CustodyAction { asset: id(100), new_owner: id(7) },
            CustodyAction { asset: id(101), new_owner: id(7) },
            CustodyAction { asset: id(102), new_owner: id(7) },
        ]
    );
    for c in &cards {
        assert_eq!(c.status, CardStatus::UserOwned);
        assert_eq!(c.owner, id(7));
    }
    assert_eq!(session.state, PackState::Accepted);
}

#[test]
fn claim_checks_card_keys_and_status() {
    let mut session = fresh_session();
    let mut cards = vec![
        available_card(id(10), 100, 5, Rarity::Rare),
        available_card(id(10), 101, 6, Rarity::UltraRare),
        available_card(id(10), 102, 7, Rarity::MegaHyperRare),
    ];
    open_three(&mut session, &mut cards).unwrap();
    // Wrong record supplied for a reserved key.
    let wrong_ids = vec![id(100), id(999), id(102)];
    let r = claim_pack_v2(&mut session, &mut cards, &wrong_ids, id(7), 4_000);
    assert_eq!(r.unwrap_err(), MochiError::CardKeyMismatch);
    // A slot that lost its reservation refuses the claim.
    let card_ids = vec![id(100), id(101), id(102)];
    cards[1].status = CardStatus::Available;
    let r = claim_pack_v2(&mut session, &mut cards, &card_ids, id(7), 4_000);
    assert_eq!(r.unwrap_err(), MochiError::CardNotReserved);
}

#[test]
fn sellback_pays_buyback_share_and_releases_cards() {
    let mut session = fresh_session();
    let mut cards = vec![
        available_card(id(10), 100, 5, Rarity::Rare),
        available_card(id(10), 101, 6, Rarity::UltraRare),
        available_card(id(10), 102, 7, Rarity::MegaHyperRare),
    ];
    open_three(&mut session, &mut cards).unwrap();
    let card_ids = vec![id(100), id(101), id(102)];
    let refund = sellback_pack_v2(
        &test_cfg(),
        &mut session,
        &mut cards,
        &card_ids,
        id(7),
        4_000,
        None,
    )
    .unwrap();
    // floor(1000 * 5000 / 10000) = 500, paid from the custody authority.
    assert_eq!(refund.amount, 500);
    assert_eq!(refund.from, id(2));
    assert_eq!(refund.to, id(7));
    for c in &cards {
        assert_eq!(c.status, CardStatus::Available);
        assert_eq!(c.owner, id(2));
    }
    assert_eq!(session.state, PackState::Rejected);
}

#[test]
fn decision_window_boundary_is_asymmetric() {
    // At now == expires_at claim and sellback succeed and expire fails;
    // one second past the boundary the three reverse.
    let card_ids = vec![id(100), id(101), id(102)];
    let make = || {
        let mut session = fresh_session();
        let mut cards = vec![
            available_card(id(10), 100, 5, Rarity::Rare),
            available_card(id(10), 101, 6, Rarity::UltraRare),
            available_card(id(10), 102, 7, Rarity::MegaHyperRare),
        ];
        open_three(&mut session, &mut cards).unwrap();
        (session, cards)
    };
    let expires_at = 4_600;

    let (mut session, mut cards) = make();
    assert!(claim_pack_v2(&mut session, &mut cards, &card_ids, id(7), expires_at).is_ok());
    let (mut session, mut cards) = make();
    assert!(
        sellback_pack_v2(&test_cfg(), &mut session, &mut cards, &card_ids, id(7), expires_at, None)
            .is_ok()
    );
    let (mut session, mut cards) = make();
    assert_eq!(
        expire_session_v2(&test_cfg(), &mut session, &mut cards, &card_ids, expires_at)
            .unwrap_err(),
        MochiError::SessionNotExpired
    );

    let (mut session, mut cards) = make();
    assert_eq!(
        claim_pack_v2(&mut session, &mut cards, &card_ids, id(7), expires_at + 1).unwrap_err(),
        MochiError::SessionExpired
    );
    let (mut session, mut cards) = make();
    assert_eq!(
        sellback_pack_v2(
            &test_cfg(),
            &mut session,
            &mut cards,
            &card_ids,
            id(7),
            expires_at + 1,
            None
        )
        .unwrap_err(),
        MochiError::SessionExpired
    );
    let (mut session, mut cards) = make();
    assert!(
        expire_session_v2(&test_cfg(), &mut session, &mut cards, &card_ids, expires_at + 1).is_ok()
    );
    assert_eq!(session.state, PackState::Expired);
    for c in &cards {
        assert_eq!(c.status, CardStatus::Available);
        assert_eq!(c.owner, id(2));
    }
}

#[test]
fn sellback_overflow_is_refused() {
    let mut session = fresh_session();
    let mut cards = vec![available_card(id(10), 100, 5, Rarity::Rare)];
    let cfg = test_cfg();
    open_pack(
        &cfg,
        id(10),
        id(3),
        &mut session,
        &mut cards,
        vec![id(100)],
        id(7),
        1_000,
        Currency::Sol,
        id(42),
        vec![5],
        None,
        &no_reward(),
        9,
    )
    .unwrap();
    session.paid_amount = u64::MAX;
    let card_ids = vec![id(100)];
    let r = sellback_pack_v2(&cfg, &mut session, &mut cards, &card_ids, id(7), 4_000, None);
    assert_eq!(r.unwrap_err(), MochiError::MathOverflow);
}

#[test]
fn claim_on_settled_session_is_refused() {
    let mut session = fresh_session();
    let mut cards: Vec<CardRecord> = Vec::new();
    let card_ids: Vec<Id32> = Vec::new();
    session.user = id(7);
    let r = claim_pack_v2(&mut session, &mut cards, &card_ids, id(7), 0);
    assert_eq!(r.unwrap_err(), MochiError::InvalidSessionState);
}

#[test]
fn admin_force_close_releases_own_vault_cards_only() {
    let mut session = fresh_session();
    let mut cards = vec![
        available_card(id(10), 100, 5, Rarity::Rare),
        available_card(id(10), 101, 6, Rarity::UltraRare),
        available_card(id(10), 102, 7, Rarity::MegaHyperRare),
    ];
    open_three(&mut session, &mut cards).unwrap();
    cards.push(available_card(id(99), 200, 1, Rarity::Common));
    let cfg = test_cfg();
    // Only the admin may force-close.
    assert_eq!(
        admin_force_close_v2(&cfg, id(10), id(5), &mut session, &mut cards).unwrap_err(),
        MochiError::Unauthorized
    );
    let freed = admin_force_close_v2(&cfg, id(10), id(1), &mut session, &mut cards).unwrap();
    assert_eq!(freed, vec![true, true, true, false]);
    for c in &cards[..3] {
        assert_eq!(c.status, CardStatus::Available);
        assert_eq!(c.owner, id(2));
    }
    assert_eq!(cards[3].vault_state, id(99));
    assert_eq!(session.state, PackState::Uninitialized);
    assert_eq!(session.paid_amount, 0);
    assert!(session.rare_card_keys.is_empty());
}
