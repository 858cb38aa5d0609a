use vstd::prelude::*;
use crate::actions::{CustodyAction, MintAction, PaymentAction};
use crate::errors::{lemma_first_error_prefix, spec_first_error, MochiError};
use crate::ids::Id32;
use crate::math::{checked_add_i64, spec_bps_apply};
use crate::payment::{open_payment, spec_open_payment, spec_vault_payout, vault_payout};
use crate::records::{
    mark_released_all, mark_reserved_all, mark_user_owned_all, spec_rare_or_above, spec_released,
    spec_reserved_for, spec_user_owned, CardRecord, CardStatus, Currency, PackState,
    RewardAccounts, TokenAccountInfo, VaultState,
};
use crate::records::is_rare_or_above;
use crate::session::{
    spec_session_blocks_open, PackSessionV2, PackSessionV2View, MAX_RARE_CARDS, PACK_CARD_COUNT,
};

verus! {

/// What a successful `open_pack` asks the caller to perform: collect the
/// pack price, and mint the configured reward if one is set.
#[derive(Clone, Copy, PartialEq, Eq, Debug)]
pub struct OpenPackReceipt {
    pub payment: PaymentAction,
    pub reward: Option<MintAction>,
}

/// Why a single card cannot be reserved for a rare slot, if it cannot.
pub open spec fn spec_card_reserve_error(
    c: CardRecord,
    template: u32,
    vault: Id32,
) -> Option<MochiError> {
    if c.vault_state != vault {
        Some(MochiError::VaultMismatch)
    } else if c.status != CardStatus::Available {
        Some(MochiError::CardNotAvailable)
    } else if !spec_rare_or_above(c.rarity) {
        Some(MochiError::CardTooCommon)
    } else if c.template_id != template {
        Some(MochiError::TemplateMismatch)
    } else {
        None
    }
}

/// Per-slot outcomes of validating a reservation batch.
pub open spec fn spec_reserve_errors(
    cards: Seq<CardRecord>,
    templates: Seq<u32>,
    vault: Id32,
) -> Seq<Option<MochiError>> {
    Seq::new(cards.len(), |i: int| spec_card_reserve_error(cards[i], templates[i], vault))
}

fn card_reserve_error(c: &CardRecord, template: u32, vault: Id32) -> (r: Option<MochiError>)
    ensures
        r == spec_card_reserve_error(*c, template, vault),
{
    if c.vault_state != vault {
        Some(MochiError::VaultMismatch)
    } else if c.status != CardStatus::Available {
        Some(MochiError::CardNotAvailable)
    } else if !is_rare_or_above(c.rarity) {
        Some(MochiError::CardTooCommon)
    } else if c.template_id != template {
        Some(MochiError::TemplateMismatch)
    } else {
        None
    }
}

/// The reward mint a successful `open_pack` carries, when the vault has a
/// reward configured: the reward mint must be the configured one, its
/// minting authority must be the vault's own custody authority, and the
/// credited token account must belong to the buyer.
pub open spec fn spec_reward_mint(
    cfg: VaultState,
    user: Id32,
    reward: RewardAccounts,
) -> Result<Option<MintAction>, MochiError> {
    if cfg.reward_per_pack == 0 {
        Ok(None)
    } else {
        match cfg.mochi_mint {
            None => Err(MochiError::MintMismatch),
            Some(m) => if reward.mint != m {
                Err(MochiError::MintMismatch)
            } else if reward.mint_authority != Some(cfg.vault_authority) {
                Err(MochiError::Unauthorized)
            } else if reward.user_token.mint != m {
                Err(MochiError::MintMismatch)
            } else if reward.user_token.owner != user {
                Err(MochiError::Unauthorized)
            } else {
                Ok(
                    Some(
                        MintAction {
                            mint: m,
                            to: reward.user_token.address,
                            amount: cfg.reward_per_pack,
                        },
                    ),
                )
            },
        }
    }
}

fn reward_mint_action(cfg: &VaultState, user: Id32, reward: &RewardAccounts) -> (r: Result<
    Option<MintAction>,
    MochiError,
>)
    ensures
        r == spec_reward_mint(*cfg, user, *reward),
{
    if cfg.reward_per_pack == 0 {
        return Ok(None);
    }
    match cfg.mochi_mint {
        None => Err(MochiError::MintMismatch),
        Some(m) => {
            let authority_ok = match reward.mint_authority {
                Some(a) => a == cfg.vault_authority,
                None => false,
            };
            if reward.mint != m {
                Err(MochiError::MintMismatch)
            } else if !authority_ok {
                Err(MochiError::Unauthorized)
            } else if reward.user_token.mint != m {
                Err(MochiError::MintMismatch)
            } else if reward.user_token.owner != user {
                Err(MochiError::Unauthorized)
            } else {
                Ok(
                    Some(
                        MintAction {
                            mint: m,
                            to: reward.user_token.address,
                            amount: cfg.reward_per_pack,
                        },
                    ),
                )
            }
        },
    }
}

/// The whole `open_pack` transition: what the session, the touched cards
/// and the receipt become, or the exact error the call refuses with.
pub open spec fn spec_open_pack(
    cfg: VaultState,
    vault_id: Id32,
    treasury: Id32,
    s0: PackSessionV2View,
    cards: Seq<CardRecord>,
    card_ids: Seq<Id32>,
    user: Id32,
    now: i64,
    currency: Currency,
    client_seed_hash: Id32,
    templates: Seq<u32>,
    token_accounts: Option<(TokenAccountInfo, TokenAccountInfo)>,
    reward: RewardAccounts,
    session_bump: u8,
) -> Result<(PackSessionV2View, Seq<CardRecord>, OpenPackReceipt), MochiError> {
    if templates.len() > MAX_RARE_CARDS as int {
        Err(MochiError::TooManyRareCards)
    } else if cards.len() != templates.len() || card_ids.len() != templates.len() {
        Err(MochiError::InvalidCardCount)
    } else if spec_session_blocks_open(s0, now) {
        Err(MochiError::SessionExists)
    } else if !(i64::MIN <= now + cfg.claim_window_seconds <= i64::MAX) {
        Err(MochiError::MathOverflow)
    } else {
        match spec_open_payment(cfg, user, treasury, currency, token_accounts) {
            Err(e) => Err(e),
            Ok(payment) => match spec_first_error(
                spec_reserve_errors(cards, templates, vault_id),
            ) {
                Err(e) => Err(e),
                Ok(_) => match spec_reward_mint(cfg, user, reward) {
                    Err(e) => Err(e),
                    Ok(mint) => Ok(
                        (
                            PackSessionV2View {
                                user,
                                currency,
                                paid_amount: payment.amount,
                                created_at: now,
                                expires_at: (now + cfg.claim_window_seconds) as i64,
                                rare_card_keys: card_ids,
                                rare_templates: templates,
                                state: PackState::PendingDecision,
                                client_seed_hash,
                                total_slots: PACK_CARD_COUNT as u8,
                                bump: session_bump,
                            },
                            cards.map_values(|c: CardRecord| spec_reserved_for(c, user)),
                            OpenPackReceipt { payment, reward: mint },
                        ),
                    ),
                },
            },
        }
    }
}

/// Open a pack: collect the price, reserve the declared rare-tier cards,
/// and start the decision window.
///
/// Nothing changes unless every check passes; in particular a still-pending,
/// unexpired session for the same user refuses a second `open` outright.
pub fn open_pack(
    cfg: &VaultState,
    vault_id: Id32,
    treasury: Id32,
    session: &mut PackSessionV2,
    cards: &mut Vec<CardRecord>,
    card_ids: Vec<Id32>,
    user: Id32,
    now: i64,
    currency: Currency,
    client_seed_hash: Id32,
    rare_templates: Vec<u32>,
    token_accounts: Option<(TokenAccountInfo, TokenAccountInfo)>,
    reward: &RewardAccounts,
    session_bump: u8,
) -> (r: Result<OpenPackReceipt, MochiError>)
    ensures
        ({
            let o = spec_open_pack(
                *cfg,
                vault_id,
                treasury,
                old(session)@,
                old(cards)@,
                card_ids@,
                user,
                now,
                currency,
                client_seed_hash,
                rare_templates@,
                token_accounts,
                *reward,
                session_bump,
            );
            &&& (r matches Ok(receipt) ==> o matches Ok(ok) && final(session)@ == ok.0
                && final(cards)@ == ok.1 && receipt == ok.2)
            &&& (r matches Err(e) ==> o matches Err(oe) && oe == e && *final(session) == *old(
                session,
            ) && final(cards)@ == old(cards)@)
        }),
{
    if rare_templates.len() > MAX_RARE_CARDS {
        return Err(MochiError::TooManyRareCards);
    }
    if cards.len() != rare_templates.len() || card_ids.len() != rare_templates.len() {
        return Err(MochiError::InvalidCardCount);
    }
    if session.state == PackState::PendingDecision && now <= session.expires_at {
        return Err(MochiError::SessionExists);
    }
    let expires_at: i64 = match checked_add_i64(now, cfg.claim_window_seconds) {
        Ok(t) => t,
        Err(e) => {
            return Err(e);
        },
    };
    let pack_payment = match open_payment(cfg, user, treasury, currency, token_accounts) {
        Ok(p) => p,
        Err(e) => {
            return Err(e);
        },
    };
    let ghost errs = spec_reserve_errors(old(cards)@, rare_templates@, vault_id);
    let card_count = cards.len();
    let mut i: usize = 0;
    while i < card_count
        invariant
            0 <= i <= card_count,
            card_count == cards@.len(),
            cards@ == old(cards)@,
            rare_templates@.len() == card_count,
            errs == spec_reserve_errors(cards@, rare_templates@, vault_id),
            forall|j: int| 0 <= j < i ==> errs[j] is None,
        decreases card_count - i,
    {
        let c = cards[i];
        match card_reserve_error(&c, rare_templates[i], vault_id) {
            Some(e) => {
                proof {
                    lemma_first_error_prefix(errs, i as int);
                    assert(errs.skip(i as int)[0] == errs[i as int]);
                }
                return Err(e);
            },
            None => {},
        }
        i = i + 1;
    }
    proof {
        lemma_first_error_prefix(errs, card_count as int);
        assert(errs.skip(card_count as int).len() == 0);
    }
    let reward_mint = match reward_mint_action(cfg, user, reward) {
        Ok(m) => m,
        Err(e) => {
            return Err(e);
        },
    };
    mark_reserved_all(cards, user);
    session.user = user;
    session.currency = currency;
    session.paid_amount = pack_payment.amount;
    session.created_at = now;
    session.expires_at = expires_at;
    session.rare_card_keys = card_ids;
    session.rare_templates = rare_templates;
    session.state = PackState::PendingDecision;
    session.client_seed_hash = client_seed_hash;
    session.total_slots = PACK_CARD_COUNT as u8;
    session.bump = session_bump;
    Ok(OpenPackReceipt { payment: pack_payment, reward: reward_mint })
}

/// Why a reserved card cannot be settled for this session, if it cannot:
/// it must be the very record the session reserved, still reserved, and
/// held in the caller's name.
pub open spec fn spec_card_settle_error(
    c: CardRecord,
    expected_key: Id32,
    actual_key: Id32,
    user: Id32,
) -> Option<MochiError> {
    if actual_key != expected_key {
        Some(MochiError::CardKeyMismatch)
    } else if c.status != CardStatus::Reserved {
        Some(MochiError::CardNotReserved)
    } else if c.owner != user {
        Some(MochiError::Unauthorized)
    } else {
        None
    }
}

/// Per-slot outcomes of validating a settlement batch against the keys the
/// session reserved.
pub open spec fn spec_settle_errors(
    cards: Seq<CardRecord>,
    card_ids: Seq<Id32>,
    reserved_keys: Seq<Id32>,
    user: Id32,
) -> Seq<Option<MochiError>> {
    Seq::new(
        cards.len(),
        |i: int| spec_card_settle_error(cards[i], reserved_keys[i], card_ids[i], user),
    )
}

fn card_settle_error(c: &CardRecord, expected_key: Id32, actual_key: Id32, user: Id32) -> (r:
    Option<MochiError>)
    ensures
        r == spec_card_settle_error(*c, expected_key, actual_key, user),
{
    if actual_key != expected_key {
        Some(MochiError::CardKeyMismatch)
    } else if c.status != CardStatus::Reserved {
        Some(MochiError::CardNotReserved)
    } else if c.owner != user {
        Some(MochiError::Unauthorized)
    } else {
        None
    }
}

/// One custody transfer per settled slot: the slot's asset goes to `user`.
pub open spec fn spec_custody_to_user(cards: Seq<CardRecord>, user: Id32) -> Seq<CustodyAction> {
    Seq::new(cards.len(), |i: int| CustodyAction { asset: cards[i].core_asset, new_owner: user })
}

/// The whole `claim_pack_v2` transition: within the decision window, every
/// reserved card is handed to the user — one custody transfer per reserved
/// record — and the session is accepted.
pub open spec fn spec_claim_pack_v2(
    s0: PackSessionV2View,
    cards: Seq<CardRecord>,
    card_ids: Seq<Id32>,
    user: Id32,
    now: i64,
) -> Result<(PackSessionV2View, Seq<CardRecord>, Seq<CustodyAction>), MochiError> {
    if s0.user != user {
        Err(MochiError::Unauthorized)
    } else if s0.state != PackState::PendingDecision {
        Err(MochiError::InvalidSessionState)
    } else if now > s0.expires_at {
        Err(MochiError::SessionExpired)
    } else if cards.len() != s0.rare_card_keys.len() || card_ids.len() != cards.len() {
        Err(MochiError::InvalidCardCount)
    } else {
        match spec_first_error(spec_settle_errors(cards, card_ids, s0.rare_card_keys, user)) {
            Err(e) => Err(e),
            Ok(_) => Ok(
                (
                    PackSessionV2View { state: PackState::Accepted, ..s0 },
                    cards.map_values(|c: CardRecord| spec_user_owned(c, user)),
                    spec_custody_to_user(cards, user),
                ),
            ),
        }
    }
}

/// Keep the pack: transfer every reserved card's asset to the user and
/// accept the session.  Allowed while `now <= expires_at`, refused after.
pub fn claim_pack_v2(
    session: &mut PackSessionV2,
    cards: &mut Vec<CardRecord>,
    card_ids: &Vec<Id32>,
    user: Id32,
    now: i64,
) -> (r: Result<Vec<CustodyAction>, MochiError>)
    ensures
        ({
            let o = spec_claim_pack_v2(old(session)@, old(cards)@, card_ids@, user, now);
            &&& (r matches Ok(transfers) ==> o matches Ok(ok) && final(session)@ == ok.0
                && final(cards)@ == ok.1 && transfers@ == ok.2)
            &&& (r matches Err(e) ==> o matches Err(oe) && oe == e && *final(session) == *old(
                session,
            ) && final(cards)@ == old(cards)@)
        }),
{
    if session.user != user {
        return Err(MochiError::Unauthorized);
    }
    if session.state != PackState::PendingDecision {
        return Err(MochiError::InvalidSessionState);
    }
    if now > session.expires_at {
        return Err(MochiError::SessionExpired);
    }
    if cards.len() != session.rare_card_keys.len() || card_ids.len() != cards.len() {
        return Err(MochiError::InvalidCardCount);
    }
    let ghost errs = spec_settle_errors(old(cards)@, card_ids@, old(session)@.rare_card_keys, user);
    let card_count = cards.len();
    let mut i: usize = 0;
    while i < card_count
        invariant
            0 <= i <= card_count,
            forall|j: int| 0 <= j < i ==> errs[j] is None,
        decreases card_count - i,
    {
        let c = cards[i];
        match card_settle_error(&c, session.rare_card_keys[i], card_ids[i], user) {
            Some(e) => {
                proof {
                    lemma_first_error_prefix(errs, i as int);
                    assert(errs.skip(i as int)[0] == errs[i as int]);
                }
                return Err(e);
            },
            None => {},
        }
        i = i + 1;
    }
    proof {
        lemma_first_error_prefix(errs, card_count as int);
        assert(errs.skip(card_count as int).len() == 0);
    }
    let mut transfers: Vec<CustodyAction> = Vec::new();
    let mut i: usize = 0;
    while i < card_count
        invariant
            0 <= i <= card_count,
            transfers@.len() == i,
            forall|j: int| 0 <= j < i ==> transfers@[j] == (CustodyAction {
                asset: old(cards)@[j].core_asset,
                new_owner: user,
            }),
        decreases card_count - i,
    {
        transfers.push(CustodyAction { asset: cards[i].core_asset, new_owner: user });
        i = i + 1;
    }
    proof {
        assert(transfers@ =~= spec_custody_to_user(old(cards)@, user));
    }
    mark_user_owned_all(cards, user);
    session.state = PackState::Accepted;
    Ok(transfers)
}

/// The whole `sellback_pack_v2` transition: within the decision window, the
/// buyback share of what was paid goes back to the user, every reserved
/// card returns to the vault as available, and the session is rejected.
/// The payout is `floor(paid_amount * buyback_bps / 10000)`; zero is valid.
pub open spec fn spec_sellback_pack_v2(
    cfg: VaultState,
    s0: PackSessionV2View,
    cards: Seq<CardRecord>,
    card_ids: Seq<Id32>,
    user: Id32,
    now: i64,
    token_accounts: Option<(TokenAccountInfo, TokenAccountInfo)>,
) -> Result<(PackSessionV2View, Seq<CardRecord>, PaymentAction), MochiError> {
    if s0.user != user {
        Err(MochiError::Unauthorized)
    } else if s0.state != PackState::PendingDecision {
        Err(MochiError::InvalidSessionState)
    } else if now > s0.expires_at {
        Err(MochiError::SessionExpired)
    } else if s0.paid_amount * cfg.buyback_bps > u64::MAX {
        Err(MochiError::MathOverflow)
    } else if cards.len() != s0.rare_card_keys.len() || card_ids.len() != cards.len() {
        Err(MochiError::InvalidCardCount)
    } else {
        let payout = spec_bps_apply(s0.paid_amount as int, cfg.buyback_bps as int) as u64;
        match spec_vault_payout(cfg, user, cfg.vault_authority, payout, s0.currency, token_accounts) {
            Err(e) => Err(e),
            Ok(refund) => match spec_first_error(
                spec_settle_errors(cards, card_ids, s0.rare_card_keys, user),
            ) {
                Err(e) => Err(e),
                Ok(_) => Ok(
                    (
                        PackSessionV2View { state: PackState::Rejected, ..s0 },
                        cards.map_values(|c: CardRecord| spec_released(c, cfg.vault_authority)),
                        refund,
                    ),
                ),
            },
        }
    }
}

/// Sell the pack back: refund the buyback share of what was paid, release
/// every reserved card to the vault, and reject the session.  Allowed while
/// `now <= expires_at`, refused after.
pub fn sellback_pack_v2(
    cfg: &VaultState,
    session: &mut PackSessionV2,
    cards: &mut Vec<CardRecord>,
    card_ids: &Vec<Id32>,
    user: Id32,
    now: i64,
    token_accounts: Option<(TokenAccountInfo, TokenAccountInfo)>,
) -> (r: Result<PaymentAction, MochiError>)
    ensures
        ({
            let o = spec_sellback_pack_v2(
                *cfg,
                old(session)@,
                old(cards)@,
                card_ids@,
                user,
                now,
                token_accounts,
            );
            &&& (r matches Ok(refund) ==> o matches Ok(ok) && final(session)@ == ok.0
                && final(cards)@ == ok.1 && refund == ok.2)
            &&& (r matches Err(e) ==> o matches Err(oe) && oe == e && *final(session) == *old(
                session,
            ) && final(cards)@ == old(cards)@)
        }),
{
    if session.user != user {
        return Err(MochiError::Unauthorized);
    }
    if session.state != PackState::PendingDecision {
        return Err(MochiError::InvalidSessionState);
    }
    if now > session.expires_at {
        return Err(MochiError::SessionExpired);
    }
    let payout = match crate::math::apply_bps(session.paid_amount, cfg.buyback_bps) {
        Ok(p) => p,
        Err(e) => {
            return Err(e);
        },
    };
    if cards.len() != session.rare_card_keys.len() || card_ids.len() != cards.len() {
        return Err(MochiError::InvalidCardCount);
    }
    let refund = match vault_payout(
        cfg,
        user,
        cfg.vault_authority,
        payout,
        session.currency,
        token_accounts,
    ) {
        Ok(p) => p,
        Err(e) => {
            return Err(e);
        },
    };
    let ghost errs = spec_settle_errors(old(cards)@, card_ids@, old(session)@.rare_card_keys, user);
    let card_count = cards.len();
    let mut i: usize = 0;
    while i < card_count
        invariant
            0 <= i <= card_count,
            forall|j: int| 0 <= j < i ==> errs[j] is None,
        decreases card_count - i,
    {
        let c = cards[i];
        match card_settle_error(&c, session.rare_card_keys[i], card_ids[i], user) {
            Some(e) => {
                proof {
                    lemma_first_error_prefix(errs, i as int);
                    assert(errs.skip(i as int)[0] == errs[i as int]);
                }
                return Err(e);
            },
            None => {},
        }
        i = i + 1;
    }
    proof {
        lemma_first_error_prefix(errs, card_count as int);
        assert(errs.skip(card_count as int).len() == 0);
    }
    mark_released_all(cards, cfg.vault_authority);
    session.state = PackState::Rejected;
    Ok(refund)
}

/// Why a reserved card cannot be expired, if it cannot: it must be the very
/// record the session reserved and still be reserved.  No holder check is
/// made — expiry is permissionless cleanup.
pub open spec fn spec_card_expire_error(
    c: CardRecord,
    expected_key: Id32,
    actual_key: Id32,
) -> Option<MochiError> {
    if actual_key != expected_key {
        Some(MochiError::CardKeyMismatch)
    } else if c.status != CardStatus::Reserved {
        Some(MochiError::CardNotReserved)
    } else {
        None
    }
}

/// Per-slot outcomes of validating an expiry batch.
pub open spec fn spec_expire_errors(
    cards: Seq<CardRecord>,
    card_ids: Seq<Id32>,
    reserved_keys: Seq<Id32>,
) -> Seq<Option<MochiError>> {
    Seq::new(cards.len(), |i: int| spec_card_expire_error(cards[i], reserved_keys[i], card_ids[i]))
}

fn card_expire_error(c: &CardRecord, expected_key: Id32, actual_key: Id32) -> (r: Option<
    MochiError,
>)
    ensures
        r == spec_card_expire_error(*c, expected_key, actual_key),
{
    if actual_key != expected_key {
        Some(MochiError::CardKeyMismatch)
    } else if c.status != CardStatus::Reserved {
        Some(MochiError::CardNotReserved)
    } else {
        None
    }
}

/// The whole `expire_session_v2` transition: strictly after the decision
/// window, the reservations are released with no payout and the session is
/// marked expired.
pub open spec fn spec_expire_session_v2(
    cfg: VaultState,
    s0: PackSessionV2View,
    cards: Seq<CardRecord>,
    card_ids: Seq<Id32>,
    now: i64,
) -> Result<(PackSessionV2View, Seq<CardRecord>), MochiError> {
    if s0.state != PackState::PendingDecision {
        Err(MochiError::InvalidSessionState)
    } else if now <= s0.expires_at {
        Err(MochiError::SessionNotExpired)
    } else if cards.len() != s0.rare_card_keys.len() || card_ids.len() != cards.len() {
        Err(MochiError::InvalidCardCount)
    } else {
        match spec_first_error(spec_expire_errors(cards, card_ids, s0.rare_card_keys)) {
            Err(e) => Err(e),
            Ok(_) => Ok(
                (
                    PackSessionV2View { state: PackState::Expired, ..s0 },
                    cards.map_values(|c: CardRecord| spec_released(c, cfg.vault_authority)),
                ),
            ),
        }
    }
}

/// Let a lapsed session expire: release its reservations with no payout.
/// Anyone may call this, but only strictly after `expires_at`.
pub fn expire_session_v2(
    cfg: &VaultState,
    session: &mut PackSessionV2,
    cards: &mut Vec<CardRecord>,
    card_ids: &Vec<Id32>,
    now: i64,
) -> (r: Result<(), MochiError>)
    ensures
        ({
            let o = spec_expire_session_v2(*cfg, old(session)@, old(cards)@, card_ids@, now);
            &&& (r matches Ok(u) ==> o matches Ok(ok) && final(session)@ == ok.0
                && final(cards)@ == ok.1)
            &&& (r matches Err(e) ==> o matches Err(oe) && oe == e && *final(session) == *old(
                session,
            ) && final(cards)@ == old(cards)@)
        }),
{
    if session.state != PackState::PendingDecision {
        return Err(MochiError::InvalidSessionState);
    }
    if now <= session.expires_at {
        return Err(MochiError::SessionNotExpired);
    }
    if cards.len() != session.rare_card_keys.len() || card_ids.len() != cards.len() {
        return Err(MochiError::InvalidCardCount);
    }
    let ghost errs = spec_expire_errors(old(cards)@, card_ids@, old(session)@.rare_card_keys);
    let card_count = cards.len();
    let mut i: usize = 0;
    while i < card_count
        invariant
            0 <= i <= card_count,
            forall|j: int| 0 <= j < i ==> errs[j] is None,
        decreases card_count - i,
    {
        let c = cards[i];
        match card_expire_error(&c, session.rare_card_keys[i], card_ids[i]) {
            Some(e) => {
                proof {
                    lemma_first_error_prefix(errs, i as int);
                    assert(errs.skip(i as int)[0] == errs[i as int]);
                }
                return Err(e);
            },
            None => {},
        }
        i = i + 1;
    }
    proof {
        lemma_first_error_prefix(errs, card_count as int);
        assert(errs.skip(card_count as int).len() == 0);
    }
    mark_released_all(cards, cfg.vault_authority);
    session.state = PackState::Expired;
    Ok(())
}

/// Admin hard reset of a lightweight session, bypassing the state and time
/// checks: supplied cards of this vault are released back to the vault —
/// mismatched entries are skipped, not refused — and the session returns to
/// its reusable default shape.  The boolean list reports, slot by slot,
/// which entries were released.
pub fn admin_force_close_v2(
    cfg: &VaultState,
    vault_id: Id32,
    admin: Id32,
    session: &mut PackSessionV2,
    cards: &mut Vec<CardRecord>,
) -> (r: Result<Vec<bool>, MochiError>)
    ensures
        r is Err <==> admin != cfg.admin,
        r matches Err(e) ==> e == MochiError::Unauthorized && *final(session) == *old(session)
            && final(cards)@ == old(cards)@,
        r matches Ok(freed) ==> ({
            &&& freed@.len() == old(cards)@.len()
            &&& final(cards)@.len() == old(cards)@.len()
            &&& forall|i: int| 0 <= i < old(cards)@.len() ==> #[trigger] freed@[i] == (old(
                cards,
            )@[i].vault_state == vault_id)
            &&& forall|i: int|
                0 <= i < old(cards)@.len() ==> #[trigger] final(cards)@[i] == (if old(
                    cards,
                )@[i].vault_state == vault_id {
                    spec_released(old(cards)@[i], cfg.vault_authority)
                } else {
                    old(cards)@[i]
                })
            &&& final(session)@ == (PackSessionV2View {
                currency: Currency::Sol,
                paid_amount: 0,
                created_at: 0,
                expires_at: 0,
                rare_card_keys: Seq::<Id32>::empty(),
                rare_templates: Seq::<u32>::empty(),
                state: PackState::Uninitialized,
                total_slots: PACK_CARD_COUNT as u8,
                ..old(session)@
            })
        }),
{
    if admin != cfg.admin {
        return Err(MochiError::Unauthorized);
    }
    let mut freed: Vec<bool> = Vec::new();
    let mut out: Vec<CardRecord> = Vec::new();
    let mut i: usize = 0;
    while i < cards.len()
        invariant
            0 <= i <= cards@.len(),
            cards@ == old(cards)@,
            freed@.len() == i,
            out@.len() == i,
            forall|j: int| 0 <= j < i ==> #[trigger] freed@[j] == (old(cards)@[j].vault_state
                == vault_id),
            forall|j: int|
                0 <= j < i ==> #[trigger] out@[j] == (if old(cards)@[j].vault_state == vault_id {
                    spec_released(old(cards)@[j], cfg.vault_authority)
                } else {
                    old(cards)@[j]
                }),
        decreases cards@.len() - i,
    {
        let c = cards[i];
        if c.vault_state == vault_id {
            out.push(CardRecord { status: CardStatus::Available, owner: cfg.vault_authority, ..c });
            freed.push(true);
        } else {
            out.push(c);
            freed.push(false);
        }
        i = i + 1;
    }
    *cards = out;
    session.currency = Currency::Sol;
    session.paid_amount = 0;
    session.created_at = 0;
    session.expires_at = 0;
    session.rare_card_keys = Vec::new();
    session.rare_templates = Vec::new();
    session.state = PackState::Uninitialized;
    session.total_slots = PACK_CARD_COUNT as u8;
    proof {
        assert(session@ =~= (PackSessionV2View {
            currency: Currency::Sol,
            paid_amount: 0,
            created_at: 0,
            expires_at: 0,
            rare_card_keys: Seq::<Id32>::empty(),
            rare_templates: Seq::<u32>::empty(),
            state: PackState::Uninitialized,
            total_slots: PACK_CARD_COUNT as u8,
            ..old(session)@
        }));
    }
    Ok(freed)
}

} // verus!
