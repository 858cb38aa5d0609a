use vstd::prelude::*;
use crate::actions::{CustodyAction, PaymentAction};
use crate::errors::{lemma_first_error_prefix, spec_first_error, MochiError};
use crate::ids::Id32;
use crate::math::{apply_bps, checked_add_i64, spec_bps_apply, spec_sum, sum_prices};
use crate::payment::{spec_token_mints_ok, spec_vault_payout, vault_payout};
use crate::records::{
    mark_released_all, mark_reserved_all, mark_user_owned_all, release_matching, spec_released,
    spec_reserved_for, spec_user_owned, CardRecord, CardStatus, Currency, PackState,
    TokenAccountInfo, VaultState,
};
use crate::session::{PackSession, PackSessionView, PACK_CARD_COUNT};

verus! {

/// Why a card cannot join a full-pack reservation, if it cannot: it must
/// belong to this vault and be available.
pub open spec fn spec_card_available_error(c: CardRecord, vault: Id32) -> Option<MochiError> {
    if c.vault_state != vault {
        Some(MochiError::VaultMismatch)
    } else if c.status != CardStatus::Available {
        Some(MochiError::CardNotAvailable)
    } else {
        None
    }
}

/// Per-slot outcomes of validating a full-pack reservation batch.
pub open spec fn spec_available_errors(cards: Seq<CardRecord>, vault: Id32) -> Seq<
    Option<MochiError>,
> {
    Seq::new(cards.len(), |i: int| spec_card_available_error(cards[i], vault))
}

fn card_available_error(c: &CardRecord, vault: Id32) -> (r: Option<MochiError>)
    ensures
        r == spec_card_available_error(*c, vault),
{
    if c.vault_state != vault {
        Some(MochiError::VaultMismatch)
    } else if c.status != CardStatus::Available {
        Some(MochiError::CardNotAvailable)
    } else {
        None
    }
}

/// Why a card cannot be claimed in the full-pack flow, if it cannot: it
/// must still be reserved and held in the caller's name.
pub open spec fn spec_card_reserved_error(c: CardRecord, user: Id32) -> Option<MochiError> {
    if c.status != CardStatus::Reserved {
        Some(MochiError::CardNotReserved)
    } else if c.owner != user {
        Some(MochiError::Unauthorized)
    } else {
        None
    }
}

/// Per-slot outcomes of validating a full-pack claim batch.
pub open spec fn spec_reserved_errors(cards: Seq<CardRecord>, user: Id32) -> Seq<
    Option<MochiError>,
> {
    Seq::new(cards.len(), |i: int| spec_card_reserved_error(cards[i], user))
}

fn card_reserved_error(c: &CardRecord, user: Id32) -> (r: Option<MochiError>)
    ensures
        r == spec_card_reserved_error(*c, user),
{
    if c.status != CardStatus::Reserved {
        Some(MochiError::CardNotReserved)
    } else if c.owner != user {
        Some(MochiError::Unauthorized)
    } else {
        None
    }
}

/// The payment collected by a full-pack open: the configured price, after
/// an explicit funds check for the native currency.
pub open spec fn spec_legacy_open_payment(
    cfg: VaultState,
    user: Id32,
    treasury: Id32,
    user_lamports: u64,
    currency: Currency,
    token_accounts: Option<(TokenAccountInfo, TokenAccountInfo)>,
) -> Result<PaymentAction, MochiError> {
    match currency {
        Currency::Sol => if cfg.pack_price_sol == 0 {
            Err(MochiError::InvalidPrice)
        } else if user_lamports < cfg.pack_price_sol {
            Err(MochiError::InsufficientFunds)
        } else {
            Ok(
                PaymentAction {
                    currency: Currency::Sol,
                    from: user,
                    to: treasury,
                    amount: cfg.pack_price_sol,
                },
            )
        },
        Currency::Token => match token_accounts {
            None => Err(MochiError::MissingTokenAccount),
            Some(accts) => if cfg.pack_price_usdc == 0 {
                Err(MochiError::InvalidPrice)
            } else if !spec_token_mints_ok(cfg.usdc_mint, accts.0, accts.1) {
                Err(MochiError::MintMismatch)
            } else {
                Ok(
                    PaymentAction {
                        currency: Currency::Token,
                        from: accts.0.address,
                        to: accts.1.address,
                        amount: cfg.pack_price_usdc,
                    },
                )
            },
        },
    }
}

fn legacy_open_payment(
    cfg: &VaultState,
    user: Id32,
    treasury: Id32,
    user_lamports: u64,
    currency: Currency,
    token_accounts: Option<(TokenAccountInfo, TokenAccountInfo)>,
) -> (r: Result<PaymentAction, MochiError>)
    ensures
        r == spec_legacy_open_payment(*cfg, user, treasury, user_lamports, currency, token_accounts),
{
    match currency {
        Currency::Sol => {
            if cfg.pack_price_sol == 0 {
                Err(MochiError::InvalidPrice)
            } else if user_lamports < cfg.pack_price_sol {
                Err(MochiError::InsufficientFunds)
            } else {
                Ok(
                    PaymentAction {
                        currency: Currency::Sol,
                        from: user,
                        to: treasury,
                        amount: cfg.pack_price_sol,
                    },
                )
            }
        },
        Currency::Token => {
            match token_accounts {
                None => Err(MochiError::MissingTokenAccount),
                Some((user_token, vault_token)) => {
                    let mints_ok = match cfg.usdc_mint {
                        Some(m) => user_token.mint == m && vault_token.mint == m,
                        None => true,
                    };
                    if cfg.pack_price_usdc == 0 {
                        Err(MochiError::InvalidPrice)
                    } else if !mints_ok {
                        Err(MochiError::MintMismatch)
                    } else {
                        Ok(
                            PaymentAction {
                                currency: Currency::Token,
                                from: user_token.address,
                                to: vault_token.address,
                                amount: cfg.pack_price_usdc,
                            },
                        )
                    }
                },
            }
        },
    }
}

/// The whole full-pack `open_pack_start` transition: all eleven slots are
/// reserved at once and the per-slot reference prices are recorded.
pub open spec fn spec_open_pack_start(
    cfg: VaultState,
    vault_id: Id32,
    treasury: Id32,
    s0: PackSessionView,
    cards: Seq<CardRecord>,
    card_ids: Seq<Id32>,
    user: Id32,
    user_lamports: u64,
    now: i64,
    currency: Currency,
    client_seed_hash: Id32,
    rarity_prices: Seq<u64>,
    token_accounts: Option<(TokenAccountInfo, TokenAccountInfo)>,
) -> Result<(PackSessionView, Seq<CardRecord>, PaymentAction), MochiError> {
    if cards.len() != PACK_CARD_COUNT as int || card_ids.len() != PACK_CARD_COUNT as int {
        Err(MochiError::InvalidCardCount)
    } else {
        match spec_legacy_open_payment(cfg, user, treasury, user_lamports, currency, token_accounts) {
            Err(e) => Err(e),
            Ok(payment) => if s0.state == PackState::PendingDecision {
                Err(MochiError::SessionExists)
            } else if !(i64::MIN <= now + cfg.claim_window_seconds <= i64::MAX) {
                Err(MochiError::MathOverflow)
            } else {
                match spec_first_error(spec_available_errors(cards, vault_id)) {
                    Err(e) => Err(e),
                    Ok(_) => Ok(
                        (
                            PackSessionView {
                                user,
                                currency,
                                paid_amount: payment.amount,
                                created_at: now,
                                expires_at: (now + cfg.claim_window_seconds) as i64,
                                card_record_keys: card_ids,
                                state: PackState::PendingDecision,
                                client_seed_hash,
                                rarity_prices,
                            },
                            cards.map_values(|c: CardRecord| spec_reserved_for(c, user)),
                            payment,
                        ),
                    ),
                }
            },
        }
    }
}

/// Open a full pack: collect the price and reserve all eleven slots in one
/// call.  A session still pending decision refuses a second open; nothing
/// changes unless every check passes.
pub fn open_pack_start(
    cfg: &VaultState,
    vault_id: Id32,
    treasury: Id32,
    session: &mut PackSession,
    cards: &mut Vec<CardRecord>,
    card_ids: Vec<Id32>,
    user: Id32,
    user_lamports: u64,
    now: i64,
    currency: Currency,
    client_seed_hash: Id32,
    rarity_prices: Vec<u64>,
    token_accounts: Option<(TokenAccountInfo, TokenAccountInfo)>,
) -> (r: Result<PaymentAction, MochiError>)
    ensures
        ({
            let o = spec_open_pack_start(
                *cfg,
                vault_id,
                treasury,
                old(session)@,
                old(cards)@,
                card_ids@,
                user,
                user_lamports,
                now,
                currency,
                client_seed_hash,
                rarity_prices@,
                token_accounts,
            );
            &&& (r matches Ok(payment) ==> o matches Ok(ok) && final(session)@ == ok.0
                && final(cards)@ == ok.1 && payment == ok.2)
            &&& (r matches Err(e) ==> o matches Err(oe) && oe == e && *final(session) == *old(
                session,
            ) && final(cards)@ == old(cards)@)
        }),
{
    if cards.len() != PACK_CARD_COUNT || card_ids.len() != PACK_CARD_COUNT {
        return Err(MochiError::InvalidCardCount);
    }
    let pack_payment = match legacy_open_payment(
        cfg,
        user,
        treasury,
        user_lamports,
        currency,
        token_accounts,
    ) {
        Ok(p) => p,
        Err(e) => {
            return Err(e);
        },
    };
    if session.state == PackState::PendingDecision {
        return Err(MochiError::SessionExists);
    }
    let expires_at: i64 = match checked_add_i64(now, cfg.claim_window_seconds) {
        Ok(t) => t,
        Err(e) => {
            return Err(e);
        },
    };
    let ghost errs = spec_available_errors(old(cards)@, vault_id);
    let card_count = cards.len();
    let mut i: usize = 0;
    while i < card_count
        invariant
            0 <= i <= card_count,
            forall|j: int| 0 <= j < i ==> errs[j] is None,
        decreases card_count - i,
    {
        let c = cards[i];
        match card_available_error(&c, vault_id) {
            Some(e) => {
                proof {
                    lemma_first_error_prefix(errs, i as int);
                    assert(errs.skip(i as int)[0] == errs[i as int]);
                }
                return Err(e);
            },
            None => {},
        }
        i = i + 1;
    }
    proof {
        lemma_first_error_prefix(errs, card_count as int);
        assert(errs.skip(card_count as int).len() == 0);
    }
    mark_reserved_all(cards, user);
    session.user = user;
    session.currency = currency;
    session.paid_amount = pack_payment.amount;
    session.created_at = now;
    session.expires_at = expires_at;
    session.card_record_keys = card_ids;
    session.state = PackState::PendingDecision;
    session.client_seed_hash = client_seed_hash;
    session.rarity_prices = rarity_prices;
    Ok(pack_payment)
}

/// The reference-price list as the full-pack claim leaves it: defensively
/// truncated to the pack size.
pub open spec fn spec_truncated_prices(prices: Seq<u64>) -> Seq<u64> {
    if prices.len() > PACK_CARD_COUNT as int {
        prices.take(PACK_CARD_COUNT as int)
    } else {
        prices
    }
}

/// The whole full-pack `claim_pack` transition: within the decision window
/// every slot's asset is handed to the user and the session is accepted.
pub open spec fn spec_claim_pack(
    s0: PackSessionView,
    cards: Seq<CardRecord>,
    user: Id32,
    now: i64,
) -> Result<(PackSessionView, Seq<CardRecord>, Seq<CustodyAction>), MochiError> {
    if s0.user != user {
        Err(MochiError::Unauthorized)
    } else if s0.state != PackState::PendingDecision {
        Err(MochiError::InvalidSessionState)
    } else if now > s0.expires_at {
        Err(MochiError::SessionExpired)
    } else if cards.len() != PACK_CARD_COUNT as int {
        Err(MochiError::InvalidCardCount)
    } else {
        match spec_first_error(spec_reserved_errors(cards, user)) {
            Err(e) => Err(e),
            Ok(_) => Ok(
                (
                    PackSessionView {
                        state: PackState::Accepted,
                        rarity_prices: spec_truncated_prices(s0.rarity_prices),
                        ..s0
                    },
                    cards.map_values(|c: CardRecord| spec_user_owned(c, user)),
                    crate::pack::spec_custody_to_user(cards, user),
                ),
            ),
        }
    }
}

/// Keep a full pack: transfer all eleven slots to the user in one call and
/// accept the session.
pub fn claim_pack(
    session: &mut PackSession,
    cards: &mut Vec<CardRecord>,
    user: Id32,
    now: i64,
) -> (r: Result<Vec<CustodyAction>, MochiError>)
    ensures
        ({
            let o = spec_claim_pack(old(session)@, old(cards)@, user, now);
            &&& (r matches Ok(transfers) ==> o matches Ok(ok) && final(session)@ == ok.0
                && final(cards)@ == ok.1 && transfers@ == ok.2)
            &&& (r matches Err(e) ==> o matches Err(oe) && oe == e && *final(session) == *old(
                session,
            ) && final(cards)@ == old(cards)@)
        }),
{
    if session.user != user {
        return Err(MochiError::Unauthorized);
    }
    if session.state != PackState::PendingDecision {
        return Err(MochiError::InvalidSessionState);
    }
    if now > session.expires_at {
        return Err(MochiError::SessionExpired);
    }
    if cards.len() != PACK_CARD_COUNT {
        return Err(MochiError::InvalidCardCount);
    }
    let ghost errs = spec_reserved_errors(old(cards)@, user);
    let card_count = cards.len();
    let mut i: usize = 0;
    while i < card_count
        invariant
            0 <= i <= card_count,
            forall|j: int| 0 <= j < i ==> errs[j] is None,
        decreases card_count - i,
    {
        let c = cards[i];
        match card_reserved_error(&c, user) {
            Some(e) => {
                proof {
                    lemma_first_error_prefix(errs, i as int);
                    assert(errs.skip(i as int)[0] == errs[i as int]);
                }
                return Err(e);
            },
            None => {},
        }
        i = i + 1;
    }
    proof {
        lemma_first_error_prefix(errs, card_count as int);
        assert(errs.skip(card_count as int).len() == 0);
    }
    let mut transfers: Vec<CustodyAction> = Vec::new();
    let mut i: usize = 0;
    while i < card_count
        invariant
            0 <= i <= card_count,
            transfers@.len() == i,
            forall|j: int| 0 <= j < i ==> transfers@[j] == (CustodyAction {
                asset: old(cards)@[j].core_asset,
                new_owner: user,
            }),
        decreases card_count - i,
    {
        transfers.push(CustodyAction { asset: cards[i].core_asset, new_owner: user });
        i = i + 1;
    }
    proof {
        assert(transfers@ =~= crate::pack::spec_custody_to_user(old(cards)@, user));
    }
    if session.rarity_prices.len() > PACK_CARD_COUNT {
        session.rarity_prices.truncate(PACK_CARD_COUNT);
    }
    mark_user_owned_all(cards, user);
    session.state = PackState::Accepted;
    Ok(transfers)
}

/// The shared transition of the bounded claim batches: the supplied slots
/// are handed to the user one batch at a time, and the session stays
/// pending until a finalize confirms completeness.
pub open spec fn spec_claim_pack_batch(
    s0: PackSessionView,
    cards: Seq<CardRecord>,
    user: Id32,
    now: i64,
    min_len: int,
    max_len: int,
) -> Result<(Seq<CardRecord>, Seq<CustodyAction>), MochiError> {
    if s0.user != user {
        Err(MochiError::Unauthorized)
    } else if s0.state != PackState::PendingDecision {
        Err(MochiError::InvalidSessionState)
    } else if now > s0.expires_at {
        Err(MochiError::SessionExpired)
    } else if cards.len() < min_len || cards.len() > max_len {
        Err(MochiError::InvalidCardCount)
    } else {
        match spec_first_error(spec_reserved_errors(cards, user)) {
            Err(e) => Err(e),
            Ok(_) => Ok(
                (
                    cards.map_values(|c: CardRecord| spec_user_owned(c, user)),
                    crate::pack::spec_custody_to_user(cards, user),
                ),
            ),
        }
    }
}

fn claim_batch_bounded(
    session: &PackSession,
    cards: &mut Vec<CardRecord>,
    user: Id32,
    now: i64,
    min_len: usize,
    max_len: usize,
) -> (r: Result<Vec<CustodyAction>, MochiError>)
    ensures
        ({
            let o = spec_claim_pack_batch(
                session@,
                old(cards)@,
                user,
                now,
                min_len as int,
                max_len as int,
            );
            &&& (r matches Ok(transfers) ==> o matches Ok(ok) && final(cards)@ == ok.0
                && transfers@ == ok.1)
            &&& (r matches Err(e) ==> o matches Err(oe) && oe == e && final(cards)@ == old(cards)@)
        }),
{
    if session.user != user {
        return Err(MochiError::Unauthorized);
    }
    if session.state != PackState::PendingDecision {
        return Err(MochiError::InvalidSessionState);
    }
    if now > session.expires_at {
        return Err(MochiError::SessionExpired);
    }
    if cards.len() < min_len || cards.len() > max_len {
        return Err(MochiError::InvalidCardCount);
    }
    let ghost errs = spec_reserved_errors(old(cards)@, user);
    let card_count = cards.len();
    let mut i: usize = 0;
    while i < card_count
        invariant
            0 <= i <= card_count,
            forall|j: int| 0 <= j < i ==> errs[j] is None,
        decreases card_count - i,
    {
        let c = cards[i];
        match card_reserved_error(&c, user) {
            Some(e) => {
                proof {
                    lemma_first_error_prefix(errs, i as int);
                    assert(errs.skip(i as int)[0] == errs[i as int]);
                }
                return Err(e);
            },
            None => {},
        }
        i = i + 1;
    }
    proof {
        lemma_first_error_prefix(errs, card_count as int);
        assert(errs.skip(card_count as int).len() == 0);
    }
    let mut transfers: Vec<CustodyAction> = Vec::new();
    let mut i: usize = 0;
    while i < card_count
        invariant
            0 <= i <= card_count,
            transfers@.len() == i,
            forall|j: int| 0 <= j < i ==> transfers@[j] == (CustodyAction {
                asset: old(cards)@[j].core_asset,
                new_owner: user,
            }),
        decreases card_count - i,
    {
        transfers.push(CustodyAction { asset: cards[i].core_asset, new_owner: user });
        i = i + 1;
    }
    proof {
        assert(transfers@ =~= crate::pack::spec_custody_to_user(old(cards)@, user));
    }
    mark_user_owned_all(cards, user);
    Ok(transfers)
}

/// Claim one or two slots of a pending pack, to bound the cost of a single
/// call.  The session stays pending; `finalize_claim` closes it once every
/// slot is through.
pub fn claim_pack_batch(
    session: &PackSession,
    cards: &mut Vec<CardRecord>,
    user: Id32,
    now: i64,
) -> (r: Result<Vec<CustodyAction>, MochiError>)
    ensures
        ({
            let o = spec_claim_pack_batch(session@, old(cards)@, user, now, 1, 2);
            &&& (r matches Ok(transfers) ==> o matches Ok(ok) && final(cards)@ == ok.0
                && transfers@ == ok.1)
            &&& (r matches Err(e) ==> o matches Err(oe) && oe == e && final(cards)@ == old(cards)@)
        }),
{
    claim_batch_bounded(session, cards, user, now, 1, 2)
}

/// Claim exactly three slots of a pending pack in one call.
pub fn claim_pack_batch3(
    session: &PackSession,
    cards: &mut Vec<CardRecord>,
    user: Id32,
    now: i64,
) -> (r: Result<Vec<CustodyAction>, MochiError>)
    ensures
        ({
            let o = spec_claim_pack_batch(session@, old(cards)@, user, now, 3, 3);
            &&& (r matches Ok(transfers) ==> o matches Ok(ok) && final(cards)@ == ok.0
                && transfers@ == ok.1)
            &&& (r matches Err(e) ==> o matches Err(oe) && oe == e && final(cards)@ == old(cards)@)
        }),
{
    claim_batch_bounded(session, cards, user, now, 3, 3)
}

/// Why a slot blocks finalization, if it does: it must be the very record
/// the session reserved for that slot, and after the batched claims it
/// must already be user-owned in the caller's name.
pub open spec fn spec_card_finalized_error(
    c: CardRecord,
    expected_key: Id32,
    actual_key: Id32,
    user: Id32,
) -> Option<MochiError> {
    if actual_key != expected_key {
        Some(MochiError::CardKeyMismatch)
    } else if c.status != CardStatus::UserOwned {
        Some(MochiError::CardNotReserved)
    } else if c.owner != user {
        Some(MochiError::Unauthorized)
    } else {
        None
    }
}

/// Per-slot outcomes of verifying finalization against the keys the
/// session reserved.
pub open spec fn spec_finalized_errors(
    cards: Seq<CardRecord>,
    card_ids: Seq<Id32>,
    reserved_keys: Seq<Id32>,
    user: Id32,
) -> Seq<Option<MochiError>> {
    Seq::new(
        cards.len(),
        |i: int| spec_card_finalized_error(cards[i], reserved_keys[i], card_ids[i], user),
    )
}

fn card_finalized_error(c: &CardRecord, expected_key: Id32, actual_key: Id32, user: Id32) -> (r:
    Option<MochiError>)
    ensures
        r == spec_card_finalized_error(*c, expected_key, actual_key, user),
{
    if actual_key != expected_key {
        Some(MochiError::CardKeyMismatch)
    } else if c.status != CardStatus::UserOwned {
        Some(MochiError::CardNotReserved)
    } else if c.owner != user {
        Some(MochiError::Unauthorized)
    } else {
        None
    }
}

/// The whole `finalize_claim` transition: the session is accepted only
/// after every slot it reserved — all of them, matched by key — is
/// verified to have reached the user's hands.  Batching splits one logical
/// settlement across independent calls, so acceptance rests on this
/// re-verification of every slot's terminal status, not on the earlier
/// batches having succeeded.
pub open spec fn spec_finalize_claim(
    s0: PackSessionView,
    cards: Seq<CardRecord>,
    card_ids: Seq<Id32>,
    user: Id32,
    now: i64,
) -> Result<PackSessionView, MochiError> {
    if s0.user != user {
        Err(MochiError::Unauthorized)
    } else if s0.state != PackState::PendingDecision {
        Err(MochiError::InvalidSessionState)
    } else if now > s0.expires_at {
        Err(MochiError::SessionExpired)
    } else if cards.len() != s0.card_record_keys.len() || card_ids.len() != cards.len() {
        Err(MochiError::InvalidCardCount)
    } else {
        match spec_first_error(spec_finalized_errors(cards, card_ids, s0.card_record_keys, user)) {
            Err(e) => Err(e),
            Ok(_) => Ok(PackSessionView { state: PackState::Accepted, ..s0 }),
        }
    }
}

/// Close a batched claim: verify that every slot the session reserved —
/// and no other set of records — reached the user's hands, then accept
/// the session.
pub fn finalize_claim(
    session: &mut PackSession,
    cards: &Vec<CardRecord>,
    card_ids: &Vec<Id32>,
    user: Id32,
    now: i64,
) -> (r: Result<(), MochiError>)
    ensures
        ({
            let o = spec_finalize_claim(old(session)@, cards@, card_ids@, user, now);
            &&& (r is Ok ==> (o matches Ok(ok) && final(session)@ == ok))
            &&& (r matches Err(e) ==> o matches Err(oe) && oe == e && *final(session) == *old(
                session,
            ))
        }),
{
    if session.user != user {
        return Err(MochiError::Unauthorized);
    }
    if session.state != PackState::PendingDecision {
        return Err(MochiError::InvalidSessionState);
    }
    if now > session.expires_at {
        return Err(MochiError::SessionExpired);
    }
    if cards.len() != session.card_record_keys.len() || card_ids.len() != cards.len() {
        return Err(MochiError::InvalidCardCount);
    }
    let ghost errs = spec_finalized_errors(
        cards@,
        card_ids@,
        old(session)@.card_record_keys,
        user,
    );
    let card_count = cards.len();
    let mut i: usize = 0;
    while i < card_count
        invariant
            0 <= i <= card_count,
            forall|j: int| 0 <= j < i ==> errs[j] is None,
        decreases card_count - i,
    {
        let c = cards[i];
        match card_finalized_error(&c, session.card_record_keys[i], card_ids[i], user) {
            Some(e) => {
                proof {
                    lemma_first_error_prefix(errs, i as int);
                    assert(errs.skip(i as int)[0] == errs[i as int]);
                }
                return Err(e);
            },
            None => {},
        }
        i = i + 1;
    }
    proof {
        lemma_first_error_prefix(errs, card_count as int);
        assert(errs.skip(card_count as int).len() == 0);
    }
    session.state = PackState::Accepted;
    Ok(())
}

/// The whole full-pack `sellback_pack` transition: the payout is the
/// buyback share of the summed per-slot reference prices —
/// `floor(sum(prices) * buyback_bps / 10000)`, truncating, zero being a
/// valid payout — every slot returns to the vault, and the session is
/// rejected.
pub open spec fn spec_sellback_pack(
    cfg: VaultState,
    s0: PackSessionView,
    cards: Seq<CardRecord>,
    user: Id32,
    now: i64,
    treasury: Id32,
    token_accounts: Option<(TokenAccountInfo, TokenAccountInfo)>,
) -> Result<(PackSessionView, Seq<CardRecord>, PaymentAction), MochiError> {
    if s0.user != user {
        Err(MochiError::Unauthorized)
    } else if s0.state != PackState::PendingDecision {
        Err(MochiError::InvalidSessionState)
    } else if now > s0.expires_at {
        Err(MochiError::SessionExpired)
    } else if spec_sum(s0.rarity_prices) > u64::MAX {
        Err(MochiError::MathOverflow)
    } else if spec_sum(s0.rarity_prices) * cfg.buyback_bps > u64::MAX {
        Err(MochiError::MathOverflow)
    } else if cards.len() != PACK_CARD_COUNT as int {
        Err(MochiError::InvalidCardCount)
    } else {
        let payout = spec_bps_apply(spec_sum(s0.rarity_prices), cfg.buyback_bps as int) as u64;
        match spec_vault_payout(cfg, user, treasury, payout, s0.currency, token_accounts) {
            Err(e) => Err(e),
            Ok(refund) => Ok(
                (
                    PackSessionView { state: PackState::Rejected, ..s0 },
                    cards.map_values(|c: CardRecord| spec_released(c, cfg.vault_authority)),
                    refund,
                ),
            ),
        }
    }
}

/// Sell a full pack back: refund the buyback share of the recorded slot
/// prices, release every slot to the vault, and reject the session.
pub fn sellback_pack(
    cfg: &VaultState,
    session: &mut PackSession,
    cards: &mut Vec<CardRecord>,
    user: Id32,
    now: i64,
    treasury: Id32,
    token_accounts: Option<(TokenAccountInfo, TokenAccountInfo)>,
) -> (r: Result<PaymentAction, MochiError>)
    ensures
        ({
            let o = spec_sellback_pack(
                *cfg,
                old(session)@,
                old(cards)@,
                user,
                now,
                treasury,
                token_accounts,
            );
            &&& (r matches Ok(refund) ==> o matches Ok(ok) && final(session)@ == ok.0
                && final(cards)@ == ok.1 && refund == ok.2)
            &&& (r matches Err(e) ==> o matches Err(oe) && oe == e && *final(session) == *old(
                session,
            ) && final(cards)@ == old(cards)@)
        }),
{
    if session.user != user {
        return Err(MochiError::Unauthorized);
    }
    if session.state != PackState::PendingDecision {
        return Err(MochiError::InvalidSessionState);
    }
    if now > session.expires_at {
        return Err(MochiError::SessionExpired);
    }
    let total = match sum_prices(&session.rarity_prices) {
        Ok(t) => t,
        Err(e) => {
            return Err(e);
        },
    };
    let payout = match apply_bps(total, cfg.buyback_bps) {
        Ok(p) => p,
        Err(e) => {
            return Err(e);
        },
    };
    if cards.len() != PACK_CARD_COUNT {
        return Err(MochiError::InvalidCardCount);
    }
    let refund = match vault_payout(cfg, user, treasury, payout, session.currency, token_accounts) {
        Ok(p) => p,
        Err(e) => {
            return Err(e);
        },
    };
    mark_released_all(cards, cfg.vault_authority);
    session.state = PackState::Rejected;
    Ok(refund)
}

/// The whole full-pack `expire_session` transition: strictly after the
/// decision window the reservations are released with no payout.
pub open spec fn spec_expire_session(
    cfg: VaultState,
    s0: PackSessionView,
    cards: Seq<CardRecord>,
    now: i64,
) -> Result<(PackSessionView, Seq<CardRecord>), MochiError> {
    if s0.state != PackState::PendingDecision {
        Err(MochiError::InvalidSessionState)
    } else if now <= s0.expires_at {
        Err(MochiError::SessionNotExpired)
    } else if cards.len() != PACK_CARD_COUNT as int {
        Err(MochiError::InvalidCardCount)
    } else {
        Ok(
            (
                PackSessionView { state: PackState::Expired, ..s0 },
                cards.map_values(|c: CardRecord| spec_released(c, cfg.vault_authority)),
            ),
        )
    }
}

/// Let a lapsed full-pack session expire: release its slots with no
/// payout.  Anyone may call this, but only strictly after `expires_at`.
pub fn expire_session(
    cfg: &VaultState,
    session: &mut PackSession,
    cards: &mut Vec<CardRecord>,
    now: i64,
) -> (r: Result<(), MochiError>)
    ensures
        ({
            let o = spec_expire_session(*cfg, old(session)@, old(cards)@, now);
            &&& (r is Ok ==> (o matches Ok(ok) && final(session)@ == ok.0 && final(cards)@ == ok.1))
            &&& (r matches Err(e) ==> o matches Err(oe) && oe == e && *final(session) == *old(
                session,
            ) && final(cards)@ == old(cards)@)
        }),
{
    if session.state != PackState::PendingDecision {
        return Err(MochiError::InvalidSessionState);
    }
    if now <= session.expires_at {
        return Err(MochiError::SessionNotExpired);
    }
    if cards.len() != PACK_CARD_COUNT {
        return Err(MochiError::InvalidCardCount);
    }
    mark_released_all(cards, cfg.vault_authority);
    session.state = PackState::Expired;
    Ok(())
}

/// Admin-only forced expiry: the same release as `expire_session`, but
/// bypassing the time check — a pending session can be expired at any
/// moment by the admin.
pub fn admin_force_expire(
    cfg: &VaultState,
    admin: Id32,
    session: &mut PackSession,
    cards: &mut Vec<CardRecord>,
) -> (r: Result<(), MochiError>)
    ensures
        r is Err <==> admin != cfg.admin || old(session)@.state != PackState::PendingDecision
            || old(cards)@.len() != PACK_CARD_COUNT as int,
        r matches Err(e) ==> *final(session) == *old(session) && final(cards)@ == old(cards)@ && (
        if admin != cfg.admin {
            e == MochiError::Unauthorized
        } else if old(session)@.state != PackState::PendingDecision {
            e == MochiError::InvalidSessionState
        } else {
            e == MochiError::InvalidCardCount
        }),
        r is Ok ==> final(session)@ == (PackSessionView {
            state: PackState::Expired,
            ..old(session)@
        }) && final(cards)@ == old(cards)@.map_values(
            |c: CardRecord| spec_released(c, cfg.vault_authority),
        ),
{
    if admin != cfg.admin {
        return Err(MochiError::Unauthorized);
    }
    if session.state != PackState::PendingDecision {
        return Err(MochiError::InvalidSessionState);
    }
    if cards.len() != PACK_CARD_COUNT {
        return Err(MochiError::InvalidCardCount);
    }
    mark_released_all(cards, cfg.vault_authority);
    session.state = PackState::Expired;
    Ok(())
}

/// The full-pack session in its reusable default shape: everything reset
/// but the user binding.
pub open spec fn spec_reset_session(s0: PackSessionView) -> PackSessionView {
    PackSessionView {
        currency: Currency::Sol,
        paid_amount: 0,
        created_at: 0,
        expires_at: 0,
        card_record_keys: Seq::new(PACK_CARD_COUNT as nat, |i: int| Id32::spec_zero()),
        state: PackState::Uninitialized,
        client_seed_hash: Id32::spec_zero(),
        rarity_prices: Seq::<u64>::empty(),
        ..s0
    }
}

fn reset_session_record(session: &mut PackSession)
    ensures
        final(session)@ == spec_reset_session(old(session)@),
{
    session.currency = Currency::Sol;
    session.paid_amount = 0;
    session.created_at = 0;
    session.expires_at = 0;
    let mut keys: Vec<Id32> = Vec::new();
    let mut i: usize = 0;
    while i < PACK_CARD_COUNT
        invariant
            0 <= i <= PACK_CARD_COUNT,
            keys@.len() == i,
            forall|j: int| 0 <= j < i ==> keys@[j] == Id32::spec_zero(),
        decreases PACK_CARD_COUNT - i,
    {
        keys.push(Id32::zero());
        i = i + 1;
    }
    session.card_record_keys = keys;
    session.state = PackState::Uninitialized;
    session.client_seed_hash = Id32::zero();
    session.rarity_prices = Vec::new();
    proof {
        assert(session@.card_record_keys =~= Seq::new(
            PACK_CARD_COUNT as nat,
            |i: int| Id32::spec_zero(),
        ));
        assert(session@ =~= spec_reset_session(old(session)@));
    }
}

/// Admin reset of a settled full-pack session: refused while a decision is
/// still pending; otherwise supplied cards of this vault are released —
/// mismatches skipped, reported per entry — and the session returns to its
/// default shape so the user can open again.
pub fn admin_reset_session(
    cfg: &VaultState,
    vault_id: Id32,
    admin: Id32,
    session: &mut PackSession,
    cards: &mut Vec<CardRecord>,
) -> (r: Result<Vec<bool>, MochiError>)
    ensures
        r is Err <==> admin != cfg.admin || old(session)@.state == PackState::PendingDecision,
        r matches Err(e) ==> *final(session) == *old(session) && final(cards)@ == old(cards)@ && (
        if admin != cfg.admin {
            e == MochiError::Unauthorized
        } else {
            e == MochiError::InvalidSessionState
        }),
        r matches Ok(freed) ==> ({
            &&& freed@.len() == old(cards)@.len()
            &&& final(cards)@.len() == old(cards)@.len()
            &&& forall|i: int| 0 <= i < old(cards)@.len() ==> #[trigger] freed@[i] == (old(
                cards,
            )@[i].vault_state == vault_id)
            &&& forall|i: int|
                0 <= i < old(cards)@.len() ==> #[trigger] final(cards)@[i] == (if old(
                    cards,
                )@[i].vault_state == vault_id {
                    spec_released(old(cards)@[i], cfg.vault_authority)
                } else {
                    old(cards)@[i]
                })
            &&& final(session)@ == spec_reset_session(old(session)@)
        }),
{
    if admin != cfg.admin {
        return Err(MochiError::Unauthorized);
    }
    if session.state == PackState::PendingDecision {
        return Err(MochiError::InvalidSessionState);
    }
    let freed = release_matching(cards, vault_id, cfg.vault_authority);
    reset_session_record(session);
    Ok(freed)
}

/// A user's own reset of a settled session: refused while a decision is
/// still pending; otherwise supplied cards of this vault are released and
/// the session record is returned to its default shape, ready for the
/// ledger account to be closed back to the user.
pub fn user_reset_session(
    cfg: &VaultState,
    vault_id: Id32,
    session: &mut PackSession,
    cards: &mut Vec<CardRecord>,
) -> (r: Result<Vec<bool>, MochiError>)
    ensures
        r is Err <==> old(session)@.state == PackState::PendingDecision,
        r matches Err(e) ==> e == MochiError::InvalidSessionState && *final(session) == *old(
            session,
        ) && final(cards)@ == old(cards)@,
        r matches Ok(freed) ==> ({
            &&& freed@.len() == old(cards)@.len()
            &&& final(cards)@.len() == old(cards)@.len()
            &&& forall|i: int| 0 <= i < old(cards)@.len() ==> #[trigger] freed@[i] == (old(
                cards,
            )@[i].vault_state == vault_id)
            &&& forall|i: int|
                0 <= i < old(cards)@.len() ==> #[trigger] final(cards)@[i] == (if old(
                    cards,
                )@[i].vault_state == vault_id {
                    spec_released(old(cards)@[i], cfg.vault_authority)
                } else {
                    old(cards)@[i]
                })
            &&& final(session)@ == spec_reset_session(old(session)@)
        }),
{
    if session.state == PackState::PendingDecision {
        return Err(MochiError::InvalidSessionState);
    }
    let freed = release_matching(cards, vault_id, cfg.vault_authority);
    reset_session_record(session);
    Ok(freed)
}

/// Admin-only close of a full-pack session regardless of its state: the
/// supplied cards of this vault are released — mismatches skipped, reported
/// per entry — and the session record is zeroed, ready for the ledger
/// account to be closed back to the admin.
pub fn admin_force_close_session(
    cfg: &VaultState,
    vault_id: Id32,
    admin: Id32,
    session: &mut PackSession,
    cards: &mut Vec<CardRecord>,
) -> (r: Result<Vec<bool>, MochiError>)
    ensures
        r is Err <==> admin != cfg.admin,
        r matches Err(e) ==> e == MochiError::Unauthorized && *final(session) == *old(session)
            && final(cards)@ == old(cards)@,
        r matches Ok(freed) ==> ({
            &&& freed@.len() == old(cards)@.len()
            &&& final(cards)@.len() == old(cards)@.len()
            &&& forall|i: int| 0 <= i < old(cards)@.len() ==> #[trigger] freed@[i] == (old(
                cards,
            )@[i].vault_state == vault_id)
            &&& forall|i: int|
                0 <= i < old(cards)@.len() ==> #[trigger] final(cards)@[i] == (if old(
                    cards,
                )@[i].vault_state == vault_id {
                    spec_released(old(cards)@[i], cfg.vault_authority)
                } else {
                    old(cards)@[i]
                })
            &&& final(session)@ == spec_reset_session(old(session)@)
        }),
{
    if admin != cfg.admin {
        return Err(MochiError::Unauthorized);
    }
    let freed = release_matching(cards, vault_id, cfg.vault_authority);
    reset_session_record(session);
    Ok(freed)
}

/// Admin-only best-effort release of any batch of card records, with no
/// session involved: cards of this vault return to the custody authority
/// as available, mismatches are skipped and reported per entry.
pub fn admin_reset_cards(
    cfg: &VaultState,
    vault_id: Id32,
    admin: Id32,
    cards: &mut Vec<CardRecord>,
) -> (r: Result<Vec<bool>, MochiError>)
    ensures
        r is Err <==> admin != cfg.admin,
        r matches Err(e) ==> e == MochiError::Unauthorized && final(cards)@ == old(cards)@,
        r matches Ok(freed) ==> ({
            &&& freed@.len() == old(cards)@.len()
            &&& final(cards)@.len() == old(cards)@.len()
            &&& forall|i: int| 0 <= i < old(cards)@.len() ==> #[trigger] freed@[i] == (old(
                cards,
            )@[i].vault_state == vault_id)
            &&& forall|i: int|
                0 <= i < old(cards)@.len() ==> #[trigger] final(cards)@[i] == (if old(
                    cards,
                )@[i].vault_state == vault_id {
                    spec_released(old(cards)@[i], cfg.vault_authority)
                } else {
                    old(cards)@[i]
                })
        }),
{
    if admin != cfg.admin {
        return Err(MochiError::Unauthorized);
    }
    Ok(release_matching(cards, vault_id, cfg.vault_authority))
}

} // verus!
