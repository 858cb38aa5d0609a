use vstd::prelude::*;
use crate::actions::{CustodyAction, PaymentAction};
use crate::errors::{lemma_first_error_none, lemma_first_error_some, MochiError};
use crate::ids::Id32;
use crate::math::spec_bps_apply;
use crate::pack::{
    spec_card_settle_error, spec_claim_pack_v2, spec_expire_session_v2, spec_open_pack,
    spec_reserve_errors, spec_sellback_pack_v2, spec_settle_errors, OpenPackReceipt,
};
use crate::payment::spec_vault_payout;
use crate::records::{
    CardRecord, CardStatus, Currency, Listing, ListingStatus, PackState, RewardAccounts,
    TokenAccountInfo, VaultState,
};
use crate::session::{PackSessionV2View, MAX_RARE_CARDS};

verus! {

/// For any open followed by a claim, the number of custody transfers equals
/// the number of records the open reserved, and every one of those records
/// ends user-owned, held by the user.
pub proof fn lemma_open_then_claim_settles_every_reservation(
    cfg: VaultState,
    vault_id: Id32,
    treasury: Id32,
    s0: PackSessionV2View,
    cards0: Seq<CardRecord>,
    card_ids: Seq<Id32>,
    user: Id32,
    now: i64,
    currency: Currency,
    client_seed_hash: Id32,
    templates: Seq<u32>,
    token_accounts: Option<(TokenAccountInfo, TokenAccountInfo)>,
    reward: RewardAccounts,
    session_bump: u8,
    now2: i64,
    s1: PackSessionV2View,
    cards1: Seq<CardRecord>,
    receipt: OpenPackReceipt,
    s2: PackSessionV2View,
    cards2: Seq<CardRecord>,
    transfers: Seq<CustodyAction>,
)
    requires
        spec_open_pack(
            cfg,
            vault_id,
            treasury,
            s0,
            cards0,
            card_ids,
            user,
            now,
            currency,
            client_seed_hash,
            templates,
            token_accounts,
            reward,
            session_bump,
        ) == Ok::<(PackSessionV2View, Seq<CardRecord>, OpenPackReceipt), MochiError>(
            (s1, cards1, receipt),
        ),
        spec_claim_pack_v2(s1, cards1, card_ids, user, now2) == Ok::<
            (PackSessionV2View, Seq<CardRecord>, Seq<CustodyAction>),
            MochiError,
        >((s2, cards2, transfers)),
    ensures
        transfers.len() == cards1.len(),
        cards1.len() == s1.rare_card_keys.len(),
        cards2.len() == cards1.len(),
        forall|i: int|
            0 <= i < cards2.len() ==> (#[trigger] cards2[i]).status == CardStatus::UserOwned
                && cards2[i].owner == user,
        forall|i: int|
            0 <= i < transfers.len() ==> (#[trigger] transfers[i]).new_owner == user
                && transfers[i].asset == cards0[i].core_asset,
        s2.state == PackState::Accepted,
{
}

/// An open whose batch holds even one card that is not available fails, and
/// with it (by the zero-mutation contract of `open_pack`) nothing changes.
pub proof fn lemma_open_refuses_unavailable_card(
    cfg: VaultState,
    vault_id: Id32,
    treasury: Id32,
    s0: PackSessionV2View,
    cards0: Seq<CardRecord>,
    card_ids: Seq<Id32>,
    user: Id32,
    now: i64,
    currency: Currency,
    client_seed_hash: Id32,
    templates: Seq<u32>,
    token_accounts: Option<(TokenAccountInfo, TokenAccountInfo)>,
    reward: RewardAccounts,
    session_bump: u8,
    i: int,
)
    requires
        0 <= i < cards0.len(),
        cards0[i].status != CardStatus::Available,
    ensures
        spec_open_pack(
            cfg,
            vault_id,
            treasury,
            s0,
            cards0,
            card_ids,
            user,
            now,
            currency,
            client_seed_hash,
            templates,
            token_accounts,
            reward,
            session_bump,
        ) is Err,
{
    if templates.len() <= MAX_RARE_CARDS as int && cards0.len() == templates.len()
        && card_ids.len() == templates.len() {
        let errs = spec_reserve_errors(cards0, templates, vault_id);
        assert(errs[i] is Some);
        lemma_first_error_some(errs, i);
    }
}

/// At most one undecided session per (vault, user): after a successful
/// open, any further open against the same session fails while the first
/// decision window is still running, whatever else it is called with.
pub proof fn lemma_pending_session_blocks_second_open(
    cfg: VaultState,
    vault_id: Id32,
    treasury: Id32,
    s0: PackSessionV2View,
    cards0: Seq<CardRecord>,
    card_ids: Seq<Id32>,
    user: Id32,
    now: i64,
    currency: Currency,
    client_seed_hash: Id32,
    templates: Seq<u32>,
    token_accounts: Option<(TokenAccountInfo, TokenAccountInfo)>,
    reward: RewardAccounts,
    session_bump: u8,
    s1: PackSessionV2View,
    cards1: Seq<CardRecord>,
    receipt: OpenPackReceipt,
    cfg2: VaultState,
    vault_id2: Id32,
    treasury2: Id32,
    cards2: Seq<CardRecord>,
    card_ids2: Seq<Id32>,
    user2: Id32,
    now2: i64,
    currency2: Currency,
    client_seed_hash2: Id32,
    templates2: Seq<u32>,
    token_accounts2: Option<(TokenAccountInfo, TokenAccountInfo)>,
    reward2: RewardAccounts,
    session_bump2: u8,
)
    requires
        spec_open_pack(
            cfg,
            vault_id,
            treasury,
            s0,
            cards0,
            card_ids,
            user,
            now,
            currency,
            client_seed_hash,
            templates,
            token_accounts,
            reward,
            session_bump,
        ) == Ok::<(PackSessionV2View, Seq<CardRecord>, OpenPackReceipt), MochiError>(
            (s1, cards1, receipt),
        ),
        now2 <= s1.expires_at,
        templates2.len() <= MAX_RARE_CARDS as int,
        cards2.len() == templates2.len(),
        card_ids2.len() == templates2.len(),
    ensures
        spec_open_pack(
            cfg2,
            vault_id2,
            treasury2,
            s1,
            cards2,
            card_ids2,
            user2,
            now2,
            currency2,
            client_seed_hash2,
            templates2,
            token_accounts2,
            reward2,
            session_bump2,
        ) == Err::<(PackSessionV2View, Seq<CardRecord>, OpenPackReceipt), MochiError>(
            MochiError::SessionExists,
        ),
{
    assert(s1.state == PackState::PendingDecision);
}

/// Boundary asymmetry of the decision window.  With the session undecided
/// and its batch otherwise in order: at `now == expires_at` both claim and
/// sellback still succeed while expire is refused; one second later claim
/// and sellback are refused while expire succeeds.
pub proof fn lemma_decision_window_boundary(
    cfg: VaultState,
    s: PackSessionV2View,
    cards: Seq<CardRecord>,
    card_ids: Seq<Id32>,
    user: Id32,
    token_accounts: Option<(TokenAccountInfo, TokenAccountInfo)>,
)
    requires
        s.user == user,
        s.state == PackState::PendingDecision,
        cards.len() == s.rare_card_keys.len(),
        card_ids.len() == cards.len(),
        forall|i: int|
            0 <= i < cards.len() ==> spec_card_settle_error(
                cards[i],
                s.rare_card_keys[i],
                card_ids[i],
                user,
            ) is None,
        s.paid_amount * cfg.buyback_bps <= u64::MAX,
        spec_vault_payout(
            cfg,
            user,
            cfg.vault_authority,
            spec_bps_apply(s.paid_amount as int, cfg.buyback_bps as int) as u64,
            s.currency,
            token_accounts,
        ) is Ok,
    ensures
        spec_claim_pack_v2(s, cards, card_ids, user, s.expires_at) is Ok,
        spec_sellback_pack_v2(cfg, s, cards, card_ids, user, s.expires_at, token_accounts) is Ok,
        spec_expire_session_v2(cfg, s, cards, card_ids, s.expires_at) == Err::<
            (PackSessionV2View, Seq<CardRecord>),
            MochiError,
        >(MochiError::SessionNotExpired),
        s.expires_at < i64::MAX ==> spec_claim_pack_v2(
            s,
            cards,
            card_ids,
            user,
            (s.expires_at + 1) as i64,
        ) == Err::<(PackSessionV2View, Seq<CardRecord>, Seq<CustodyAction>), MochiError>(
            MochiError::SessionExpired,
        ),
        s.expires_at < i64::MAX ==> spec_sellback_pack_v2(
            cfg,
            s,
            cards,
            card_ids,
            user,
            (s.expires_at + 1) as i64,
            token_accounts,
        ) == Err::<(PackSessionV2View, Seq<CardRecord>, PaymentAction), MochiError>(
            MochiError::SessionExpired,
        ),
        s.expires_at < i64::MAX ==> spec_expire_session_v2(
            cfg,
            s,
            cards,
            card_ids,
            (s.expires_at + 1) as i64,
        ) is Ok,
{
    let settle_errs = spec_settle_errors(cards, card_ids, s.rare_card_keys, user);
    lemma_first_error_none(settle_errs);
    let expire_errs = crate::pack::spec_expire_errors(cards, card_ids, s.rare_card_keys);
    assert forall|j: int| 0 <= j < expire_errs.len() implies expire_errs[j] is None by {
        assert(settle_errs[j] is None);
    }
    lemma_first_error_none(expire_errs);
}

/// A session left behind by a successful open satisfies the record's
/// invariant: it is pending, its window ends exactly `claim_window_seconds`
/// after it was created, it belongs to the paying user, it holds what was
/// paid, and its reservation lists are aligned and within the rare-slot
/// bound.
pub proof fn lemma_open_establishes_session_invariant(
    cfg: VaultState,
    vault_id: Id32,
    treasury: Id32,
    s0: PackSessionV2View,
    cards0: Seq<CardRecord>,
    card_ids: Seq<Id32>,
    user: Id32,
    now: i64,
    currency: Currency,
    client_seed_hash: Id32,
    templates: Seq<u32>,
    token_accounts: Option<(TokenAccountInfo, TokenAccountInfo)>,
    reward: RewardAccounts,
    session_bump: u8,
    s1: PackSessionV2View,
    cards1: Seq<CardRecord>,
    receipt: OpenPackReceipt,
)
    requires
        spec_open_pack(
            cfg,
            vault_id,
            treasury,
            s0,
            cards0,
            card_ids,
            user,
            now,
            currency,
            client_seed_hash,
            templates,
            token_accounts,
            reward,
            session_bump,
        ) == Ok::<(PackSessionV2View, Seq<CardRecord>, OpenPackReceipt), MochiError>(
            (s1, cards1, receipt),
        ),
    ensures
        s1.state == PackState::PendingDecision,
        s1.created_at == now,
        s1.expires_at == now + cfg.claim_window_seconds,
        s1.user == user,
        s1.paid_amount == receipt.payment.amount,
        s1.rare_card_keys.len() == s1.rare_templates.len(),
        s1.rare_templates.len() <= MAX_RARE_CARDS as int,
        s1.rare_card_keys.len() == cards1.len(),
{
}

/// Acceptance through the batched path confirms completeness: whenever
/// `finalize_claim` accepts a session, the records it verified are exactly
/// the session's reserved slots — same count, same keys, slot by slot —
/// and every one of them has reached the user's hands.
pub proof fn lemma_finalize_confirms_every_slot(
    s0: crate::session::PackSessionView,
    cards: Seq<CardRecord>,
    card_ids: Seq<Id32>,
    user: Id32,
    now: i64,
    s1: crate::session::PackSessionView,
)
    requires
        crate::pack_legacy::spec_finalize_claim(s0, cards, card_ids, user, now) == Ok::<
            crate::session::PackSessionView,
            MochiError,
        >(s1),
    ensures
        cards.len() == s0.card_record_keys.len(),
        card_ids.len() == s0.card_record_keys.len(),
        forall|i: int|
            0 <= i < cards.len() ==> #[trigger] card_ids[i] == s0.card_record_keys[i],
        forall|i: int|
            0 <= i < cards.len() ==> (#[trigger] cards[i]).status == CardStatus::UserOwned
                && cards[i].owner == user,
        s1.state == PackState::Accepted,
{
    let errs = crate::pack_legacy::spec_finalized_errors(
        cards,
        card_ids,
        s0.card_record_keys,
        user,
    );
    assert forall|i: int|
        0 <= i < cards.len() implies (#[trigger] cards[i]).status == CardStatus::UserOwned
            && cards[i].owner == user by {
        if errs[i] is Some {
            lemma_first_error_some(errs, i);
        }
        assert(errs[i] is None);
    }
    assert forall|i: int|
        0 <= i < cards.len() implies #[trigger] card_ids[i] == s0.card_record_keys[i] by {
        if errs[i] is Some {
            lemma_first_error_some(errs, i);
        }
        assert(errs[i] is None);
    }
}

/// Listing an asset and then cancelling the listing is a round trip: the
/// record returns to the seller's holding, the listing ends cancelled, and
/// the asset's custody goes back to the seller.
pub proof fn lemma_list_then_cancel_round_trip(
    cfg: VaultState,
    vault_id: Id32,
    expected_vault: Id32,
    record0: CardRecord,
    seller: Id32,
    core_asset: Id32,
    price_lamports: u64,
    currency_mint: Option<Id32>,
    template_id: u32,
    rarity: crate::records::Rarity,
    record1: CardRecord,
    listing1: Listing,
    custody1: Option<CustodyAction>,
)
    requires
        crate::market::spec_list_card(
            cfg,
            vault_id,
            expected_vault,
            record0,
            seller,
            core_asset,
            price_lamports,
            currency_mint,
            template_id,
            rarity,
        ) == Ok::<(CardRecord, Listing, Option<CustodyAction>), MochiError>(
            (record1, listing1, custody1),
        ),
    ensures
        ({
            let after = crate::market::spec_cancel_listing(
                vault_id,
                crate::codec::spec_card_record_bytes(record1),
                listing1,
                seller,
                cfg.vault_authority,
            );
            &&& after matches Ok(ok)
            &&& after matches Ok(ok) ==> ({
                &&& ok.0 == (CardRecord {
                    status: CardStatus::UserOwned,
                    owner: seller,
                    ..record1
                })
                &&& ok.0.core_asset == core_asset
                &&& ok.0.vault_state == vault_id
                &&& ok.1 == (Listing { status: ListingStatus::Cancelled, ..listing1 })
                &&& ok.2 == (CustodyAction { asset: core_asset, new_owner: seller })
            })
        }),
{
    crate::codec::lemma_card_record_codec_round_trip(record1);
}

} // verus!
