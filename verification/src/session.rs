use vstd::prelude::*;
use crate::ids::Id32;
use crate::records::{Currency, PackState};

verus! {

/// Number of collectible slots in a full pack.
pub const PACK_CARD_COUNT: usize = 11;

/// Most rare-tier reservations a lightweight session may hold.
pub const MAX_RARE_CARDS: usize = 3;

/// Lightweight per-(vault, user) session: only the rare-tier slots are
/// reserved on the ledger, the common-tier slots are implicit in the fixed
/// pack size.
#[derive(Clone, PartialEq, Eq, Debug)]
pub struct PackSessionV2 {
    pub user: Id32,
    pub currency: Currency,
    /// Amount the user paid to open the session.
    pub paid_amount: u64,
    pub created_at: i64,
    /// End of the decision window: `created_at + claim_window_seconds`.
    pub expires_at: i64,
    /// Addresses of the reserved rare-tier card records.
    pub rare_card_keys: Vec<Id32>,
    /// Templates the caller declared for the reserved cards, slot by slot.
    pub rare_templates: Vec<u32>,
    pub state: PackState,
    /// Client-supplied commitment hash; carried, never interpreted.
    pub client_seed_hash: Id32,
    /// Total number of slots in the pack, rare and common together.
    pub total_slots: u8,
    /// Derivation disambiguator of the session's ledger address.
    pub bump: u8,
}

/// Mathematical image of a [`PackSessionV2`].
#[verifier::ext_equal]
pub struct PackSessionV2View {
    pub user: Id32,
    pub currency: Currency,
    pub paid_amount: u64,
    pub created_at: i64,
    pub expires_at: i64,
    pub rare_card_keys: Seq<Id32>,
    pub rare_templates: Seq<u32>,
    pub state: PackState,
    pub client_seed_hash: Id32,
    pub total_slots: u8,
    pub bump: u8,
}

impl View for PackSessionV2 {
    type V = PackSessionV2View;

    open spec fn view(&self) -> PackSessionV2View {
        PackSessionV2View {
            user: self.user,
            currency: self.currency,
            paid_amount: self.paid_amount,
            created_at: self.created_at,
            expires_at: self.expires_at,
            rare_card_keys: self.rare_card_keys@,
            rare_templates: self.rare_templates@,
            state: self.state,
            client_seed_hash: self.client_seed_hash,
            total_slots: self.total_slots,
            bump: self.bump,
        }
    }
}

/// Full-pack per-(vault, user) session: every slot is reserved on the
/// ledger and carries its own reference price.
#[derive(Clone, PartialEq, Eq, Debug)]
pub struct PackSession {
    pub user: Id32,
    pub currency: Currency,
    /// Amount the user paid to open the session.
    pub paid_amount: u64,
    pub created_at: i64,
    /// End of the decision window: `created_at + claim_window_seconds`.
    pub expires_at: i64,
    /// Addresses of the reserved card records, one per slot.
    pub card_record_keys: Vec<Id32>,
    pub state: PackState,
    /// Client-supplied commitment hash; carried, never interpreted.
    pub client_seed_hash: Id32,
    /// Per-slot reference prices, used to value a sellback.
    pub rarity_prices: Vec<u64>,
}

/// Mathematical image of a [`PackSession`].
#[verifier::ext_equal]
pub struct PackSessionView {
    pub user: Id32,
    pub currency: Currency,
    pub paid_amount: u64,
    pub created_at: i64,
    pub expires_at: i64,
    pub card_record_keys: Seq<Id32>,
    pub state: PackState,
    pub client_seed_hash: Id32,
    pub rarity_prices: Seq<u64>,
}

impl View for PackSession {
    type V = PackSessionView;

    open spec fn view(&self) -> PackSessionView {
        PackSessionView {
            user: self.user,
            currency: self.currency,
            paid_amount: self.paid_amount,
            created_at: self.created_at,
            expires_at: self.expires_at,
            card_record_keys: self.card_record_keys@,
            state: self.state,
            client_seed_hash: self.client_seed_hash,
            rarity_prices: self.rarity_prices@,
        }
    }
}

/// An undecided session whose window is still open blocks a second `open`
/// for the same (vault, user) pair: this is the mutual-exclusion rule.
pub open spec fn spec_session_blocks_open(s: PackSessionV2View, now: i64) -> bool {
    s.state == PackState::PendingDecision && now <= s.expires_at
}

} // verus!
