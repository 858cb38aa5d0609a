use vstd::prelude::*;
use crate::ids::Id32;

verus! {

/// Rarity tier of a collectible, lowest first; `Energy` is a side tier.
#[derive(Clone, Copy, PartialEq, Eq, Structural, Debug)]
pub enum Rarity {
    Common,
    Uncommon,
    Rare,
    DoubleRare,
    UltraRare,
    IllustrationRare,
    SpecialIllustrationRare,
    MegaHyperRare,
    Energy,
}

/// Custody/status of a single collectible record.
///
/// `Burned` and `Deprecated` are terminal: no normal flow reopens them.
#[derive(Clone, Copy, PartialEq, Eq, Structural, Debug)]
pub enum CardStatus {
    Available,
    Reserved,
    UserOwned,
    RedeemPending,
    Burned,
    Deprecated,
}

/// The currency a session was paid in.
#[derive(Clone, Copy, PartialEq, Eq, Structural, Debug)]
pub enum Currency {
    Sol,
    Token,
}

/// Lifecycle state of a pack session.
#[derive(Clone, Copy, PartialEq, Eq, Structural, Debug)]
pub enum PackState {
    Uninitialized,
    PendingDecision,
    Accepted,
    Rejected,
    Expired,
}

/// Lifecycle state of a marketplace listing.
#[derive(Clone, Copy, PartialEq, Eq, Structural, Debug)]
pub enum ListingStatus {
    Active,
    Filled,
    Cancelled,
    Burned,
    Deprecated,
}

/// Global vault configuration, written once by the admin and threaded into
/// every operation.
#[derive(Clone, Copy, PartialEq, Eq, Debug)]
pub struct VaultState {
    /// The administrator who may run the privileged operations.
    pub admin: Id32,
    /// The derived custody authority that holds assets for the vault.
    pub vault_authority: Id32,
    /// Derivation disambiguator of `vault_authority`.
    pub vault_authority_bump: u8,
    /// Pack price in the native currency.
    pub pack_price_sol: u64,
    /// Pack price in the fungible payment token.
    pub pack_price_usdc: u64,
    /// Fraction of face value refunded on sellback, in basis points.
    pub buyback_bps: u16,
    /// Length of the decision window, in seconds.
    pub claim_window_seconds: i64,
    /// Marketplace fee, in basis points of the sale price.
    pub marketplace_fee_bps: u16,
    /// Collection the vault's collectibles belong to, if pinned.
    pub core_collection: Option<Id32>,
    /// Mint of the fungible payment token, if pinned.
    pub usdc_mint: Option<Id32>,
    /// Mint of the reward token, if rewards are configured.
    pub mochi_mint: Option<Id32>,
    /// Reward-token amount minted to the buyer of each pack.
    pub reward_per_pack: u64,
}

/// Per-collectible custody/status record, keyed by (vault, asset).
#[derive(Clone, Copy, PartialEq, Eq, Debug)]
pub struct CardRecord {
    /// The vault the record belongs to.
    pub vault_state: Id32,
    /// The underlying collectible asset.
    pub core_asset: Id32,
    /// Declared template of the collectible.
    pub template_id: u32,
    /// Declared rarity tier of the collectible.
    pub rarity: Rarity,
    pub status: CardStatus,
    /// Current holder: the custody authority while the vault holds the
    /// asset, the user once the user does.
    pub owner: Id32,
}

/// Marketplace sale offer, keyed by (vault, asset).
#[derive(Clone, Copy, PartialEq, Eq, Debug)]
pub struct Listing {
    pub vault_state: Id32,
    pub seller: Id32,
    pub core_asset: Id32,
    /// Asking price in the listing's currency.
    pub price_lamports: u64,
    /// Payment-token mint, or `None` for the native currency.
    pub currency_mint: Option<Id32>,
    pub status: ListingStatus,
}

/// Facts about a token account, read off the ledger by the caller.
#[derive(Clone, Copy, PartialEq, Eq, Debug)]
pub struct TokenAccountInfo {
    /// Address of the token account itself.
    pub address: Id32,
    /// The mint the account holds balances of.
    pub mint: Id32,
    /// The wallet the account belongs to.
    pub owner: Id32,
}

/// Facts about the reward mint and the buyer's reward token account.
#[derive(Clone, Copy, PartialEq, Eq, Debug)]
pub struct RewardAccounts {
    /// Address of the reward mint account.
    pub mint: Id32,
    /// The mint's minting authority, if it has one.
    pub mint_authority: Option<Id32>,
    /// The buyer's reward token account.
    pub user_token: TokenAccountInfo,
}

/// Tiers `Rare` and above qualify for a rare-slot reservation;
/// `Energy` does not.
pub open spec fn spec_rare_or_above(r: Rarity) -> bool {
    match r {
        Rarity::Rare => true,
        Rarity::DoubleRare => true,
        Rarity::UltraRare => true,
        Rarity::IllustrationRare => true,
        Rarity::SpecialIllustrationRare => true,
        Rarity::MegaHyperRare => true,
        Rarity::Common => false,
        Rarity::Uncommon => false,
        Rarity::Energy => false,
    }
}

pub fn is_rare_or_above(r: Rarity) -> (b: bool)
    ensures
        b == spec_rare_or_above(r),
{
    match r {
        Rarity::Rare => true,
        Rarity::DoubleRare => true,
        Rarity::UltraRare => true,
        Rarity::IllustrationRare => true,
        Rarity::SpecialIllustrationRare => true,
        Rarity::MegaHyperRare => true,
        Rarity::Common => false,
        Rarity::Uncommon => false,
        Rarity::Energy => false,
    }
}

/// A card as it looks after a pack reservation takes hold of it.
pub open spec fn spec_reserved_for(c: CardRecord, user: Id32) -> CardRecord {
    CardRecord { status: CardStatus::Reserved, owner: user, ..c }
}

/// A card as it looks once the user has taken custody of its asset.
pub open spec fn spec_user_owned(c: CardRecord, user: Id32) -> CardRecord {
    CardRecord { status: CardStatus::UserOwned, owner: user, ..c }
}

/// A card as it looks once its reservation is released back to the vault.
pub open spec fn spec_released(c: CardRecord, authority: Id32) -> CardRecord {
    CardRecord { status: CardStatus::Available, owner: authority, ..c }
}

/// Put every card of a validated batch under reservation for `user`.
pub fn mark_reserved_all(cards: &mut Vec<CardRecord>, user: Id32)
    ensures
        final(cards)@ == old(cards)@.map_values(|c: CardRecord| spec_reserved_for(c, user)),
{
    let mut out: Vec<CardRecord> = Vec::new();
    let mut i: usize = 0;
    while i < cards.len()
        invariant
            0 <= i <= cards@.len(),
            cards@ == old(cards)@,
            out@.len() == i,
            forall|j: int| 0 <= j < i ==> out@[j] == spec_reserved_for(old(cards)@[j], user),
        decreases cards@.len() - i,
    {
        let c = cards[i];
        out.push(CardRecord { status: CardStatus::Reserved, owner: user, ..c });
        i = i + 1;
    }
    proof {
        assert(out@ =~= old(cards)@.map_values(|c: CardRecord| spec_reserved_for(c, user)));
    }
    *cards = out;
}

/// Hand every card of a validated batch over to `user`.
pub fn mark_user_owned_all(cards: &mut Vec<CardRecord>, user: Id32)
    ensures
        final(cards)@ == old(cards)@.map_values(|c: CardRecord| spec_user_owned(c, user)),
{
    let mut out: Vec<CardRecord> = Vec::new();
    let mut i: usize = 0;
    while i < cards.len()
        invariant
            0 <= i <= cards@.len(),
            cards@ == old(cards)@,
            out@.len() == i,
            forall|j: int| 0 <= j < i ==> out@[j] == spec_user_owned(old(cards)@[j], user),
        decreases cards@.len() - i,
    {
        let c = cards[i];
        out.push(CardRecord { status: CardStatus::UserOwned, owner: user, ..c });
        i = i + 1;
    }
    proof {
        assert(out@ =~= old(cards)@.map_values(|c: CardRecord| spec_user_owned(c, user)));
    }
    *cards = out;
}

/// Release every card of a batch back to the custody authority.
pub fn mark_released_all(cards: &mut Vec<CardRecord>, authority: Id32)
    ensures
        final(cards)@ == old(cards)@.map_values(|c: CardRecord| spec_released(c, authority)),
{
    let mut out: Vec<CardRecord> = Vec::new();
    let mut i: usize = 0;
    while i < cards.len()
        invariant
            0 <= i <= cards@.len(),
            cards@ == old(cards)@,
            out@.len() == i,
            forall|j: int| 0 <= j < i ==> out@[j] == spec_released(old(cards)@[j], authority),
        decreases cards@.len() - i,
    {
        let c = cards[i];
        out.push(CardRecord { status: CardStatus::Available, owner: authority, ..c });
        i = i + 1;
    }
    proof {
        assert(out@ =~= old(cards)@.map_values(|c: CardRecord| spec_released(c, authority)));
    }
    *cards = out;
}

/// Best-effort release: every supplied card that belongs to `vault_id`
/// returns to the custody authority as available; entries that fail the
/// vault check are skipped, not refused.  The boolean list reports, entry
/// by entry, which cards were released.
pub fn release_matching(cards: &mut Vec<CardRecord>, vault_id: Id32, authority: Id32) -> (freed:
    Vec<bool>)
    ensures
        freed@.len() == old(cards)@.len(),
        final(cards)@.len() == old(cards)@.len(),
        forall|i: int|
            0 <= i < old(cards)@.len() ==> #[trigger] freed@[i] == (old(cards)@[i].vault_state
                == vault_id),
        forall|i: int|
            0 <= i < old(cards)@.len() ==> #[trigger] final(cards)@[i] == (if old(
                cards,
            )@[i].vault_state == vault_id {
                spec_released(old(cards)@[i], authority)
            } else {
                old(cards)@[i]
            }),
{
    let mut freed: Vec<bool> = Vec::new();
    let mut out: Vec<CardRecord> = Vec::new();
    let mut i: usize = 0;
    while i < cards.len()
        invariant
            0 <= i <= cards@.len(),
            cards@ == old(cards)@,
            freed@.len() == i,
            out@.len() == i,
            forall|j: int| 0 <= j < i ==> #[trigger] freed@[j] == (old(cards)@[j].vault_state
                == vault_id),
            forall|j: int|
                0 <= j < i ==> #[trigger] out@[j] == (if old(cards)@[j].vault_state == vault_id {
                    spec_released(old(cards)@[j], authority)
                } else {
                    old(cards)@[j]
                }),
        decreases cards@.len() - i,
    {
        let c = cards[i];
        if c.vault_state == vault_id {
            out.push(CardRecord { status: CardStatus::Available, owner: authority, ..c });
            freed.push(true);
        } else {
            out.push(c);
            freed.push(false);
        }
        i = i + 1;
    }
    *cards = out;
    freed
}

} // verus!
