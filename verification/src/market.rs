use vstd::prelude::*;
use crate::actions::{BurnAction, CustodyAction, PaymentAction};
use crate::codec::{
    encode_card_record, encode_listing, decode_card_record, spec_card_record_bytes,
    spec_decode_card_record, spec_listing_bytes, CARD_RECORD_BYTES,
};
use crate::errors::MochiError;
use crate::ids::Id32;
use crate::math::{apply_bps, spec_bps_apply};
use crate::records::{
    CardRecord, CardStatus, Currency, Listing, ListingStatus, Rarity, VaultState,
};

verus! {

/// What a successful `fill_listing` asks the caller to perform: the fee to
/// the treasury (when there is one), the remainder to the seller, and the
/// asset to the buyer — all inside the same call.
#[derive(Clone, Copy, PartialEq, Eq, Debug)]
pub struct FillReceipt {
    pub fee_payment: Option<PaymentAction>,
    pub seller_payment: PaymentAction,
    pub custody: CustodyAction,
}

/// The whole `list_card` transition.  A fresh record (the all-zero vault
/// sentinel) is initialized to the seller's holding; a re-listed record
/// must match the caller's declared identity, which defends against record
/// spoofing.  The asset moves into vault custody unless the vault already
/// holds it, making re-listing idempotent.
pub open spec fn spec_list_card(
    cfg: VaultState,
    vault_id: Id32,
    expected_vault: Id32,
    record0: CardRecord,
    seller: Id32,
    core_asset: Id32,
    price_lamports: u64,
    currency_mint: Option<Id32>,
    template_id: u32,
    rarity: Rarity,
) -> Result<(CardRecord, Listing, Option<CustodyAction>), MochiError> {
    if vault_id != expected_vault {
        Err(MochiError::VaultMismatch)
    } else {
        let fresh = record0.vault_state == Id32::spec_zero();
        let base = if fresh {
            CardRecord {
                vault_state: vault_id,
                core_asset,
                template_id,
                rarity,
                status: CardStatus::UserOwned,
                owner: seller,
            }
        } else {
            record0
        };
        if !fresh && record0.vault_state != vault_id {
            Err(MochiError::VaultMismatch)
        } else if !fresh && record0.core_asset != core_asset {
            Err(MochiError::AssetMismatch)
        } else if !fresh && record0.template_id != template_id {
            Err(MochiError::TemplateMismatch)
        } else if !fresh && record0.rarity != rarity {
            Err(MochiError::RarityMismatch)
        } else if base.owner != seller && base.owner != cfg.vault_authority {
            Err(MochiError::Unauthorized)
        } else if base.status != CardStatus::UserOwned && base.status != CardStatus::Available {
            Err(MochiError::CardNotAvailable)
        } else {
            let custody = if base.owner != cfg.vault_authority {
                Some(CustodyAction { asset: core_asset, new_owner: cfg.vault_authority })
            } else {
                None
            };
            Ok(
                (
                    CardRecord { status: CardStatus::Reserved, owner: cfg.vault_authority, ..base },
                    Listing {
                        vault_state: vault_id,
                        seller,
                        core_asset,
                        price_lamports,
                        currency_mint,
                        status: ListingStatus::Active,
                    },
                    custody,
                ),
            )
        }
    }
}

/// Offer a user-held asset for sale: move it into vault custody (unless the
/// vault already holds it) and write the active listing.
pub fn list_card(
    cfg: &VaultState,
    vault_id: Id32,
    expected_vault: Id32,
    record: &mut CardRecord,
    listing: &mut Listing,
    seller: Id32,
    core_asset: Id32,
    price_lamports: u64,
    currency_mint: Option<Id32>,
    template_id: u32,
    rarity: Rarity,
) -> (r: Result<Option<CustodyAction>, MochiError>)
    ensures
        ({
            let o = spec_list_card(
                *cfg,
                vault_id,
                expected_vault,
                *old(record),
                seller,
                core_asset,
                price_lamports,
                currency_mint,
                template_id,
                rarity,
            );
            &&& (r matches Ok(custody) ==> o matches Ok(ok) && *final(record) == ok.0
                && *final(listing) == ok.1 && custody == ok.2)
            &&& (r matches Err(e) ==> o matches Err(oe) && oe == e && *final(record) == *old(record)
                && *final(listing) == *old(listing))
        }),
{
    if vault_id != expected_vault {
        return Err(MochiError::VaultMismatch);
    }
    let fresh = record.vault_state == Id32::zero();
    let base = if fresh {
        CardRecord {
            vault_state: vault_id,
            core_asset,
            template_id,
            rarity,
            status: CardStatus::UserOwned,
            owner: seller,
        }
    } else {
        *record
    };
    if !fresh {
        if record.vault_state != vault_id {
            return Err(MochiError::VaultMismatch);
        }
        if record.core_asset != core_asset {
            return Err(MochiError::AssetMismatch);
        }
        if record.template_id != template_id {
            return Err(MochiError::TemplateMismatch);
        }
        if record.rarity != rarity {
            return Err(MochiError::RarityMismatch);
        }
    }
    if base.owner != seller && base.owner != cfg.vault_authority {
        return Err(MochiError::Unauthorized);
    }
    if base.status != CardStatus::UserOwned && base.status != CardStatus::Available {
        return Err(MochiError::CardNotAvailable);
    }
    let custody = if base.owner != cfg.vault_authority {
        Some(CustodyAction { asset: core_asset, new_owner: cfg.vault_authority })
    } else {
        None
    };
    *record = CardRecord { status: CardStatus::Reserved, owner: cfg.vault_authority, ..base };
    *listing = Listing {
        vault_state: vault_id,
        seller,
        core_asset,
        price_lamports,
        currency_mint,
        status: ListingStatus::Active,
    };
    Ok(custody)
}

/// The repaired card record the cancel/return paths persist: the stored
/// bytes if they still pass strict validation, otherwise a reconstructed
/// default — in either case re-tied to this vault and the listing's asset,
/// and handed back to `new_owner`.
pub open spec fn spec_repaired_record(
    stored: Seq<u8>,
    vault_id: Id32,
    listing: Listing,
    authority: Id32,
    new_owner: Id32,
) -> CardRecord {
    let base = match spec_decode_card_record(stored) {
        Some(c) => c,
        None => CardRecord {
            vault_state: vault_id,
            core_asset: listing.core_asset,
            template_id: 0,
            rarity: Rarity::Common,
            status: CardStatus::Reserved,
            owner: authority,
        },
    };
    CardRecord {
        vault_state: vault_id,
        core_asset: listing.core_asset,
        status: CardStatus::UserOwned,
        owner: new_owner,
        ..base
    }
}

fn repaired_record(
    stored: &Vec<u8>,
    vault_id: Id32,
    listing: &Listing,
    authority: Id32,
    new_owner: Id32,
) -> (r: CardRecord)
    ensures
        r == spec_repaired_record(stored@, vault_id, *listing, authority, new_owner),
{
    let base = match decode_card_record(stored) {
        Some(c) => c,
        None => CardRecord {
            vault_state: vault_id,
            core_asset: listing.core_asset,
            template_id: 0,
            rarity: Rarity::Common,
            status: CardStatus::Reserved,
            owner: authority,
        },
    };
    CardRecord {
        vault_state: vault_id,
        core_asset: listing.core_asset,
        status: CardStatus::UserOwned,
        owner: new_owner,
        ..base
    }
}

/// The whole `cancel_listing` transition: the seller takes the asset back,
/// the repaired record returns to the seller's holding, and the listing is
/// cancelled.
pub open spec fn spec_cancel_listing(
    vault_id: Id32,
    stored: Seq<u8>,
    listing0: Listing,
    seller: Id32,
    authority: Id32,
) -> Result<(CardRecord, Listing, CustodyAction), MochiError> {
    if listing0.status != ListingStatus::Active {
        Err(MochiError::InvalidListingState)
    } else if listing0.seller != seller {
        Err(MochiError::Unauthorized)
    } else {
        Ok(
            (
                spec_repaired_record(stored, vault_id, listing0, authority, seller),
                Listing { status: ListingStatus::Cancelled, ..listing0 },
                CustodyAction { asset: listing0.core_asset, new_owner: seller },
            ),
        )
    }
}

/// Withdraw an active listing.  Only the seller may; the stored card-record
/// bytes are validated strictly and rebuilt from a default when they fail —
/// an explicit repair, not silent loss.  Returns the repaired record, the
/// exact bytes to persist for it, and the custody move back to the seller.
pub fn cancel_listing(
    cfg: &VaultState,
    vault_id: Id32,
    stored_record: &Vec<u8>,
    listing: &mut Listing,
    seller: Id32,
) -> (r: Result<(CardRecord, Vec<u8>, CustodyAction), MochiError>)
    ensures
        ({
            let o = spec_cancel_listing(
                vault_id,
                stored_record@,
                *old(listing),
                seller,
                cfg.vault_authority,
            );
            &&& (r matches Ok(ok_r) ==> o matches Ok(ok) && ok_r.0 == ok.0 && *final(listing)
                == ok.1 && ok_r.2 == ok.2 && ok_r.1@ == spec_card_record_bytes(ok.0))
            &&& (r matches Err(e) ==> o matches Err(oe) && oe == e && *final(listing) == *old(
                listing,
            ))
        }),
{
    if listing.status != ListingStatus::Active {
        return Err(MochiError::InvalidListingState);
    }
    if listing.seller != seller {
        return Err(MochiError::Unauthorized);
    }
    let repaired = repaired_record(stored_record, vault_id, listing, cfg.vault_authority, seller);
    let bytes = encode_card_record(&repaired);
    let custody = CustodyAction { asset: listing.core_asset, new_owner: seller };
    listing.status = ListingStatus::Cancelled;
    Ok((repaired, bytes, custody))
}

/// The whole `fill_listing` transition: the buyer pays the price — the fee
/// share `floor(price * marketplace_fee_bps / 10000)` to the treasury, the
/// remainder to the seller — and takes the asset; the record becomes the
/// buyer's holding and the listing is filled.
pub open spec fn spec_fill_listing(
    cfg: VaultState,
    record0: CardRecord,
    listing0: Listing,
    buyer: Id32,
    treasury: Id32,
) -> Result<(CardRecord, Listing, FillReceipt), MochiError> {
    if listing0.status != ListingStatus::Active {
        Err(MochiError::InvalidListingState)
    } else if record0.core_asset != listing0.core_asset {
        Err(MochiError::AssetMismatch)
    } else if listing0.price_lamports * cfg.marketplace_fee_bps > u64::MAX {
        Err(MochiError::MathOverflow)
    } else {
        let fee = spec_bps_apply(
            listing0.price_lamports as int,
            cfg.marketplace_fee_bps as int,
        ) as u64;
        if fee > listing0.price_lamports {
            Err(MochiError::MathOverflow)
        } else {
            Ok(
                (
                    CardRecord { status: CardStatus::UserOwned, owner: buyer, ..record0 },
                    Listing { status: ListingStatus::Filled, ..listing0 },
                    FillReceipt {
                        fee_payment: if fee > 0 {
                            Some(
                                PaymentAction {
                                    currency: Currency::Sol,
                                    from: buyer,
                                    to: treasury,
                                    amount: fee,
                                },
                            )
                        } else {
                            None
                        },
                        seller_payment: PaymentAction {
                            currency: Currency::Sol,
                            from: buyer,
                            to: listing0.seller,
                            amount: (listing0.price_lamports - fee) as u64,
                        },
                        custody: CustodyAction { asset: listing0.core_asset, new_owner: buyer },
                    },
                ),
            )
        }
    }
}

/// Buy a listed asset: fee to the treasury, remainder to the seller, asset
/// and record to the buyer, all within one call.
pub fn fill_listing(
    cfg: &VaultState,
    record: &mut CardRecord,
    listing: &mut Listing,
    buyer: Id32,
    treasury: Id32,
) -> (r: Result<FillReceipt, MochiError>)
    ensures
        ({
            let o = spec_fill_listing(*cfg, *old(record), *old(listing), buyer, treasury);
            &&& (r matches Ok(receipt) ==> o matches Ok(ok) && *final(record) == ok.0
                && *final(listing) == ok.1 && receipt == ok.2)
            &&& (r matches Err(e) ==> o matches Err(oe) && oe == e && *final(record) == *old(record)
                && *final(listing) == *old(listing))
        }),
{
    if listing.status != ListingStatus::Active {
        return Err(MochiError::InvalidListingState);
    }
    if record.core_asset != listing.core_asset {
        return Err(MochiError::AssetMismatch);
    }
    let price = listing.price_lamports;
    let fee = match apply_bps(price, cfg.marketplace_fee_bps) {
        Ok(f) => f,
        Err(e) => {
            return Err(e);
        },
    };
    if fee > price {
        return Err(MochiError::MathOverflow);
    }
    let receipt = FillReceipt {
        fee_payment: if fee > 0 {
            Some(
                PaymentAction { currency: Currency::Sol, from: buyer, to: treasury, amount: fee },
            )
        } else {
            None
        },
        seller_payment: PaymentAction {
            currency: Currency::Sol,
            from: buyer,
            to: listing.seller,
            amount: price - fee,
        },
        custody: CustodyAction { asset: listing.core_asset, new_owner: buyer },
    };
    *record = CardRecord { status: CardStatus::UserOwned, owner: buyer, ..*record };
    listing.status = ListingStatus::Filled;
    Ok(receipt)
}

/// Redeem a collectible by burning its asset.  Only the holder named by the
/// record may; the record then reaches the terminal `Burned` status.
pub fn redeem_burn(record: &mut CardRecord, user: Id32) -> (r: Result<BurnAction, MochiError>)
    ensures
        r is Err <==> old(record).owner != user,
        r matches Err(e) ==> e == MochiError::Unauthorized && *final(record) == *old(record),
        r matches Ok(burn) ==> burn == (BurnAction { asset: old(record).core_asset })
            && *final(record) == (CardRecord { status: CardStatus::Burned, ..*old(record) }),
{
    if record.owner != user {
        return Err(MochiError::Unauthorized);
    }
    let burn = BurnAction { asset: record.core_asset };
    record.status = CardStatus::Burned;
    Ok(burn)
}

/// Admin-only: move a record's asset to an explicit destination and retire
/// the record to the terminal `Deprecated` status.
pub fn admin_migrate_asset(
    cfg: &VaultState,
    record: &mut CardRecord,
    admin: Id32,
    destination: Id32,
) -> (r: Result<CustodyAction, MochiError>)
    ensures
        r is Err <==> admin != cfg.admin,
        r matches Err(e) ==> e == MochiError::Unauthorized && *final(record) == *old(record),
        r matches Ok(custody) ==> custody == (CustodyAction {
            asset: old(record).core_asset,
            new_owner: destination,
        }) && *final(record) == (CardRecord {
            status: CardStatus::Deprecated,
            owner: destination,
            ..*old(record)
        }),
{
    if admin != cfg.admin {
        return Err(MochiError::Unauthorized);
    }
    let custody = CustodyAction { asset: record.core_asset, new_owner: destination };
    record.owner = destination;
    record.status = CardStatus::Deprecated;
    Ok(custody)
}

/// Admin-only: retire a record to the terminal `Deprecated` status without
/// moving its asset.
pub fn deprecate_card(cfg: &VaultState, record: &mut CardRecord, admin: Id32) -> (r: Result<
    (),
    MochiError,
>)
    ensures
        r is Err <==> admin != cfg.admin,
        r matches Err(e) ==> e == MochiError::Unauthorized && *final(record) == *old(record),
        r is Ok ==> *final(record) == (CardRecord {
            status: CardStatus::Deprecated,
            ..*old(record)
        }),
{
    if admin != cfg.admin {
        return Err(MochiError::Unauthorized);
    }
    record.status = CardStatus::Deprecated;
    Ok(())
}

/// The blank, cancelled listing an admin prune overwrites a malformed
/// listing with; no asset moves.
pub open spec fn spec_pruned_listing(vault_id: Id32) -> Listing {
    Listing {
        vault_state: vault_id,
        seller: Id32::spec_zero(),
        core_asset: Id32::spec_zero(),
        price_lamports: 0,
        currency_mint: None,
        status: ListingStatus::Cancelled,
    }
}

/// Admin-only: hide a malformed listing by overwriting it — whatever its
/// prior bytes held — with a blank, cancelled listing.  Returns the record
/// to persist and its exact bytes.
pub fn admin_prune_listing(cfg: &VaultState, vault_id: Id32, admin: Id32) -> (r: Result<
    (Listing, Vec<u8>),
    MochiError,
>)
    ensures
        r is Err <==> admin != cfg.admin,
        r matches Err(e) ==> e == MochiError::Unauthorized,
        r matches Ok(ok) ==> ok.0 == spec_pruned_listing(vault_id) && ok.1@ == spec_listing_bytes(
            spec_pruned_listing(vault_id),
        ),
{
    if admin != cfg.admin {
        return Err(MochiError::Unauthorized);
    }
    let pruned = Listing {
        vault_state: vault_id,
        seller: Id32::zero(),
        core_asset: Id32::zero(),
        price_lamports: 0,
        currency_mint: None,
        status: ListingStatus::Cancelled,
    };
    let bytes = encode_listing(&pruned);
    Ok((pruned, bytes))
}

/// The shared admin repair transition behind `admin_force_cancel_listing`
/// and `emergency_return_asset`: with the admin's say-so, the listed asset
/// goes back to its original seller, the defensively repaired record is
/// persisted, and the listing is cancelled.  The destination is fixed to
/// the listing's seller; the admin cannot redirect it.
pub open spec fn spec_admin_return_listing(
    cfg: VaultState,
    vault_id: Id32,
    stored: Seq<u8>,
    listing0: Listing,
    admin: Id32,
    seller: Id32,
) -> Result<(CardRecord, Listing, CustodyAction), MochiError> {
    if admin != cfg.admin {
        Err(MochiError::Unauthorized)
    } else if listing0.vault_state != vault_id {
        Err(MochiError::VaultMismatch)
    } else if listing0.seller != seller {
        Err(MochiError::Unauthorized)
    } else {
        Ok(
            (
                spec_repaired_record(stored, vault_id, listing0, cfg.vault_authority, seller),
                Listing { status: ListingStatus::Cancelled, ..listing0 },
                CustodyAction { asset: listing0.core_asset, new_owner: seller },
            ),
        )
    }
}

fn admin_return_listing(
    cfg: &VaultState,
    vault_id: Id32,
    stored_record: &Vec<u8>,
    listing: &mut Listing,
    admin: Id32,
    seller: Id32,
) -> (r: Result<(CardRecord, Vec<u8>, CustodyAction), MochiError>)
    ensures
        ({
            let o = spec_admin_return_listing(
                *cfg,
                vault_id,
                stored_record@,
                *old(listing),
                admin,
                seller,
            );
            &&& (r matches Ok(ok_r) ==> o matches Ok(ok) && ok_r.0 == ok.0 && *final(listing)
                == ok.1 && ok_r.2 == ok.2 && ok_r.1@ == spec_card_record_bytes(ok.0))
            &&& (r matches Err(e) ==> o matches Err(oe) && oe == e && *final(listing) == *old(
                listing,
            ))
        }),
{
    if admin != cfg.admin {
        return Err(MochiError::Unauthorized);
    }
    if listing.vault_state != vault_id {
        return Err(MochiError::VaultMismatch);
    }
    if listing.seller != seller {
        return Err(MochiError::Unauthorized);
    }
    let repaired = repaired_record(stored_record, vault_id, listing, cfg.vault_authority, seller);
    let bytes = encode_card_record(&repaired);
    let custody = CustodyAction { asset: listing.core_asset, new_owner: seller };
    listing.status = ListingStatus::Cancelled;
    Ok((repaired, bytes, custody))
}

/// Admin escape hatch: repair or cancel a corrupted listing, returning the
/// asset to its seller.
pub fn admin_force_cancel_listing(
    cfg: &VaultState,
    vault_id: Id32,
    stored_record: &Vec<u8>,
    listing: &mut Listing,
    admin: Id32,
    seller: Id32,
) -> (r: Result<(CardRecord, Vec<u8>, CustodyAction), MochiError>)
    ensures
        ({
            let o = spec_admin_return_listing(
                *cfg,
                vault_id,
                stored_record@,
                *old(listing),
                admin,
                seller,
            );
            &&& (r matches Ok(ok_r) ==> o matches Ok(ok) && ok_r.0 == ok.0 && *final(listing)
                == ok.1 && ok_r.2 == ok.2 && ok_r.1@ == spec_card_record_bytes(ok.0))
            &&& (r matches Err(e) ==> o matches Err(oe) && oe == e && *final(listing) == *old(
                listing,
            ))
        }),
{
    admin_return_listing(cfg, vault_id, stored_record, listing, admin, seller)
}

/// Admin guardrail: return a stuck listing's asset to its original seller.
/// Same repair as a forced cancel; the destination cannot be redirected.
pub fn emergency_return_asset(
    cfg: &VaultState,
    vault_id: Id32,
    stored_record: &Vec<u8>,
    listing: &mut Listing,
    admin: Id32,
    seller: Id32,
) -> (r: Result<(CardRecord, Vec<u8>, CustodyAction), MochiError>)
    ensures
        ({
            let o = spec_admin_return_listing(
                *cfg,
                vault_id,
                stored_record@,
                *old(listing),
                admin,
                seller,
            );
            &&& (r matches Ok(ok_r) ==> o matches Ok(ok) && ok_r.0 == ok.0 && *final(listing)
                == ok.1 && ok_r.2 == ok.2 && ok_r.1@ == spec_card_record_bytes(ok.0))
            &&& (r matches Err(e) ==> o matches Err(oe) && oe == e && *final(listing) == *old(
                listing,
            ))
        }),
{
    admin_return_listing(cfg, vault_id, stored_record, listing, admin, seller)
}

/// The whole `admin_rescue_legacy_listing` transition: a listing anchored
/// to a superseded vault is cancelled and its asset returned to the seller.
/// The caller-supplied legacy authority is accepted only when it matches
/// one of the two known derivation schemes (the registry hands in both
/// recomputed authorities); the asset moves only if the repaired record
/// still placed it under that authority, is left alone if the seller
/// already holds it, and anything else is refused.
pub open spec fn spec_rescue_legacy_listing(
    market_cfg: VaultState,
    stored: Seq<u8>,
    listing0: Listing,
    admin: Id32,
    legacy_vault_id: Id32,
    legacy_authority: Id32,
    market_derived: Id32,
    gacha_derived: Id32,
    seller: Id32,
) -> Result<(CardRecord, Listing, Option<CustodyAction>), MochiError> {
    if admin != market_cfg.admin {
        Err(MochiError::Unauthorized)
    } else if listing0.vault_state != legacy_vault_id {
        Err(MochiError::VaultMismatch)
    } else if listing0.seller != seller {
        Err(MochiError::Unauthorized)
    } else if legacy_authority != market_derived && legacy_authority != gacha_derived {
        Err(MochiError::VaultMismatch)
    } else {
        let base = match spec_decode_card_record(stored) {
            Some(c) => c,
            None => CardRecord {
                vault_state: listing0.vault_state,
                core_asset: listing0.core_asset,
                template_id: 0,
                rarity: Rarity::Common,
                status: CardStatus::Reserved,
                owner: legacy_authority,
            },
        };
        if base.owner != legacy_authority && base.owner != seller {
            Err(MochiError::Unauthorized)
        } else {
            Ok(
                (
                    CardRecord {
                        vault_state: listing0.vault_state,
                        core_asset: listing0.core_asset,
                        status: CardStatus::UserOwned,
                        owner: seller,
                        ..base
                    },
                    Listing { status: ListingStatus::Cancelled, ..listing0 },
                    if base.owner == legacy_authority {
                        Some(CustodyAction { asset: listing0.core_asset, new_owner: seller })
                    } else {
                        None
                    },
                ),
            )
        }
    }
}

/// Admin rescue for listings created under a superseded vault.  Returns the
/// repaired record, the bytes to persist for it — `None` when the legacy
/// record's storage is too small, in which case persisting is skipped — and
/// the custody move, if one is needed.
pub fn admin_rescue_legacy_listing(
    market_cfg: &VaultState,
    stored_record: &Vec<u8>,
    listing: &mut Listing,
    admin: Id32,
    legacy_vault_id: Id32,
    legacy_authority: Id32,
    market_derived: Id32,
    gacha_derived: Id32,
    seller: Id32,
) -> (r: Result<(CardRecord, Option<Vec<u8>>, Option<CustodyAction>), MochiError>)
    ensures
        ({
            let o = spec_rescue_legacy_listing(
                *market_cfg,
                stored_record@,
                *old(listing),
                admin,
                legacy_vault_id,
                legacy_authority,
                market_derived,
                gacha_derived,
                seller,
            );
            &&& (r matches Ok(ok_r) ==> o matches Ok(ok) && ok_r.0 == ok.0 && *final(listing)
                == ok.1 && ok_r.2 == ok.2 && (ok_r.1 matches Some(bytes) ==> bytes@
                == spec_card_record_bytes(ok.0)) && (ok_r.1 is Some <==> stored_record@.len()
                >= CARD_RECORD_BYTES))
            &&& (r matches Err(e) ==> o matches Err(oe) && oe == e && *final(listing) == *old(
                listing,
            ))
        }),
{
    if admin != market_cfg.admin {
        return Err(MochiError::Unauthorized);
    }
    if listing.vault_state != legacy_vault_id {
        return Err(MochiError::VaultMismatch);
    }
    if listing.seller != seller {
        return Err(MochiError::Unauthorized);
    }
    if legacy_authority != market_derived && legacy_authority != gacha_derived {
        return Err(MochiError::VaultMismatch);
    }
    let base = match decode_card_record(stored_record) {
        Some(c) => c,
        None => CardRecord {
            vault_state: listing.vault_state,
            core_asset: listing.core_asset,
            template_id: 0,
            rarity: Rarity::Common,
            status: CardStatus::Reserved,
            owner: legacy_authority,
        },
    };
    if base.owner != legacy_authority && base.owner != seller {
        return Err(MochiError::Unauthorized);
    }
    let custody = if base.owner == legacy_authority {
        Some(CustodyAction { asset: listing.core_asset, new_owner: seller })
    } else {
        None
    };
    let repaired = CardRecord {
        vault_state: listing.vault_state,
        core_asset: listing.core_asset,
        status: CardStatus::UserOwned,
        owner: seller,
        ..base
    };
    let bytes = if stored_record.len() >= CARD_RECORD_BYTES {
        Some(encode_card_record(&repaired))
    } else {
        None
    };
    listing.status = ListingStatus::Cancelled;
    Ok((repaired, bytes, custody))
}

} // verus!
