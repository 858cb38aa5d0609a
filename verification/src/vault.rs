use vstd::prelude::*;
use crate::codec::{encode_vault_state, spec_vault_state_bytes, VAULT_STATE_BYTES};
use crate::errors::MochiError;
use crate::ids::Id32;
use crate::records::{CardRecord, CardStatus, Rarity, VaultState};

verus! {

/// Create the pack vault's configuration record: the admin's identity, the
/// custody authority handed in by the address registry with its derivation
/// disambiguator, and the economic parameters.
pub fn initialize_vault(
    admin: Id32,
    vault_authority: Id32,
    vault_authority_bump: u8,
    pack_price_sol: u64,
    pack_price_usdc: u64,
    buyback_bps: u16,
    claim_window_seconds: i64,
    marketplace_fee_bps: u16,
    core_collection: Option<Id32>,
    usdc_mint: Option<Id32>,
    mochi_mint: Option<Id32>,
    reward_per_pack: u64,
) -> (cfg: VaultState)
    ensures
        cfg == (VaultState {
            admin,
            vault_authority,
            vault_authority_bump,
            pack_price_sol,
            pack_price_usdc,
            buyback_bps,
            claim_window_seconds,
            marketplace_fee_bps,
            core_collection,
            usdc_mint,
            mochi_mint,
            reward_per_pack,
        }),
{
    VaultState {
        admin,
        vault_authority,
        vault_authority_bump,
        pack_price_sol,
        pack_price_usdc,
        buyback_bps,
        claim_window_seconds,
        marketplace_fee_bps,
        core_collection,
        usdc_mint,
        mochi_mint,
        reward_per_pack,
    }
}

/// Create the marketplace vault's configuration record: only the fee rate
/// and the optional mints matter, every pack-economy field is zero.
pub fn initialize_marketplace_vault(
    admin: Id32,
    vault_authority: Id32,
    vault_authority_bump: u8,
    marketplace_fee_bps: u16,
    core_collection: Option<Id32>,
    usdc_mint: Option<Id32>,
) -> (cfg: VaultState)
    ensures
        cfg == (VaultState {
            admin,
            vault_authority,
            vault_authority_bump,
            pack_price_sol: 0,
            pack_price_usdc: 0,
            buyback_bps: 0,
            claim_window_seconds: 0,
            marketplace_fee_bps,
            core_collection,
            usdc_mint,
            mochi_mint: None,
            reward_per_pack: 0,
        }),
{
    VaultState {
        admin,
        vault_authority,
        vault_authority_bump,
        pack_price_sol: 0,
        pack_price_usdc: 0,
        buyback_bps: 0,
        claim_window_seconds: 0,
        marketplace_fee_bps,
        core_collection,
        usdc_mint,
        mochi_mint: None,
        reward_per_pack: 0,
    }
}

/// Admin-only update of the reward configuration.  The reward mint's
/// minting authority, read off the ledger by the caller, must already be
/// the vault's own custody authority — otherwise the vault could never
/// mint the reward.
pub fn set_reward_config(
    cfg: &mut VaultState,
    admin: Id32,
    mochi_mint: Id32,
    reward_per_pack: u64,
    reward_mint_authority: Option<Id32>,
) -> (r: Result<(), MochiError>)
    ensures
        r is Err <==> admin != old(cfg).admin || reward_mint_authority != Some(
            old(cfg).vault_authority,
        ),
        r matches Err(e) ==> e == MochiError::Unauthorized && *final(cfg) == *old(cfg),
        r is Ok ==> *final(cfg) == (VaultState {
            mochi_mint: Some(mochi_mint),
            reward_per_pack,
            ..*old(cfg)
        }),
{
    if admin != cfg.admin {
        return Err(MochiError::Unauthorized);
    }
    let authority_ok = match reward_mint_authority {
        Some(a) => a == cfg.vault_authority,
        None => false,
    };
    if !authority_ok {
        return Err(MochiError::Unauthorized);
    }
    cfg.mochi_mint = Some(mochi_mint);
    cfg.reward_per_pack = reward_per_pack;
    Ok(())
}

/// One-time schema growth of a vault record.  Whatever the previous —
/// possibly shorter — contents were, the caller zeroes the enlarged
/// storage and persists the returned bytes, every field at its fixed
/// offset; the collection pin is deliberately left unset.  The caller is
/// told how many lamports to add so the record stays rent-exempt at its
/// new size.
pub fn migrate_vault_state(
    admin: Id32,
    vault_authority: Id32,
    vault_authority_bump: u8,
    pack_price_sol: u64,
    pack_price_usdc: u64,
    buyback_bps: u16,
    claim_window_seconds: i64,
    marketplace_fee_bps: u16,
    usdc_mint: Option<Id32>,
    mochi_mint: Option<Id32>,
    reward_per_pack: u64,
    current_lamports: u64,
    required_lamports: u64,
) -> (r: (VaultState, Vec<u8>, Option<u64>))
    ensures
        r.0 == (VaultState {
            admin,
            vault_authority,
            vault_authority_bump,
            pack_price_sol,
            pack_price_usdc,
            buyback_bps,
            claim_window_seconds,
            marketplace_fee_bps,
            core_collection: None,
            usdc_mint,
            mochi_mint,
            reward_per_pack,
        }),
        r.1@ == spec_vault_state_bytes(r.0),
        r.1@.len() == VAULT_STATE_BYTES,
        r.2 == (if current_lamports < required_lamports {
            Some((required_lamports - current_lamports) as u64)
        } else {
            None::<u64>
        }),
{
    let cfg = VaultState {
        admin,
        vault_authority,
        vault_authority_bump,
        pack_price_sol,
        pack_price_usdc,
        buyback_bps,
        claim_window_seconds,
        marketplace_fee_bps,
        core_collection: None,
        usdc_mint,
        mochi_mint,
        reward_per_pack,
    };
    let bytes = encode_vault_state(&cfg);
    let top_up = if current_lamports < required_lamports {
        Some(required_lamports - current_lamports)
    } else {
        None
    };
    (cfg, bytes, top_up)
}

/// Admin-only deposit of a collectible into the vault: its record starts
/// available, in the custody authority's hands.
pub fn deposit_card(
    cfg: &VaultState,
    vault_id: Id32,
    admin: Id32,
    core_asset: Id32,
    template_id: u32,
    rarity: Rarity,
) -> (r: Result<CardRecord, MochiError>)
    ensures
        r is Err <==> admin != cfg.admin,
        r matches Err(e) ==> e == MochiError::Unauthorized,
        r matches Ok(record) ==> record == (CardRecord {
            vault_state: vault_id,
            core_asset,
            template_id,
            rarity,
            status: CardStatus::Available,
            owner: cfg.vault_authority,
        }),
{
    if admin != cfg.admin {
        return Err(MochiError::Unauthorized);
    }
    Ok(
        CardRecord {
            vault_state: vault_id,
            core_asset,
            template_id,
            rarity,
            status: CardStatus::Available,
            owner: cfg.vault_authority,
        },
    )
}

} // verus!
