use vstd::prelude::*;
use crate::actions::PaymentAction;
use crate::errors::MochiError;
use crate::ids::Id32;
use crate::records::{Currency, TokenAccountInfo, VaultState};

verus! {

/// When the vault pins a payment-token mint, both token accounts of a
/// token-balance move must be tied to it.
pub open spec fn spec_token_mints_ok(
    pinned: Option<Id32>,
    a: TokenAccountInfo,
    b: TokenAccountInfo,
) -> bool {
    match pinned {
        Some(m) => a.mint == m && b.mint == m,
        None => true,
    }
}

/// The payment collected when a pack is opened: the configured price moves
/// from the user (or the user's token account) into the vault treasury (or
/// the vault's token account).
pub open spec fn spec_open_payment(
    cfg: VaultState,
    user: Id32,
    treasury: Id32,
    currency: Currency,
    token_accounts: Option<(TokenAccountInfo, TokenAccountInfo)>,
) -> Result<PaymentAction, MochiError> {
    match currency {
        Currency::Sol => if cfg.pack_price_sol == 0 {
            Err(MochiError::InvalidPrice)
        } else {
            Ok(
                PaymentAction {
                    currency: Currency::Sol,
                    from: user,
                    to: treasury,
                    amount: cfg.pack_price_sol,
                },
            )
        },
        Currency::Token => if cfg.pack_price_usdc == 0 {
            Err(MochiError::InvalidPrice)
        } else {
            match token_accounts {
                None => Err(MochiError::MissingTokenAccount),
                Some(accts) => if !spec_token_mints_ok(cfg.usdc_mint, accts.0, accts.1) {
                    Err(MochiError::MintMismatch)
                } else {
                    Ok(
                        PaymentAction {
                            currency: Currency::Token,
                            from: accts.0.address,
                            to: accts.1.address,
                            amount: cfg.pack_price_usdc,
                        },
                    )
                },
            }
        },
    }
}

pub fn open_payment(
    cfg: &VaultState,
    user: Id32,
    treasury: Id32,
    currency: Currency,
    token_accounts: Option<(TokenAccountInfo, TokenAccountInfo)>,
) -> (r: Result<PaymentAction, MochiError>)
    ensures
        r == spec_open_payment(*cfg, user, treasury, currency, token_accounts),
{
    match currency {
        Currency::Sol => {
            if cfg.pack_price_sol == 0 {
                Err(MochiError::InvalidPrice)
            } else {
                Ok(
                    PaymentAction {
                        currency: Currency::Sol,
                        from: user,
                        to: treasury,
                        amount: cfg.pack_price_sol,
                    },
                )
            }
        },
        Currency::Token => {
            if cfg.pack_price_usdc == 0 {
                Err(MochiError::InvalidPrice)
            } else {
                match token_accounts {
                    None => Err(MochiError::MissingTokenAccount),
                    Some((user_token, vault_token)) => {
                        let mints_ok = match cfg.usdc_mint {
                            Some(m) => user_token.mint == m && vault_token.mint == m,
                            None => true,
                        };
                        if !mints_ok {
                            Err(MochiError::MintMismatch)
                        } else {
                            Ok(
                                PaymentAction {
                                    currency: Currency::Token,
                                    from: user_token.address,
                                    to: vault_token.address,
                                    amount: cfg.pack_price_usdc,
                                },
                            )
                        }
                    },
                }
            }
        },
    }
}

/// The refund paid when a pack is sold back or a sale is settled from the
/// vault side: `payout` moves from the vault (the given native source
/// account, or the vault's token account) back to the user.
pub open spec fn spec_vault_payout(
    cfg: VaultState,
    user: Id32,
    sol_source: Id32,
    payout: u64,
    currency: Currency,
    token_accounts: Option<(TokenAccountInfo, TokenAccountInfo)>,
) -> Result<PaymentAction, MochiError> {
    match currency {
        Currency::Sol => Ok(
            PaymentAction { currency: Currency::Sol, from: sol_source, to: user, amount: payout },
        ),
        Currency::Token => match token_accounts {
            None => Err(MochiError::MissingTokenAccount),
            Some(accts) => if !spec_token_mints_ok(cfg.usdc_mint, accts.0, accts.1) {
                Err(MochiError::MintMismatch)
            } else {
                Ok(
                    PaymentAction {
                        currency: Currency::Token,
                        from: accts.1.address,
                        to: accts.0.address,
                        amount: payout,
                    },
                )
            },
        },
    }
}

pub fn vault_payout(
    cfg: &VaultState,
    user: Id32,
    sol_source: Id32,
    payout: u64,
    currency: Currency,
    token_accounts: Option<(TokenAccountInfo, TokenAccountInfo)>,
) -> (r: Result<PaymentAction, MochiError>)
    ensures
        r == spec_vault_payout(*cfg, user, sol_source, payout, currency, token_accounts),
{
    match currency {
        Currency::Sol => Ok(
            PaymentAction { currency: Currency::Sol, from: sol_source, to: user, amount: payout },
        ),
        Currency::Token => {
            match token_accounts {
                None => Err(MochiError::MissingTokenAccount),
                Some((user_token, vault_token)) => {
                    let mints_ok = match cfg.usdc_mint {
                        Some(m) => user_token.mint == m && vault_token.mint == m,
                        None => true,
                    };
                    if !mints_ok {
                        Err(MochiError::MintMismatch)
                    } else {
                        Ok(
                            PaymentAction {
                                currency: Currency::Token,
                                from: vault_token.address,
                                to: user_token.address,
                                amount: payout,
                            },
                        )
                    }
                },
            }
        },
    }
}

} // verus!
