use vstd::prelude::*;
use crate::ids::Id32;
use crate::records::Currency;

verus! {

/// A balance movement the caller must perform through the payment service.
#[derive(Clone, Copy, PartialEq, Eq, Debug)]
pub struct PaymentAction {
    pub currency: Currency,
    /// Account the amount leaves (a wallet for the native currency, a token
    /// account for the fungible token).
    pub from: Id32,
    /// Account the amount arrives at.
    pub to: Id32,
    pub amount: u64,
}

/// An asset movement the caller must perform through the custody service:
/// the asset is handed from its current holder to `new_owner`.
#[derive(Clone, Copy, PartialEq, Eq, Debug)]
pub struct CustodyAction {
    pub asset: Id32,
    pub new_owner: Id32,
}

/// An asset the caller must burn through the custody service.
#[derive(Clone, Copy, PartialEq, Eq, Debug)]
pub struct BurnAction {
    pub asset: Id32,
}

/// A reward-token issue the caller must perform through the payment service.
#[derive(Clone, Copy, PartialEq, Eq, Debug)]
pub struct MintAction {
    pub mint: Id32,
    /// Token account the freshly minted amount is credited to.
    pub to: Id32,
    pub amount: u64,
}

} // verus!
