use vstd::prelude::*;

verus! {

/// Why an operation refused to run.
///
/// Every operation either succeeds in full or returns one of these and
/// leaves every record it was handed unchanged.
#[derive(Clone, Copy, PartialEq, Eq, Structural, Debug)]
pub enum MochiError {
    /// The caller is not the admin, seller or owner the operation expects.
    Unauthorized,
    /// The configured price for the chosen currency is zero.
    InvalidPrice,
    /// The payer cannot cover the configured price.
    InsufficientFunds,
    /// The wrong number of records was supplied.
    InvalidCardCount,
    /// A card is not in the status the operation expects it in.
    CardNotAvailable,
    /// A record does not belong to the vault it was supplied for.
    VaultMismatch,
    /// The listing is not in the status the operation expects it in.
    InvalidListingState,
    /// An undecided, unexpired session already exists for this user.
    SessionExists,
    /// The session is not in the state the operation expects it in.
    InvalidSessionState,
    /// The decision window has already closed.
    SessionExpired,
    /// The decision window has not closed yet.
    SessionNotExpired,
    /// A card that should be reserved for this session is not.
    CardNotReserved,
    /// A record refers to a different collectible asset than expected.
    AssetMismatch,
    /// An amount or timestamp computation left its machine range.
    MathOverflow,
    /// A token-balance operation was requested without its token accounts.
    MissingTokenAccount,
    /// A token account is tied to a different mint than the vault expects.
    MintMismatch,
    /// The asset-custody service failed to move or burn an asset.
    CoreCpiError,
    /// More rare-tier reservations were requested than a session may hold.
    TooManyRareCards,
    /// A card below the rare tier was offered for a rare-tier reservation.
    CardTooCommon,
    /// A card's template does not match the caller's declared template.
    TemplateMismatch,
    /// A supplied card record is not the one the session reserved.
    CardKeyMismatch,
    /// A card's recorded rarity does not match the caller's declared rarity.
    RarityMismatch,
}

/// The first error in a per-item check list, or success when every item
/// passes.  The batch operations check their records in order and refuse the
/// whole call at the first item that fails.
pub open spec fn spec_first_error(errs: Seq<Option<MochiError>>) -> Result<(), MochiError>
    decreases errs.len(),
{
    if errs.len() == 0 {
        Ok(())
    } else {
        match errs[0] {
            Some(e) => Err(e),
            None => spec_first_error(errs.drop_first()),
        }
    }
}

/// Skipping items that are known to pass does not change the outcome of a
/// first-error scan.
pub proof fn lemma_first_error_prefix(errs: Seq<Option<MochiError>>, i: int)
    requires
        0 <= i <= errs.len(),
        forall|j: int| 0 <= j < i ==> errs[j] is None,
    ensures
        spec_first_error(errs) == spec_first_error(errs.skip(i)),
    decreases i,
{
    if i > 0 {
        lemma_first_error_prefix(errs, i - 1);
        assert(errs.skip(i - 1)[0] == errs[i - 1]);
        assert(errs.skip(i - 1).drop_first() =~= errs.skip(i));
    } else {
        assert(errs.skip(0) =~= errs);
    }
}

/// A batch in which every item passes passes as a whole.
pub proof fn lemma_first_error_none(errs: Seq<Option<MochiError>>)
    requires
        forall|j: int| 0 <= j < errs.len() ==> errs[j] is None,
    ensures
        spec_first_error(errs) == Ok::<(), MochiError>(()),
{
    lemma_first_error_prefix(errs, errs.len() as int);
    assert(errs.skip(errs.len() as int).len() == 0);
}

/// A batch with a failing item fails as a whole.
pub proof fn lemma_first_error_some(errs: Seq<Option<MochiError>>, i: int)
    requires
        0 <= i < errs.len(),
        errs[i] is Some,
    ensures
        spec_first_error(errs) is Err,
    decreases errs.len(),
{
    if errs[0] is None {
        assert(errs.drop_first()[i - 1] == errs[i]);
        lemma_first_error_some(errs.drop_first(), i - 1);
    }
}

} // verus!
