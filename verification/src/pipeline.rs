use vstd::prelude::*;
use crate::account::{AccountRef, ProgramIds, accounts_wf};
use crate::dispatch::{LedgerRequest, LedgerRequestView, dispatch_mint};
use crate::errors::ErrorKind;
use crate::gate::{authorize_mint, mint_authorized};
use crate::resolve::{
    InitializeToken, InitializeTokenView, init_outcome, mint_resolve_outcome, resolve_initialize,
    resolve_mint,
};

verus! {

/// The full outcome of an issuance request: resolution, then the
/// authority gate, then the packaged ledger call carrying the caller's
/// amount unchanged.
pub open spec fn mint_outcome(accounts: Seq<AccountRef>, ids: ProgramIds, amount: u64) -> Result<
    LedgerRequestView,
    ErrorKind,
> {
    match mint_resolve_outcome(accounts, ids) {
        Result::Err(e) => Result::Err(e),
        Result::Ok(v) => if !mint_authorized(v) {
            Result::Err(ErrorKind::Unauthorized)
        } else {
            Result::Ok(
                LedgerRequestView {
                    mint: v.mint_address,
                    destination: v.holding_address,
                    authority: v.authority,
                    amount: amount,
                },
            )
        },
    }
}

/// Validate an issuance request and hand back the ledger call to
/// forward; the first failing check decides the error, and a signer
/// other than the mint's recorded authority is rejected before any
/// ledger call is packaged.
pub fn mint_tokens(accounts: &Vec<AccountRef>, ids: &ProgramIds, amount: u64) -> (r: Result<
    LedgerRequest,
    ErrorKind,
>)
    requires
        accounts_wf(accounts@),
    ensures
        match r {
            Result::Ok(q) => mint_outcome(accounts@, *ids, amount) == Result::Ok::<
                LedgerRequestView,
                ErrorKind,
            >(q@),
            Result::Err(e) => mint_outcome(accounts@, *ids, amount) == Result::Err::<
                LedgerRequestView,
                ErrorKind,
            >(e),
        },
{
    let ctx = match resolve_mint(accounts, ids) {
        Result::Ok(c) => c,
        Result::Err(e) => {
            return Result::Err(e);
        },
    };
    if !authorize_mint(&ctx) {
        return Result::Err(ErrorKind::Unauthorized);
    }
    Result::Ok(dispatch_mint(ctx, amount))
}

/// Validate a creation request and hand back the creation plan. The
/// `name` and `symbol` payload is display metadata with no bearing on
/// account validation, and the caller-supplied `decimals` byte is
/// ignored: the precision a mint is created with is a configured
/// constant, as the plan's contract states.
#[allow(unused_variables)]
pub fn initialize_token(
    accounts: &Vec<AccountRef>,
    ids: &ProgramIds,
    name: &str,
    symbol: &str,
    decimals: u8,
) -> (r: Result<InitializeToken, ErrorKind>)
    requires
        accounts_wf(accounts@),
    ensures
        match r {
            Result::Ok(plan) => init_outcome(accounts@, *ids) == Result::Ok::<
                InitializeTokenView,
                ErrorKind,
            >(plan@),
            Result::Err(e) => init_outcome(accounts@, *ids) == Result::Err::<
                InitializeTokenView,
                ErrorKind,
            >(e),
        },
{
    resolve_initialize(accounts, ids)
}

} // verus!
