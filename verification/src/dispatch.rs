use vstd::prelude::*;
use crate::addr::Address;
use crate::errors::ErrorKind;
use crate::resolve::MintTokens;

verus! {

/// The packaged call to the external ledger program's mint-to operation:
/// the mint, the destination holding account, the authority that signs
/// the invocation, and the amount to issue. The caller forwards it and
/// hands the ledger's outcome back.
#[derive(Debug)]
pub struct LedgerRequest {
    pub mint: Address,
    pub destination: Address,
    pub authority: Address,
    pub amount: u64,
}

/// Mathematical image of a ledger request.
pub struct LedgerRequestView {
    pub mint: Seq<u8>,
    pub destination: Seq<u8>,
    pub authority: Seq<u8>,
    pub amount: u64,
}

impl View for LedgerRequest {
    type V = LedgerRequestView;

    open spec fn view(&self) -> LedgerRequestView {
        LedgerRequestView {
            mint: self.mint@,
            destination: self.destination@,
            authority: self.authority@,
            amount: self.amount,
        }
    }
}

/// Package a validated issuance context into the ledger call: the amount
/// is forwarded unchanged, any value in range, zero included.
pub fn dispatch_mint(ctx: MintTokens, amount: u64) -> (r: LedgerRequest)
    ensures
        r@ == (LedgerRequestView {
            mint: ctx@.mint_address,
            destination: ctx@.holding_address,
            authority: ctx@.authority,
            amount: amount,
        }),
{
    LedgerRequest {
        mint: ctx.mint_address,
        destination: ctx.holding_address,
        authority: ctx.authority,
        amount,
    }
}

/// Re-raise the external ledger's outcome as the request's own: success
/// is forwarded as success, and any ledger error code is forwarded
/// verbatim, with no local recovery and no retry.
pub fn absorb_ledger_outcome(outcome: Result<(), u64>) -> (r: Result<(), ErrorKind>)
    ensures
        match outcome {
            Result::Ok(u) => r == Result::Ok::<(), ErrorKind>(()),
            Result::Err(code) => r == Result::Err::<(), ErrorKind>(ErrorKind::LedgerFailure(code)),
        },
{
    match outcome {
        Result::Ok(u) => Result::Ok(u),
        Result::Err(code) => Result::Err(ErrorKind::LedgerFailure(code)),
    }
}

} // verus!
