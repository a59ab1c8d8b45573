use vstd::prelude::*;
use crate::account::AccountRef;
use crate::addr::Address;
use crate::errors::ErrorKind;

verus! {

/// A raw-entry request's recorded data: the paying owner and an amount
/// payload.
#[derive(Debug)]
pub struct ProgramData {
    pub owner: Address,
    pub amount: u64,
}

/// What the raw entry point decides: the payer and holding-account slots
/// must both be supplied, and the payer must have signed.
pub open spec fn process_outcome(accounts: Seq<AccountRef>) -> Result<(), ErrorKind> {
    if accounts.len() < 2 {
        Result::Err(ErrorKind::MissingAccount)
    } else if !accounts[0].is_signer {
        Result::Err(ErrorKind::MissingRequiredSignature)
    } else {
        Result::Ok(())
    }
}

/// The raw entry point's check: bind the payer and holding-account slots
/// and require the payer's signature; the identity of the program and
/// the payload bytes play no part in the decision.
#[allow(unused_variables)]
pub fn process_instruction(
    program_id: &Address,
    accounts: &Vec<AccountRef>,
    instruction_data: &Vec<u8>,
) -> (r: Result<(), ErrorKind>)
    ensures
        r == process_outcome(accounts@),
{
    if accounts.len() < 2 {
        return Result::Err(ErrorKind::MissingAccount);
    }
    if !accounts[0].is_signer {
        return Result::Err(ErrorKind::MissingRequiredSignature);
    }
    Result::Ok(())
}

} // verus!
