use vstd::prelude::*;
use crate::addr::Address;

verus! {

/// One entry of a request's ordered account list, as the host hands it
/// over: its address, the program that owns it, the signer and writability
/// flags, its lamport balance, and its raw record bytes.
#[derive(Debug)]
pub struct AccountRef {
    pub address: Address,
    pub owner: Address,
    pub is_signer: bool,
    pub is_writable: bool,
    pub lamports: u64,
    pub data: Vec<u8>,
}

/// An account slot is present on chain when it carries lamports; an
/// absent slot is handed over as an empty account with none.
pub open spec fn is_present(a: AccountRef) -> bool {
    a.lamports > 0
}

/// Exec twin of `is_present`.
pub fn account_present(a: &AccountRef) -> (r: bool)
    ensures
        r == is_present(*a),
{
    a.lamports > 0
}

/// On chain every address is exactly 32 bytes.
pub open spec fn account_wf(a: AccountRef) -> bool {
    &&& a.address@.len() == 32
    &&& a.owner@.len() == 32
}

/// Well-formedness of a whole account list.
pub open spec fn accounts_wf(s: Seq<AccountRef>) -> bool {
    forall|i: int| 0 <= i < s.len() ==> account_wf(#[trigger] s[i])
}

/// The fixed addresses of the external services every request must name:
/// the system service, the token-ledger service, the address-derivation
/// service, and the rent sysvar.
#[derive(Debug)]
pub struct ProgramIds {
    pub system_program: Address,
    pub token_program: Address,
    pub associated_token_program: Address,
    pub rent_sysvar: Address,
}

} // verus!
