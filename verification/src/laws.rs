use vstd::prelude::*;
use crate::account::{AccountRef, ProgramIds, is_present};
use crate::ata::derived_holding_address;
use crate::dispatch::LedgerRequestView;
use crate::errors::ErrorKind;
use crate::gate::mint_authorized;
use crate::pipeline::mint_outcome;
use crate::records::parse_mint_record;
use crate::resolve::{InitializeTokenView, init_outcome, mint_resolve_outcome, service_slots_ok};

verus! {

/// Every check of a creation request except the mint slot's freshness:
/// the signing authority, the holding slot (absent, or ledger-owned and
/// bound to this mint and holder at the derived address), and the four
/// service slots.
pub open spec fn init_valid_except_mint(accounts: Seq<AccountRef>, ids: ProgramIds) -> bool {
    &&& accounts.len() == 7
    &&& accounts[0].is_signer
    &&& accounts[0].is_writable
    &&& accounts[2].address@ == derived_holding_address(accounts[0].address@, accounts[1].address@)
    &&& (is_present(accounts[2]) ==> {
        &&& accounts[2].owner@ == ids.token_program@
        &&& parse_holding_ok_for(accounts)
    })
    &&& service_slots_ok(accounts, ids)
}

/// The supplied holding record deserializes and is bound to the request's
/// mint and holder.
pub open spec fn parse_holding_ok_for(accounts: Seq<AccountRef>) -> bool {
    &&& crate::records::parse_holding_record(accounts[2].data@) matches Option::Some(h)
        && h.state != 0 && h.mint == accounts[1].address@ && h.holder == accounts[0].address@
}

/// A mint address is initialized exactly once, whatever name and symbol
/// the request carries: with every other check passing, a fresh (absent)
/// mint slot yields a creation plan, and a slot already in use is
/// rejected as an account mismatch.
pub proof fn lemma_initialize_exactly_once(accounts: Seq<AccountRef>, ids: ProgramIds)
    ensures
        init_valid_except_mint(accounts, ids) && !is_present(accounts[1]) ==> init_outcome(
            accounts,
            ids,
        ) is Ok,
        init_valid_except_mint(accounts, ids) && is_present(accounts[1]) ==> init_outcome(
            accounts,
            ids,
        ) == Result::Err::<InitializeTokenView, ErrorKind>(ErrorKind::AccountMismatch),
{
}

/// The checks of an issuance request that precede the holding slot: with
/// these passing, the derivation comparison is the next check reached.
pub open spec fn mint_prefix_valid(accounts: Seq<AccountRef>, ids: ProgramIds) -> bool {
    &&& accounts.len() == 7
    &&& accounts[0].is_signer
    &&& accounts[0].is_writable
    &&& is_present(accounts[1])
    &&& accounts[1].is_writable
    &&& accounts[1].owner@ == ids.token_program@
    &&& parse_mint_record(accounts[1].data@) matches Option::Some(m) && m.initialized
}

/// The dispatcher forwards the caller's amount unchanged: whenever an
/// issuance request goes through, the balance increase asked of the
/// ledger is exactly the requested amount, at exactly the resolved
/// holding account of the resolved mint. The ledger's own balance
/// arithmetic is outside this program; what it is asked to apply is
/// pinned here.
pub proof fn lemma_request_carries_amount(accounts: Seq<AccountRef>, ids: ProgramIds, amount: u64)
    ensures
        mint_outcome(accounts, ids, amount) matches Ok(q) ==> {
            &&& q.amount == amount
            &&& q.destination == accounts[2].address@
            &&& q.mint == accounts[1].address@
            &&& q.authority == accounts[0].address@
        },
{
}

/// A signer other than the mint's recorded authority is turned away as
/// unauthorized: whenever resolution succeeds but the authority rule
/// fails, the outcome is `Unauthorized` and no ledger request exists, so
/// no balance can change.
pub proof fn lemma_wrong_authority_rejected(accounts: Seq<AccountRef>, ids: ProgramIds, amount: u64)
    ensures
        (mint_resolve_outcome(accounts, ids) matches Ok(v) && !mint_authorized(v)) ==> mint_outcome(
            accounts,
            ids,
            amount,
        ) == Result::Err::<LedgerRequestView, ErrorKind>(ErrorKind::Unauthorized),
{
}

/// A holding-account slot that is not the deterministic derivation for
/// the request's (holder, mint) pair fails with the derivation-mismatch
/// error, for any issuance request whose earlier checks pass.
pub proof fn lemma_wrong_holding_address(accounts: Seq<AccountRef>, ids: ProgramIds, amount: u64)
    requires
        mint_prefix_valid(accounts, ids),
    ensures
        accounts[2].address@ != derived_holding_address(accounts[0].address@, accounts[1].address@)
            ==> mint_outcome(accounts, ids, amount) == Result::Err::<
            LedgerRequestView,
            ErrorKind,
        >(ErrorKind::AddressDerivationMismatch),
{
}

/// An issuance request whose authority did not sign fails with the
/// missing-signature error before anything else is examined, so no
/// ledger request exists and no side effect can occur; a creation
/// request is turned away the same way.
pub proof fn lemma_missing_signature_rejected(accounts: Seq<AccountRef>, ids: ProgramIds, amount: u64)
    requires
        accounts.len() == 7,
        !accounts[0].is_signer,
    ensures
        mint_outcome(accounts, ids, amount) == Result::Err::<LedgerRequestView, ErrorKind>(
            ErrorKind::MissingRequiredSignature,
        ),
        init_outcome(accounts, ids) == Result::Err::<InitializeTokenView, ErrorKind>(
            ErrorKind::MissingRequiredSignature,
        ),
{
}

/// Repeating an identical request always yields the identical outcome:
/// the decision is a function of the request alone, and a failed request
/// leaves no state behind to drift across retries.
pub proof fn lemma_identical_request_identical_outcome(
    accounts1: Seq<AccountRef>,
    accounts2: Seq<AccountRef>,
    ids1: ProgramIds,
    ids2: ProgramIds,
    amount1: u64,
    amount2: u64,
)
    requires
        accounts1 == accounts2,
        ids1 == ids2,
        amount1 == amount2,
    ensures
        mint_outcome(accounts1, ids1, amount1) == mint_outcome(accounts2, ids2, amount2),
        init_outcome(accounts1, ids1) == init_outcome(accounts2, ids2),
{
}

} // verus!
