use spl_token_minter::account::{AccountRef, ProgramIds};
use spl_token_minter::addr::{addr_eq, Address};
use spl_token_minter::ata::holding_address_for;
use spl_token_minter::dispatch::{absorb_ledger_outcome, LedgerRequest};
use spl_token_minter::errors::ErrorKind;
use spl_token_minter::pipeline::{initialize_token, mint_tokens};
use spl_token_minter::records::{parse_holding, parse_mint};

fn addr(seed: u8) -> Address {
    Address { bytes: vec![seed; 32] }
}

fn ids() -> ProgramIds {
    ProgramIds {
        system_program: addr(0xF1),
        token_program: addr(0xF2),
        associated_token_program: addr(0xF3),
        rent_sysvar: addr(0xF4),
    }
}

fn acct(
    address: &Address,
    owner: &Address,
    is_signer: bool,
    is_writable: bool,
    lamports: u64,
    data: Vec<u8>,
) -> AccountRef {
    AccountRef {
        address: Address { bytes: address.bytes.clone() },
        owner: Address { bytes: owner.bytes.clone() },
        is_signer,
        is_writable,
        lamports,
        data,
    }
}

fn mint_data(authority: Option<&Address>, supply: u64, decimals: u8, initialized: bool) -> Vec<u8> {
    let mut d = vec![0u8; 82];
    if let Some(a) = authority {
        d[0] = 1;
        d[4..36].copy_from_slice(&a.bytes);
    }
    d[36..44].copy_from_slice(&supply.to_le_bytes());
    d[44] = decimals;
    d[45] = if initialized { 1 } else { 0 };
    d
}

fn holding_data(mint: &Address, holder: &Address, balance: u64, state: u8) -> Vec<u8> {
    let mut d = vec![0u8; 165];
    d[0..32].copy_from_slice(&mint.bytes);
    d[32..64].copy_from_slice(&holder.bytes);
    d[64..72].copy_from_slice(&balance.to_le_bytes());
    d[108] = state;
    d
}

fn service_accounts(ids: &ProgramIds) -> Vec<AccountRef> {
    vec![
        acct(&ids.system_program, &ids.system_program, false, false, 1, vec![]),
        acct(&ids.token_program, &ids.system_program, false, false, 1, vec![]),
        acct(&ids.associated_token_program, &ids.system_program, false, false, 1, vec![]),
        acct(&ids.rent_sysvar, &ids.system_program, false, false, 1, vec![]),
    ]
}

/// A full, valid issuance request: authority `a` signing, mint `m` with
/// recorded authority `a`, and `a`'s derived holding account with the
/// given balance.
fn mint_request_accounts(a: &Address, m: &Address, ids: &ProgramIds, balance: u64) -> Vec<AccountRef> {
    let holding = holding_address_for(a, m);
    let mut accounts = vec![
        acct(a, &ids.system_program, true, true, 1, vec![]),
        acct(m, &ids.token_program, false, true, 1, mint_data(Some(a), 0, 9, true)),
        acct(&holding, &ids.token_program, false, true, 1, holding_data(m, a, balance, 1)),
    ];
    accounts.extend(service_accounts(ids));
    accounts
}

/// The test double for the external ledger: apply a mint request to a
/// balance, failing with an arithmetic error code on supply overflow.
fn ledger_apply(req: &LedgerRequest, balance: u64) -> Result<u64, u64> {
    balance.checked_add(req.amount).ok_or(11u64)
}

#[test]
fn test_process_instruction() {
}

#[test]
fn initialize_fresh_mint_succeeds() {
    let a = addr(1);
    let m = addr(2);
    let ids = ids();
    let holding = holding_address_for(&a, &m);
    let mut accounts = vec![
        acct(&a, &ids.system_program, true, true, 1, vec![]),
        acct(&m, &ids.system_program, false, true, 0, vec![]),
        acct(&holding, &ids.system_program, false, true, 0, vec![]),
    ];
    accounts.extend(service_accounts(&ids));
    let plan = initialize_token(&accounts, &ids, "Token", "TOK", 0).unwrap();
    assert!(addr_eq(&plan.authority, &a));
    assert!(addr_eq(&plan.mint_address, &m));
    assert!(addr_eq(&plan.holding_address, &holding));
    assert!(plan.create_holding);
    // The caller-supplied decimals byte is ignored: precision is fixed.
    assert_eq!(plan.decimals, 9);
}

#[test]
fn initialize_reused_mint_fails() {
    let a = addr(1);
    let m = addr(2);
    let ids = ids();
    let holding = holding_address_for(&a, &m);
    let mut accounts = vec![
        acct(&a, &ids.system_program, true, true, 1, vec![]),
        // the mint address is already in use
        acct(&m, &ids.token_program, false, true, 1, mint_data(Some(&a), 0, 9, true)),
        acct(&holding, &ids.system_program, false, true, 0, vec![]),
    ];
    accounts.extend(service_accounts(&ids));
    let r = initialize_token(&accounts, &ids, "Token", "TOK", 9);
    assert_eq!(r.unwrap_err(), ErrorKind::AccountMismatch);
}

#[test]
fn initialize_with_existing_bound_holding_account() {
    let a = addr(1);
    let m = addr(2);
    let ids = ids();
    let holding = holding_address_for(&a, &m);
    let mut accounts = vec![
        acct(&a, &ids.system_program, true, true, 1, vec![]),
        acct(&m, &ids.system_program, false, true, 0, vec![]),
        acct(&holding, &ids.token_program, false, true, 1, holding_data(&m, &a, 0, 1)),
    ];
    accounts.extend(service_accounts(&ids));
    let plan = initialize_token(&accounts, &ids, "Token", "TOK", 9).unwrap();
    assert!(!plan.create_holding);
}

#[test]
fn mint_tokens_increases_balance_by_amount() {
    let a = addr(1);
    let m = addr(2);
    let ids = ids();
    let accounts = mint_request_accounts(&a, &m, &ids, 0);
    let req = mint_tokens(&accounts, &ids, 1000).unwrap();
    assert_eq!(req.amount, 1000);
    assert!(addr_eq(&req.mint, &m));
    assert!(addr_eq(&req.authority, &a));
    assert!(addr_eq(&req.destination, &holding_address_for(&a, &m)));
    let before = 0u64;
    let after = ledger_apply(&req, before).unwrap();
    assert_eq!(after - before, 1000);
}

#[test]
fn mint_tokens_zero_amount_is_a_no_op_change() {
    let a = addr(1);
    let m = addr(2);
    let ids = ids();
    let accounts = mint_request_accounts(&a, &m, &ids, 500);
    let req = mint_tokens(&accounts, &ids, 0).unwrap();
    assert_eq!(req.amount, 0);
    assert_eq!(ledger_apply(&req, 500).unwrap(), 500);
}

#[test]
fn mint_tokens_max_amount_overflow_is_ledger_failure() {
    let a = addr(1);
    let m = addr(2);
    let ids = ids();
    let accounts = mint_request_accounts(&a, &m, &ids, 1);
    let req = mint_tokens(&accounts, &ids, u64::MAX).unwrap();
    let outcome = ledger_apply(&req, 1).map(|_| ());
    let r = absorb_ledger_outcome(outcome);
    assert_eq!(r.unwrap_err(), ErrorKind::LedgerFailure(11));
}

#[test]
fn mint_tokens_wrong_authority_unauthorized() {
    let a = addr(1);
    let b = addr(3);
    let m = addr(2);
    let ids = ids();
    // b signs with their own derived, bound holding account, but the
    // mint's recorded authority is a
    let holding_b = holding_address_for(&b, &m);
    let mut accounts = vec![
        acct(&b, &ids.system_program, true, true, 1, vec![]),
        acct(&m, &ids.token_program, false, true, 1, mint_data(Some(&a), 0, 9, true)),
        acct(&holding_b, &ids.token_program, false, true, 1, holding_data(&m, &b, 0, 1)),
    ];
    accounts.extend(service_accounts(&ids));
    let r = mint_tokens(&accounts, &ids, 500);
    assert_eq!(r.unwrap_err(), ErrorKind::Unauthorized);
}

#[test]
fn mint_tokens_wrong_holding_address_fails_derivation() {
    let a = addr(1);
    let m = addr(2);
    let ids = ids();
    let mut accounts = mint_request_accounts(&a, &m, &ids, 0);
    // supply the holder's own address in the holding slot instead of the
    // derived one
    accounts[2] = acct(&a, &ids.token_program, false, true, 1, holding_data(&m, &a, 0, 1));
    let r = mint_tokens(&accounts, &ids, 5);
    assert_eq!(r.unwrap_err(), ErrorKind::AddressDerivationMismatch);
}

#[test]
fn mint_tokens_missing_signature() {
    let a = addr(1);
    let m = addr(2);
    let ids = ids();
    let mut accounts = mint_request_accounts(&a, &m, &ids, 0);
    accounts[0].is_signer = false;
    let r = mint_tokens(&accounts, &ids, 5);
    assert_eq!(r.unwrap_err(), ErrorKind::MissingRequiredSignature);
}

#[test]
fn identical_failed_request_fails_identically() {
    let a = addr(1);
    let b = addr(3);
    let m = addr(2);
    let ids = ids();
    let holding_b = holding_address_for(&b, &m);
    let mut accounts = vec![
        acct(&b, &ids.system_program, true, true, 1, vec![]),
        acct(&m, &ids.token_program, false, true, 1, mint_data(Some(&a), 0, 9, true)),
        acct(&holding_b, &ids.token_program, false, true, 1, holding_data(&m, &b, 0, 1)),
    ];
    accounts.extend(service_accounts(&ids));
    let first = mint_tokens(&accounts, &ids, 500).unwrap_err();
    let second = mint_tokens(&accounts, &ids, 500).unwrap_err();
    assert_eq!(first, ErrorKind::Unauthorized);
    assert_eq!(first, second);
}

#[test]
fn mint_tokens_too_few_accounts() {
    let a = addr(1);
    let m = addr(2);
    let ids = ids();
    let mut accounts = mint_request_accounts(&a, &m, &ids, 0);
    accounts.pop();
    let r = mint_tokens(&accounts, &ids, 5);
    assert_eq!(r.unwrap_err(), ErrorKind::MissingAccount);
}

#[test]
fn mint_tokens_absent_mint_account() {
    let a = addr(1);
    let m = addr(2);
    let ids = ids();
    let mut accounts = mint_request_accounts(&a, &m, &ids, 0);
    accounts[1].lamports = 0;
    let r = mint_tokens(&accounts, &ids, 5);
    assert_eq!(r.unwrap_err(), ErrorKind::MissingAccount);
}

#[test]
fn mint_tokens_mint_owned_by_wrong_program() {
    let a = addr(1);
    let m = addr(2);
    let ids = ids();
    let mut accounts = mint_request_accounts(&a, &m, &ids, 0);
    accounts[1].owner = addr(0x77);
    let r = mint_tokens(&accounts, &ids, 5);
    assert_eq!(r.unwrap_err(), ErrorKind::AccountMismatch);
}

#[test]
fn mint_tokens_malformed_mint_record() {
    let a = addr(1);
    let m = addr(2);
    let ids = ids();
    let mut accounts = mint_request_accounts(&a, &m, &ids, 0);
    // a bad optional-field tag makes the record unreadable
    accounts[1].data[1] = 9;
    let r = mint_tokens(&accounts, &ids, 5);
    assert_eq!(r.unwrap_err(), ErrorKind::AccountMismatch);
}

#[test]
fn mint_tokens_uninitialized_mint_record() {
    let a = addr(1);
    let m = addr(2);
    let ids = ids();
    let mut accounts = mint_request_accounts(&a, &m, &ids, 0);
    accounts[1].data = mint_data(Some(&a), 0, 9, false);
    let r = mint_tokens(&accounts, &ids, 5);
    assert_eq!(r.unwrap_err(), ErrorKind::AccountMismatch);
}

#[test]
fn mint_tokens_holding_bound_to_other_holder() {
    let a = addr(1);
    let m = addr(2);
    let ids = ids();
    let mut accounts = mint_request_accounts(&a, &m, &ids, 0);
    accounts[2].data = holding_data(&m, &addr(9), 0, 1);
    let r = mint_tokens(&accounts, &ids, 5);
    assert_eq!(r.unwrap_err(), ErrorKind::AccountMismatch);
}

#[test]
fn mint_tokens_wrong_service_slot() {
    let a = addr(1);
    let m = addr(2);
    let ids = ids();
    let mut accounts = mint_request_accounts(&a, &m, &ids, 0);
    accounts[4].address = addr(0x55);
    let r = mint_tokens(&accounts, &ids, 5);
    assert_eq!(r.unwrap_err(), ErrorKind::AccountMismatch);
}

#[test]
fn ledger_outcome_is_forwarded_verbatim() {
    assert_eq!(absorb_ledger_outcome(Ok(())), Ok(()));
    assert_eq!(
        absorb_ledger_outcome(Err(6)).unwrap_err(),
        ErrorKind::LedgerFailure(6)
    );
}

#[test]
fn error_codes_are_stable() {
    assert_eq!(ErrorKind::MissingAccount.code(), 1);
    assert_eq!(ErrorKind::AccountMismatch.code(), 2);
    assert_eq!(ErrorKind::AddressDerivationMismatch.code(), 3);
    assert_eq!(ErrorKind::MissingRequiredSignature.code(), 4);
    assert_eq!(ErrorKind::Unauthorized.code(), 5);
    assert_eq!(ErrorKind::LedgerFailure(42).code(), 42);
}

#[test]
fn parse_mint_reads_exact_fields() {
    let a = addr(1);
    let d = mint_data(Some(&a), 1000, 9, true);
    let rec = parse_mint(&d).unwrap();
    assert_eq!(rec.supply, 1000);
    assert_eq!(rec.decimals, 9);
    assert!(rec.initialized);
    assert!(addr_eq(rec.authority.as_ref().unwrap(), &a));
    let no_auth = parse_mint(&mint_data(None, 7, 2, true)).unwrap();
    assert!(no_auth.authority.is_none());
    assert_eq!(no_auth.supply, 7);
    assert!(parse_mint(&vec![0u8; 81]).is_none());
}

#[test]
fn parse_holding_reads_exact_fields() {
    let m = addr(2);
    let a = addr(1);
    let d = holding_data(&m, &a, 0x0102030405060708, 2);
    let rec = parse_holding(&d).unwrap();
    assert!(addr_eq(&rec.mint, &m));
    assert!(addr_eq(&rec.holder, &a));
    assert_eq!(rec.balance, 0x0102030405060708);
    assert_eq!(rec.state, 2);
    assert!(parse_holding(&vec![0u8; 164]).is_none());
    let mut bad = holding_data(&m, &a, 1, 1);
    bad[108] = 3;
    assert!(parse_holding(&bad).is_none());
}

#[test]
fn derived_address_is_deterministic_and_fresh() {
    let a = addr(1);
    let m = addr(2);
    let first = holding_address_for(&a, &m);
    let second = holding_address_for(&a, &m);
    assert!(addr_eq(&first, &second));
    // the derivation maps to a distinct address, not one of its inputs
    assert!(!addr_eq(&first, &a));
    assert!(!addr_eq(&first, &m));
    // and distinct mints map to distinct holding accounts
    let other = holding_address_for(&a, &addr(3));
    assert!(!addr_eq(&first, &other));
}

#[test]
fn scenario_initialize_then_mint_then_reject() {
    let a = addr(1);
    let b = addr(3);
    let m = addr(2);
    let ids = ids();

    // initialize mint M, name "Token", symbol "TOK", signed by A
    let holding = holding_address_for(&a, &m);
    let mut init_accounts = vec![
        acct(&a, &ids.system_program, true, true, 1, vec![]),
        acct(&m, &ids.system_program, false, true, 0, vec![]),
        acct(&holding, &ids.system_program, false, true, 0, vec![]),
    ];
    init_accounts.extend(service_accounts(&ids));
    let plan = initialize_token(&init_accounts, &ids, "Token", "TOK", 9).unwrap();
    // M's authority of record is A
    assert!(addr_eq(&plan.authority, &a));

    // mint 1000 signed by A
    let accounts = mint_request_accounts(&a, &m, &ids, 0);
    let req = mint_tokens(&accounts, &ids, 1000).unwrap();
    let balance = ledger_apply(&req, 0).unwrap();
    assert_eq!(balance, 1000);

    // mint 500 signed by B: rejected, balance unchanged
    let holding_b = holding_address_for(&b, &m);
    let mut b_accounts = vec![
        acct(&b, &ids.system_program, true, true, 1, vec![]),
        acct(&m, &ids.token_program, false, true, 1, mint_data(Some(&a), 1000, 9, true)),
        acct(&holding_b, &ids.token_program, false, true, 1, holding_data(&m, &b, 0, 1)),
    ];
    b_accounts.extend(service_accounts(&ids));
    let r = mint_tokens(&b_accounts, &ids, 500);
    assert_eq!(r.unwrap_err(), ErrorKind::Unauthorized);
    assert_eq!(balance, 1000);
}
