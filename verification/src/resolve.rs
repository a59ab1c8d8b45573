use vstd::prelude::*;
use crate::addr::{Address, addr_eq};
use crate::account::{AccountRef, ProgramIds, account_present, accounts_wf, is_present};
use crate::ata::{derived_holding_address, holding_address_for};
use crate::errors::ErrorKind;
use crate::records::{
    HoldingRecord, HoldingRecordView, MintRecord, MintRecordView, MINT_DECIMALS, parse_holding,
    parse_holding_record, parse_mint, parse_mint_record,
};

verus! {

/// The resolved context of an issuance request: every handle typed,
/// ownership-checked, and cross-referenced.
#[derive(Debug)]
pub struct MintTokens {
    pub authority: Address,
    pub mint_address: Address,
    pub mint: MintRecord,
    pub holding_address: Address,
    pub holding: HoldingRecord,
}

/// Mathematical image of a resolved issuance context.
pub struct MintTokensView {
    pub authority: Seq<u8>,
    pub mint_address: Seq<u8>,
    pub mint: MintRecordView,
    pub holding_address: Seq<u8>,
    pub holding: HoldingRecordView,
}

impl View for MintTokens {
    type V = MintTokensView;

    open spec fn view(&self) -> MintTokensView {
        MintTokensView {
            authority: self.authority@,
            mint_address: self.mint_address@,
            mint: self.mint@,
            holding_address: self.holding_address@,
            holding: self.holding@,
        }
    }
}

/// The resolved plan of a creation request: the creating authority (who
/// becomes the mint authority of record), the fresh mint address, the
/// holding account address, whether the holding account must still be
/// created, and the fixed precision the mint is created with.
#[derive(Debug)]
pub struct InitializeToken {
    pub authority: Address,
    pub mint_address: Address,
    pub holding_address: Address,
    pub create_holding: bool,
    pub decimals: u8,
}

/// Mathematical image of a resolved creation plan.
pub struct InitializeTokenView {
    pub authority: Seq<u8>,
    pub mint_address: Seq<u8>,
    pub holding_address: Seq<u8>,
    pub create_holding: bool,
    pub decimals: u8,
}

impl View for InitializeToken {
    type V = InitializeTokenView;

    open spec fn view(&self) -> InitializeTokenView {
        InitializeTokenView {
            authority: self.authority@,
            mint_address: self.mint_address@,
            holding_address: self.holding_address@,
            create_holding: self.create_holding,
            decimals: self.decimals,
        }
    }
}

/// The service slots every request must fill, in order: the system
/// service, the token-ledger service, the address-derivation service, and
/// the rent sysvar, each by its fixed address.
pub open spec fn service_slots_ok(accounts: Seq<AccountRef>, ids: ProgramIds) -> bool
    recommends
        accounts.len() == 7,
{
    &&& accounts[3].address@ == ids.system_program@
    &&& accounts[4].address@ == ids.token_program@
    &&& accounts[5].address@ == ids.associated_token_program@
    &&& accounts[6].address@ == ids.rent_sysvar@
}

/// What resolving an issuance request yields, slot by slot in schema
/// order, the first failing check deciding the error: the signing
/// authority, the mint (present, ledger-owned, a valid initialized
/// record), the holding account (at the derived address, present,
/// ledger-owned, a valid record bound to this mint and holder), then the
/// four service slots.
pub open spec fn mint_resolve_outcome(accounts: Seq<AccountRef>, ids: ProgramIds) -> Result<
    MintTokensView,
    ErrorKind,
> {
    if accounts.len() != 7 {
        Result::Err(ErrorKind::MissingAccount)
    } else {
        let auth = accounts[0];
        let mint_acc = accounts[1];
        let holding_acc = accounts[2];
        if !auth.is_signer {
            Result::Err(ErrorKind::MissingRequiredSignature)
        } else if !auth.is_writable {
            Result::Err(ErrorKind::AccountMismatch)
        } else if !is_present(mint_acc) {
            Result::Err(ErrorKind::MissingAccount)
        } else if !mint_acc.is_writable {
            Result::Err(ErrorKind::AccountMismatch)
        } else if mint_acc.owner@ != ids.token_program@ {
            Result::Err(ErrorKind::AccountMismatch)
        } else {
            match parse_mint_record(mint_acc.data@) {
                Option::None => Result::Err(ErrorKind::AccountMismatch),
                Option::Some(rec) => {
                    if !rec.initialized {
                        Result::Err(ErrorKind::AccountMismatch)
                    } else if holding_acc.address@ != derived_holding_address(
                        auth.address@,
                        mint_acc.address@,
                    ) {
                        Result::Err(ErrorKind::AddressDerivationMismatch)
                    } else if !is_present(holding_acc) {
                        Result::Err(ErrorKind::MissingAccount)
                    } else if !holding_acc.is_writable {
                        Result::Err(ErrorKind::AccountMismatch)
                    } else if holding_acc.owner@ != ids.token_program@ {
                        Result::Err(ErrorKind::AccountMismatch)
                    } else {
                        match parse_holding_record(holding_acc.data@) {
                            Option::None => Result::Err(ErrorKind::AccountMismatch),
                            Option::Some(h) => {
                                if h.state == 0 {
                                    Result::Err(ErrorKind::AccountMismatch)
                                } else if h.mint != mint_acc.address@ {
                                    Result::Err(ErrorKind::AccountMismatch)
                                } else if h.holder != auth.address@ {
                                    Result::Err(ErrorKind::AccountMismatch)
                                } else if !service_slots_ok(accounts, ids) {
                                    Result::Err(ErrorKind::AccountMismatch)
                                } else {
                                    Result::Ok(
                                        MintTokensView {
                                            authority: auth.address@,
                                            mint_address: mint_acc.address@,
                                            mint: rec,
                                            holding_address: holding_acc.address@,
                                            holding: h,
                                        },
                                    )
                                }
                            },
                        }
                    }
                },
            }
        }
    }
}

/// What resolving a creation request yields: the signing authority, a
/// mint slot that must not exist yet, a holding slot at the derived
/// address that is either absent (to be created) or already ledger-owned
/// and bound to this mint and holder, then the four service slots. The
/// plan's precision is the configured constant, never caller-supplied.
pub open spec fn init_outcome(accounts: Seq<AccountRef>, ids: ProgramIds) -> Result<
    InitializeTokenView,
    ErrorKind,
> {
    if accounts.len() != 7 {
        Result::Err(ErrorKind::MissingAccount)
    } else {
        let auth = accounts[0];
        let mint_acc = accounts[1];
        let holding_acc = accounts[2];
        if !auth.is_signer {
            Result::Err(ErrorKind::MissingRequiredSignature)
        } else if !auth.is_writable {
            Result::Err(ErrorKind::AccountMismatch)
        } else if is_present(mint_acc) {
            Result::Err(ErrorKind::AccountMismatch)
        } else if holding_acc.address@ != derived_holding_address(
            auth.address@,
            mint_acc.address@,
        ) {
            Result::Err(ErrorKind::AddressDerivationMismatch)
        } else if is_present(holding_acc) {
            if holding_acc.owner@ != ids.token_program@ {
                Result::Err(ErrorKind::AccountMismatch)
            } else {
                match parse_holding_record(holding_acc.data@) {
                    Option::None => Result::Err(ErrorKind::AccountMismatch),
                    Option::Some(h) => {
                        if h.state == 0 {
                            Result::Err(ErrorKind::AccountMismatch)
                        } else if h.mint != mint_acc.address@ {
                            Result::Err(ErrorKind::AccountMismatch)
                        } else if h.holder != auth.address@ {
                            Result::Err(ErrorKind::AccountMismatch)
                        } else if !service_slots_ok(accounts, ids) {
                            Result::Err(ErrorKind::AccountMismatch)
                        } else {
                            Result::Ok(
                                InitializeTokenView {
                                    authority: auth.address@,
                                    mint_address: mint_acc.address@,
                                    holding_address: holding_acc.address@,
                                    create_holding: false,
                                    decimals: MINT_DECIMALS,
                                },
                            )
                        }
                    },
                }
            }
        } else if !service_slots_ok(accounts, ids) {
            Result::Err(ErrorKind::AccountMismatch)
        } else {
            Result::Ok(
                InitializeTokenView {
                    authority: auth.address@,
                    mint_address: mint_acc.address@,
                    holding_address: holding_acc.address@,
                    create_holding: true,
                    decimals: MINT_DECIMALS,
                },
            )
        }
    }
}

/// Check the four service slots against their fixed addresses.
fn check_service_slots(accounts: &Vec<AccountRef>, ids: &ProgramIds) -> (r: bool)
    requires
        accounts@.len() == 7,
    ensures
        r == service_slots_ok(accounts@, *ids),
{
    addr_eq(&accounts[3].address, &ids.system_program) && addr_eq(
        &accounts[4].address,
        &ids.token_program,
    ) && addr_eq(&accounts[5].address, &ids.associated_token_program) && addr_eq(
        &accounts[6].address,
        &ids.rent_sysvar,
    )
}

/// Bind every slot of an issuance request to a typed, ownership-checked
/// handle, or fail with the first failing check's error.
pub fn resolve_mint(accounts: &Vec<AccountRef>, ids: &ProgramIds) -> (r: Result<
    MintTokens,
    ErrorKind,
>)
    requires
        accounts_wf(accounts@),
    ensures
        match r {
            Result::Ok(ctx) => mint_resolve_outcome(accounts@, *ids) == Result::Ok::<
                MintTokensView,
                ErrorKind,
            >(ctx@),
            Result::Err(e) => mint_resolve_outcome(accounts@, *ids) == Result::Err::<
                MintTokensView,
                ErrorKind,
            >(e),
        },
{
    if accounts.len() != 7 {
        return Result::Err(ErrorKind::MissingAccount);
    }
    let auth = &accounts[0];
    let mint_acc = &accounts[1];
    let holding_acc = &accounts[2];
    if !auth.is_signer {
        return Result::Err(ErrorKind::MissingRequiredSignature);
    }
    if !auth.is_writable {
        return Result::Err(ErrorKind::AccountMismatch);
    }
    if !account_present(mint_acc) {
        return Result::Err(ErrorKind::MissingAccount);
    }
    if !mint_acc.is_writable {
        return Result::Err(ErrorKind::AccountMismatch);
    }
    if !addr_eq(&mint_acc.owner, &ids.token_program) {
        return Result::Err(ErrorKind::AccountMismatch);
    }
    let rec = match parse_mint(&mint_acc.data) {
        Option::Some(m) => m,
        Option::None => {
            return Result::Err(ErrorKind::AccountMismatch);
        },
    };
    if !rec.initialized {
        return Result::Err(ErrorKind::AccountMismatch);
    }
    let derived = holding_address_for(&auth.address, &mint_acc.address);
    if !addr_eq(&holding_acc.address, &derived) {
        return Result::Err(ErrorKind::AddressDerivationMismatch);
    }
    if !account_present(holding_acc) {
        return Result::Err(ErrorKind::MissingAccount);
    }
    if !holding_acc.is_writable {
        return Result::Err(ErrorKind::AccountMismatch);
    }
    if !addr_eq(&holding_acc.owner, &ids.token_program) {
        return Result::Err(ErrorKind::AccountMismatch);
    }
    let hold = match parse_holding(&holding_acc.data) {
        Option::Some(h) => h,
        Option::None => {
            return Result::Err(ErrorKind::AccountMismatch);
        },
    };
    if hold.state == 0 {
        return Result::Err(ErrorKind::AccountMismatch);
    }
    if !addr_eq(&hold.mint, &mint_acc.address) {
        return Result::Err(ErrorKind::AccountMismatch);
    }
    if !addr_eq(&hold.holder, &auth.address) {
        return Result::Err(ErrorKind::AccountMismatch);
    }
    if !check_service_slots(accounts, ids) {
        return Result::Err(ErrorKind::AccountMismatch);
    }
    Result::Ok(
        MintTokens {
            authority: auth.address.dup(),
            mint_address: mint_acc.address.dup(),
            mint: rec,
            holding_address: holding_acc.address.dup(),
            holding: hold,
        },
    )
}

/// Bind every slot of a creation request, or fail with the first failing
/// check's error; on success the signer becomes the mint authority of
/// record and the plan fixes the precision to the configured constant.
pub fn resolve_initialize(accounts: &Vec<AccountRef>, ids: &ProgramIds) -> (r: Result<
    InitializeToken,
    ErrorKind,
>)
    requires
        accounts_wf(accounts@),
    ensures
        match r {
            Result::Ok(plan) => init_outcome(accounts@, *ids) == Result::Ok::<
                InitializeTokenView,
                ErrorKind,
            >(plan@),
            Result::Err(e) => init_outcome(accounts@, *ids) == Result::Err::<
                InitializeTokenView,
                ErrorKind,
            >(e),
        },
{
    if accounts.len() != 7 {
        return Result::Err(ErrorKind::MissingAccount);
    }
    let auth = &accounts[0];
    let mint_acc = &accounts[1];
    let holding_acc = &accounts[2];
    if !auth.is_signer {
        return Result::Err(ErrorKind::MissingRequiredSignature);
    }
    if !auth.is_writable {
        return Result::Err(ErrorKind::AccountMismatch);
    }
    if account_present(mint_acc) {
        return Result::Err(ErrorKind::AccountMismatch);
    }
    let derived = holding_address_for(&auth.address, &mint_acc.address);
    if !addr_eq(&holding_acc.address, &derived) {
        return Result::Err(ErrorKind::AddressDerivationMismatch);
    }
    let create_holding: bool;
    if account_present(holding_acc) {
        if !addr_eq(&holding_acc.owner, &ids.token_program) {
            return Result::Err(ErrorKind::AccountMismatch);
        }
        let hold = match parse_holding(&holding_acc.data) {
            Option::Some(h) => h,
            Option::None => {
                return Result::Err(ErrorKind::AccountMismatch);
            },
        };
        if hold.state == 0 {
            return Result::Err(ErrorKind::AccountMismatch);
        }
        if !addr_eq(&hold.mint, &mint_acc.address) {
            return Result::Err(ErrorKind::AccountMismatch);
        }
        if !addr_eq(&hold.holder, &auth.address) {
            return Result::Err(ErrorKind::AccountMismatch);
        }
        create_holding = false;
    } else {
        create_holding = true;
    }
    if !check_service_slots(accounts, ids) {
        return Result::Err(ErrorKind::AccountMismatch);
    }
    Result::Ok(
        InitializeToken {
            authority: auth.address.dup(),
            mint_address: mint_acc.address.dup(),
            holding_address: holding_acc.address.dup(),
            create_holding,
            decimals: MINT_DECIMALS,
        },
    )
}

} // verus!
