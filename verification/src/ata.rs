use vstd::prelude::*;
use crate::addr::Address;

verus! {

/// The deterministic associated-account address for a (holder, mint)
/// pair, as the external address-derivation service computes it.
pub uninterp spec fn derived_holding_address(holder: Seq<u8>, mint: Seq<u8>) -> Seq<u8>;

/// Relies on `spl_associated_token_account::get_associated_token_address`:
/// the associated address is a deterministic function of the holder and
/// mint addresses alone (the service and ledger identities folded into it
/// are fixed constants).
#[verifier::external_body]
#[allow(deprecated)]
fn derive_holding_address(holder: &Address, mint: &Address) -> (r: Address)
    requires
        holder@.len() == 32,
        mint@.len() == 32,
    ensures
        r@ == derived_holding_address(holder@, mint@),
{
    let h = spl_token::solana_program::pubkey::Pubkey::try_from(holder.bytes.as_slice()).unwrap();
    let m = spl_token::solana_program::pubkey::Pubkey::try_from(mint.bytes.as_slice()).unwrap();
    let pk = spl_associated_token_account::get_associated_token_address(&h, &m);
    Address { bytes: pk.to_bytes().to_vec() }
}

/// The address the holding account for this (holder, mint) pair must
/// carry.
pub fn holding_address_for(holder: &Address, mint: &Address) -> (r: Address)
    requires
        holder@.len() == 32,
        mint@.len() == 32,
    ensures
        r@ == derived_holding_address(holder@, mint@),
{
    derive_holding_address(holder, mint)
}

} // verus!
