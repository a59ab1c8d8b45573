use vstd::prelude::*;
use crate::addr::addr_eq;
use crate::resolve::{MintTokens, MintTokensView};

verus! {

/// The issuance authority rule: the signer must equal the mint's recorded
/// authority byte for byte; a mint whose authority has been removed
/// admits no signer at all.
pub open spec fn mint_authorized(v: MintTokensView) -> bool {
    match v.mint.authority {
        Option::Some(k) => k == v.authority,
        Option::None => false,
    }
}

/// Confirm the signing account satisfies the authority required for an
/// issuance; a pure check, performed after resolution and before
/// dispatch.
pub fn authorize_mint(ctx: &MintTokens) -> (r: bool)
    ensures
        r == mint_authorized(ctx@),
{
    match &ctx.mint.authority {
        Option::Some(k) => addr_eq(k, &ctx.authority),
        Option::None => false,
    }
}

} // verus!
