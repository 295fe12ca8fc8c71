//! One-time setup of the controller record and of a route's wrapped mint, and
//! the caller-side unwrap instruction.
use vstd::prelude::*;

use crate::accounts::AccountRef;
use crate::address::{
    controller_seeds, derive_controller, derive_wrapped_mint, matches_derived, pda,
    program_address, route_seeds,
};
use crate::constants::{WRAPPER_DECIMALS, wrapper_seed_spec};
use crate::error::BridglError;
use crate::state::Controller;

verus! {

/// The accounts of the controller setup call.
pub struct InitializeController {
    /// This program's own address.
    pub program_id: Vec<u8>,
    /// The payer of the new record, which must sign.
    pub payer: AccountRef,
    /// The address at which the record is to be created.
    pub controller_key: Vec<u8>,
}

/// The accounts of the wrapped-mint setup call.
pub struct InitializeWrapper {
    /// This program's own address.
    pub program_id: Vec<u8>,
    /// The payer of the new mint, which must sign.
    pub payer: AccountRef,
    /// The controller record's address.
    pub controller_key: Vec<u8>,
    /// The address at which the wrapped mint is to be created.
    pub wrapper_key: Vec<u8>,
}

/// The accounts of the caller-side unwrap call.
pub struct Unwrap {
    pub authority: AccountRef,
    pub payer: AccountRef,
}

/// A wrapped-asset mint to be created.
pub struct WrapperMint {
    pub key: Vec<u8>,
    pub decimals: u8,
    pub mint_authority: Vec<u8>,
    pub freeze_authority: Vec<u8>,
}

/// Creates the controller record for `router`, at the address derived for this
/// program, remembering the bump of that address.
pub fn initialize_controller(ctx: &InitializeController, router: Vec<u8>) -> (r: Result<
    Controller,
    BridglError,
>)
    requires
        ctx.program_id@.len() == 32,
    ensures
        !ctx.payer.is_signer ==> r == Err::<Controller, BridglError>(BridglError::InvalidCaller),
        ctx.payer.is_signer && pda(controller_seeds(), ctx.program_id@) != Some(ctx.controller_key@)
            ==> r == Err::<Controller, BridglError>(BridglError::InvalidController),
        r is Ok <==> ctx.payer.is_signer && pda(controller_seeds(), ctx.program_id@) == Some(
            ctx.controller_key@,
        ),
        r matches Ok(c) ==> c.router@ == router@ && program_address(
            controller_seeds(),
            ctx.program_id@,
        ) == Some((ctx.controller_key@, c.bump)),
{
    if !ctx.payer.is_signer {
        return Err(BridglError::InvalidCaller);
    }
    let derived = derive_controller(&ctx.program_id);
    match derived {
        Some((a, bump)) => {
            if matches_derived(Some((a, bump)), &ctx.controller_key) {
                Ok(Controller { bump, router })
            } else {
                Err(BridglError::InvalidController)
            }
        },
        None => Err(BridglError::InvalidController),
    }
}

/// Creates the wrapped mint of the route `(chain_selector, bridgl_address,
/// underlying_token)`: six decimals, with the controller as mint and freeze
/// authority.
pub fn initialize_wrapper(
    ctx: &InitializeWrapper,
    chain_selector: u64,
    bridgl_address: Vec<u8>,
    underlying_token: Vec<u8>,
) -> (r: Result<WrapperMint, BridglError>)
    requires
        ctx.program_id@.len() == 32,
    ensures
        !ctx.payer.is_signer ==> r == Err::<WrapperMint, BridglError>(BridglError::InvalidCaller),
        ctx.payer.is_signer && pda(controller_seeds(), ctx.program_id@) != Some(ctx.controller_key@)
            ==> r == Err::<WrapperMint, BridglError>(BridglError::InvalidController),
        ctx.payer.is_signer && pda(controller_seeds(), ctx.program_id@) == Some(ctx.controller_key@)
            && pda(
            route_seeds(wrapper_seed_spec(), chain_selector, bridgl_address@, underlying_token@),
            ctx.program_id@,
        ) != Some(ctx.wrapper_key@) ==> r == Err::<WrapperMint, BridglError>(
            BridglError::InvalidWrapperMint,
        ),
        r is Ok <==> ctx.payer.is_signer && pda(controller_seeds(), ctx.program_id@) == Some(
            ctx.controller_key@,
        ) && pda(
            route_seeds(wrapper_seed_spec(), chain_selector, bridgl_address@, underlying_token@),
            ctx.program_id@,
        ) == Some(ctx.wrapper_key@),
        r matches Ok(m) ==> m.key@ == ctx.wrapper_key@ && m.decimals == WRAPPER_DECIMALS
            && m.mint_authority@ == ctx.controller_key@ && m.freeze_authority@ == ctx.controller_key@,
{
    if !ctx.payer.is_signer {
        return Err(BridglError::InvalidCaller);
    }
    let controller = derive_controller(&ctx.program_id);
    if !matches_derived(controller, &ctx.controller_key) {
        return Err(BridglError::InvalidController);
    }
    let wrapper = derive_wrapped_mint(
        &ctx.program_id,
        chain_selector,
        &bridgl_address,
        &underlying_token,
    );
    if !matches_derived(wrapper, &ctx.wrapper_key) {
        return Err(BridglError::InvalidWrapperMint);
    }
    Ok(
        WrapperMint {
            key: ctx.wrapper_key.clone(),
            decimals: WRAPPER_DECIMALS,
            mint_authority: ctx.controller_key.clone(),
            freeze_authority: ctx.controller_key.clone(),
        },
    )
}

/// The caller-side unwrap instruction: both the authority and the payer must
/// sign; it moves no tokens.
pub fn unwrap(ctx: &Unwrap) -> (r: Result<(), BridglError>)
    ensures
        r is Ok <==> ctx.authority.is_signer && ctx.payer.is_signer,
        r is Err ==> r == Err::<(), BridglError>(BridglError::InvalidCaller),
{
    if !ctx.authority.is_signer || !ctx.payer.is_signer {
        return Err(BridglError::InvalidCaller);
    }
    Ok(())
}

} // verus!
