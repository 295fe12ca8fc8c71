//! Outbound wrap: lock the caller's tokens in the route's vault and build the
//! encoded request that the counterpart chain mints against.
use vstd::prelude::*;

use crate::accounts::{AccountRef, ActionModel, MintRef, TokenAccountRef, TokenAction};
use crate::address::{controller_seeds, derive_controller, derive_vault, matches_derived, pda, route_seeds};
use crate::bytes::bytes_eq;
use crate::codec::{decode_wrap_spec, wrap_params_abi_encoding};
use crate::constants::vault_seed_spec;
use crate::error::BridglError;
use crate::state::{Controller, WrapParams};

verus! {

/// The accounts of an outbound wrap call.
pub struct Wrap {
    /// This program's own address.
    pub program_id: Vec<u8>,
    /// The depositing caller.
    pub authority: AccountRef,
    /// The controller record's address.
    pub controller_key: Vec<u8>,
    /// The controller record.
    pub controller: Controller,
    /// The route's vault.
    pub vault: TokenAccountRef,
    /// The caller's token account of the underlying asset.
    pub from: TokenAccountRef,
    /// The underlying asset's mint.
    pub underlying_token: MintRef,
}

impl Wrap {
    /// The program address that derivations run under is a 32-byte key.
    pub open spec fn wf(&self) -> bool {
        self.program_id@.len() == 32
    }
}

/// What an accepted outbound wrap produces: the deposit into the vault, and the
/// encoded payload for the relay layer to carry.
pub struct OutboundWrap {
    pub deposit: TokenAction,
    pub payload: Vec<u8>,
}

/// The fields of the payload an outbound wrap emits.
pub open spec fn outbound_payload_fields(
    ctx: Wrap,
    name: Seq<char>,
    symbol: Seq<char>,
    to: Seq<u8>,
    amount: u64,
) -> (
    Seq<char>,
    Seq<char>,
    Seq<u8>,
    Seq<u8>,
    u128,
) {
    (name, symbol, ctx.underlying_token.key@, to, amount as u128)
}

/// The outcome of an outbound wrap: the account checks in order, then the
/// deposit, authorized by the caller, and the encoded payload.
pub open spec fn wrap_outbound_spec(
    ctx: Wrap,
    destination_chain_selector: u64,
    bridgl_address: Seq<u8>,
    to: Seq<u8>,
    amount: u64,
    name: Seq<char>,
    symbol: Seq<char>,
) -> Result<(ActionModel, Seq<u8>), BridglError> {
    if !ctx.authority.is_signer {
        Err(BridglError::InvalidCaller)
    } else if pda(controller_seeds(), ctx.program_id@) != Some(ctx.controller_key@) {
        Err(BridglError::InvalidController)
    } else if pda(
        route_seeds(
            vault_seed_spec(),
            destination_chain_selector,
            bridgl_address,
            ctx.underlying_token.key@,
        ),
        ctx.program_id@,
    ) != Some(ctx.vault.key@) {
        Err(BridglError::InvalidVault)
    } else if ctx.from.mint@ != ctx.underlying_token.key@ || ctx.from.owner@ != ctx.authority.key@ {
        Err(BridglError::InvalidFromAccount)
    } else {
        Ok(
            (
                ActionModel::TransferChecked {
                    from: ctx.from.key@,
                    to: ctx.vault.key@,
                    authority: ctx.authority.key@,
                    mint: ctx.underlying_token.key@,
                    amount,
                    decimals: ctx.underlying_token.decimals,
                },
                wrap_params_abi_encoding(outbound_payload_fields(ctx, name, symbol, to, amount)),
            ),
        )
    }
}

/// Locks `amount` of the caller's underlying tokens in the vault of the route
/// `(destination_chain_selector, bridgl_address, underlying asset)` and builds
/// the wrap request for `to` on the counterpart chain, carrying the asset's
/// `name` and `symbol`.
pub fn wrap(
    ctx: &Wrap,
    destination_chain_selector: u64,
    bridgl_address: Vec<u8>,
    to: Vec<u8>,
    amount: u64,
    extra_args: Vec<u8>,
    name: String,
    symbol: String,
) -> (r: Result<OutboundWrap, BridglError>)
    requires
        ctx.wf(),
    ensures
        match r {
            Ok(o) => wrap_outbound_spec(
                *ctx,
                destination_chain_selector,
                bridgl_address@,
                to@,
                amount,
                name@,
                symbol@,
            ) == Ok::<(ActionModel, Seq<u8>), BridglError>((o.deposit@, o.payload@)),
            Err(e) => wrap_outbound_spec(
                *ctx,
                destination_chain_selector,
                bridgl_address@,
                to@,
                amount,
                name@,
                symbol@,
            ) == Err::<(ActionModel, Seq<u8>), BridglError>(e),
        },
        r matches Ok(o) ==> decode_wrap_spec(o.payload@) == Some(
            outbound_payload_fields(*ctx, name@, symbol@, to@, amount),
        ),
{
    if !ctx.authority.is_signer {
        return Err(BridglError::InvalidCaller);
    }
    let controller = derive_controller(&ctx.program_id);
    if !matches_derived(controller, &ctx.controller_key) {
        return Err(BridglError::InvalidController);
    }
    let vault = derive_vault(
        &ctx.program_id,
        destination_chain_selector,
        &bridgl_address,
        &ctx.underlying_token.key,
    );
    if !matches_derived(vault, &ctx.vault.key) {
        return Err(BridglError::InvalidVault);
    }
    if !bytes_eq(ctx.from.mint.as_slice(), ctx.underlying_token.key.as_slice()) || !bytes_eq(
        ctx.from.owner.as_slice(),
        ctx.authority.key.as_slice(),
    ) {
        return Err(BridglError::InvalidFromAccount);
    }
    let deposit = TokenAction::TransferChecked {
        from: ctx.from.key.clone(),
        to: ctx.vault.key.clone(),
        authority: ctx.authority.key.clone(),
        mint: ctx.underlying_token.key.clone(),
        amount,
        decimals: ctx.underlying_token.decimals,
    };
    let params = WrapParams {
        name,
        symbol,
        underlying_token: ctx.underlying_token.key.clone(),
        to,
        amount: amount as u128,
    };
    let payload = params.encode();
    Ok(OutboundWrap { deposit, payload })
}

} // verus!
