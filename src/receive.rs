//! Inbound messages: authorization of the calling relay, size bounds, and
//! dispatch on the selector byte to a mint or a vault release.
use vstd::prelude::*;

use crate::accounts::{AccountRef, ActionModel, MintRef, TokenAccountRef, TokenAction, result_view};
use crate::address::{
    allowed_offramp_seeds, controller_seeds, derive_allowed_offramp, derive_controller,
    derive_external_execution_config, derive_vault, derive_wrapped_mint, matches_derived,
    external_execution_config_seeds, pda, route_seeds,
};
use crate::bytes::{bytes_eq, drop_first};
use crate::codec::{decode_unwrap_spec, decode_wrap_spec};
use crate::constants::{
    MAX_MESSAGE_DATA_SIZE, MAX_SENDER_ADDRESS_SIZE, UNWRAP_SELECTOR, WRAP_SELECTOR,
    vault_seed_spec, wrapper_seed_spec,
};
use crate::error::BridglError;
use crate::state::{Any2SVMMessage, Controller, UnwrapParams, WrapParams};

verus! {

/// The accounts of an inbound message call.
pub struct CcipReceive {
    /// This program's own address.
    pub program_id: Vec<u8>,
    /// The delegated authority that must sign the call.
    pub authority: AccountRef,
    /// The relay program presenting the message.
    pub offramp_program: Vec<u8>,
    /// The router's allow-list record for the relay program and source chain.
    pub allowed_offramp: AccountRef,
    /// The controller record's address.
    pub controller_key: Vec<u8>,
    /// The controller record.
    pub controller: Controller,
    /// The route's vault.
    pub vault: TokenAccountRef,
    /// The wrapped mint, or the underlying asset's mint.
    pub mint: MintRef,
    /// The destination token account.
    pub to: TokenAccountRef,
}

impl CcipReceive {
    /// The program addresses that derivations run under are 32-byte keys.
    pub open spec fn wf(&self) -> bool {
        &&& self.program_id@.len() == 32
        &&& self.offramp_program@.len() == 32
        &&& self.controller.router@.len() == 32
    }
}

/// The caller is the relay's delegated authority for this program, and signed.
pub open spec fn caller_authorized(ctx: CcipReceive) -> bool {
    &&& ctx.authority.is_signer
    &&& pda(external_execution_config_seeds(ctx.program_id@), ctx.offramp_program@) == Some(
        ctx.authority.key@,
    )
}

/// The router recorded in the controller allows the relay on `chain`.
pub open spec fn route_allowed(ctx: CcipReceive, chain: u64) -> bool {
    &&& ctx.allowed_offramp.owner@ == ctx.controller.router@
    &&& pda(allowed_offramp_seeds(chain, ctx.offramp_program@), ctx.controller.router@) == Some(
        ctx.allowed_offramp.key@,
    )
}

/// The controller account is the one derived for this program.
pub open spec fn controller_valid(ctx: CcipReceive) -> bool {
    pda(controller_seeds(), ctx.program_id@) == Some(ctx.controller_key@)
}

/// The outcome of the account checks that precede any payload handling.
pub open spec fn authorization_spec(ctx: CcipReceive, chain: u64) -> Result<(), BridglError> {
    if !caller_authorized(ctx) || !route_allowed(ctx, chain) {
        Err(BridglError::InvalidCaller)
    } else if !controller_valid(ctx) {
        Err(BridglError::InvalidController)
    } else if ctx.to.mint@ != ctx.mint.key@ {
        Err(BridglError::InvalidToAccount)
    } else {
        Ok(())
    }
}

/// The outcome of the size bounds on a message.
pub open spec fn size_spec(m: Any2SVMMessage) -> Result<(), BridglError> {
    if m.data@.len() > MAX_MESSAGE_DATA_SIZE {
        Err(BridglError::MessageDataTooLarge)
    } else if m.sender@.len() > MAX_SENDER_ADDRESS_SIZE {
        Err(BridglError::SenderAddressTooLarge)
    } else {
        Ok(())
    }
}

/// A mint of `amount` wrapped units to the destination, signed by the controller.
pub open spec fn mint_action(ctx: CcipReceive, amount: u64) -> ActionModel {
    ActionModel::MintTo {
        mint: ctx.mint.key@,
        to: ctx.to.key@,
        authority: ctx.controller_key@,
        amount,
    }
}

/// A transfer of `amount` units from the vault to the destination, signed by
/// the controller.
pub open spec fn release_action(ctx: CcipReceive, amount: u64) -> ActionModel {
    ActionModel::TransferChecked {
        from: ctx.vault.key@,
        to: ctx.to.key@,
        authority: ctx.controller_key@,
        mint: ctx.mint.key@,
        amount,
        decimals: ctx.mint.decimals,
    }
}

/// The outcome of a wrap payload: a mint of the wrapped asset to the recipient.
pub open spec fn wrap_spec(ctx: CcipReceive, chain: u64, sender: Seq<u8>, payload: Seq<u8>) -> Result<
    ActionModel,
    BridglError,
> {
    match decode_wrap_spec(payload) {
        None => Err(BridglError::InvalidMessageData),
        Some((_, _, underlying, to, amount)) => {
            if pda(route_seeds(wrapper_seed_spec(), chain, sender, underlying), ctx.program_id@)
                != Some(ctx.mint.key@) {
                Err(BridglError::InvalidWrapperMint)
            } else if to != ctx.to.key@ {
                Err(BridglError::InvalidToAccount)
            } else if amount > u64::MAX {
                Err(BridglError::TooManyTokens)
            } else {
                Ok(mint_action(ctx, amount as u64))
            }
        },
    }
}

/// The outcome of an unwrap payload: a release from the route's vault.
pub open spec fn unwrap_spec(ctx: CcipReceive, chain: u64, sender: Seq<u8>, payload: Seq<u8>) -> Result<
    ActionModel,
    BridglError,
> {
    match decode_unwrap_spec(payload) {
        None => Err(BridglError::InvalidMessageData),
        Some((underlying, to, amount)) => {
            if underlying != ctx.mint.key@ {
                Err(BridglError::InvalidUnderlyingToken)
            } else if to != ctx.to.key@ {
                Err(BridglError::InvalidToAccount)
            } else if pda(route_seeds(vault_seed_spec(), chain, sender, underlying), ctx.program_id@)
                != Some(ctx.vault.key@) {
                Err(BridglError::InvalidVault)
            } else if amount > u64::MAX {
                Err(BridglError::TooManyTokens)
            } else {
                Ok(release_action(ctx, amount as u64))
            }
        },
    }
}

/// The outcome of the selector byte and the payload that follows it.
pub open spec fn dispatch_spec(ctx: CcipReceive, m: Any2SVMMessage) -> Result<ActionModel, BridglError> {
    if m.data@.len() == 0 {
        Err(BridglError::InvalidMessageData)
    } else if m.data@[0] == WRAP_SELECTOR {
        wrap_spec(ctx, m.source_chain_selector, m.sender@, m.data@.drop_first())
    } else if m.data@[0] == UNWRAP_SELECTOR {
        unwrap_spec(ctx, m.source_chain_selector, m.sender@, m.data@.drop_first())
    } else {
        Err(BridglError::InvalidMessageSelector)
    }
}

/// The outcome of an inbound message: the checks in order, then the dispatch.
pub open spec fn receive_spec(ctx: CcipReceive, m: Any2SVMMessage) -> Result<ActionModel, BridglError> {
    match authorization_spec(ctx, m.source_chain_selector) {
        Err(e) => Err(e),
        Ok(()) => match size_spec(m) {
            Err(e) => Err(e),
            Ok(()) => dispatch_spec(ctx, m),
        },
    }
}

/// Runs the account checks that precede any payload handling.
pub fn authorize(ctx: &CcipReceive, chain: u64) -> (r: Result<(), BridglError>)
    requires
        ctx.wf(),
    ensures
        r == authorization_spec(*ctx, chain),
{
    let authority = derive_external_execution_config(&ctx.program_id, &ctx.offramp_program);
    if !ctx.authority.is_signer || !matches_derived(authority, &ctx.authority.key) {
        return Err(BridglError::InvalidCaller);
    }
    if !bytes_eq(ctx.allowed_offramp.owner.as_slice(), ctx.controller.router.as_slice()) {
        return Err(BridglError::InvalidCaller);
    }
    let allowed = derive_allowed_offramp(&ctx.controller.router, chain, &ctx.offramp_program);
    if !matches_derived(allowed, &ctx.allowed_offramp.key) {
        return Err(BridglError::InvalidCaller);
    }
    let controller = derive_controller(&ctx.program_id);
    if !matches_derived(controller, &ctx.controller_key) {
        return Err(BridglError::InvalidController);
    }
    if !bytes_eq(ctx.to.mint.as_slice(), ctx.mint.key.as_slice()) {
        return Err(BridglError::InvalidToAccount);
    }
    Ok(())
}

/// Each authorization gate is necessary: a call whose caller is not the
/// relay's signing authority, or whose relay the router does not allow on the
/// source chain, fails as unauthorized; and a message that an accepted call
/// would have carried fails on its size once its payload or sender is too
/// large. No failing call yields a token movement.
pub proof fn lemma_authorization_monotone(
    ctx: CcipReceive,
    m: Any2SVMMessage,
    ctx2: CcipReceive,
    m2: Any2SVMMessage,
)
    requires
        receive_spec(ctx, m) is Ok,
    ensures
        !caller_authorized(ctx2) ==> receive_spec(ctx2, m2) == Err::<ActionModel, BridglError>(
            BridglError::InvalidCaller,
        ),
        !route_allowed(ctx2, m2.source_chain_selector) ==> receive_spec(ctx2, m2) == Err::<
            ActionModel,
            BridglError,
        >(BridglError::InvalidCaller),
        m2.source_chain_selector == m.source_chain_selector && m2.data@.len()
            > MAX_MESSAGE_DATA_SIZE ==> receive_spec(ctx, m2) == Err::<ActionModel, BridglError>(
            BridglError::MessageDataTooLarge,
        ),
        m2.source_chain_selector == m.source_chain_selector && m2.data@.len()
            <= MAX_MESSAGE_DATA_SIZE && m2.sender@.len() > MAX_SENDER_ADDRESS_SIZE ==> receive_spec(
            ctx,
            m2,
        ) == Err::<ActionModel, BridglError>(BridglError::SenderAddressTooLarge),
{
}

/// Every selector byte other than the wrap and unwrap selectors is refused as
/// unknown, on a call that passes every check before the dispatch.
pub proof fn lemma_selector_exhaustive(ctx: CcipReceive, m: Any2SVMMessage)
    requires
        authorization_spec(ctx, m.source_chain_selector) is Ok,
        size_spec(m) is Ok,
        m.data@.len() > 0,
    ensures
        m.data@[0] != WRAP_SELECTOR && m.data@[0] != UNWRAP_SELECTOR ==> receive_spec(ctx, m)
            == Err::<ActionModel, BridglError>(BridglError::InvalidMessageSelector),
        m.data@[0] == WRAP_SELECTOR ==> receive_spec(ctx, m) == wrap_spec(
            ctx,
            m.source_chain_selector,
            m.sender@,
            m.data@.drop_first(),
        ),
        m.data@[0] == UNWRAP_SELECTOR ==> receive_spec(ctx, m) == unwrap_spec(
            ctx,
            m.source_chain_selector,
            m.sender@,
            m.data@.drop_first(),
        ),
{
}

/// An amount that fits in 64 bits, up to `2^64 - 1`, is minted in full; from
/// `2^64` on the wrap payload fails with `TooManyTokens` and nothing is minted.
pub proof fn lemma_wrap_amount_boundary(
    ctx: CcipReceive,
    chain: u64,
    sender: Seq<u8>,
    payload: Seq<u8>,
    p: (Seq<char>, Seq<char>, Seq<u8>, Seq<u8>, u128),
)
    requires
        decode_wrap_spec(payload) == Some(p),
        pda(route_seeds(wrapper_seed_spec(), chain, sender, p.2), ctx.program_id@) == Some(
            ctx.mint.key@,
        ),
        p.3 == ctx.to.key@,
    ensures
        p.4 <= u64::MAX ==> wrap_spec(ctx, chain, sender, payload) == Ok::<ActionModel, BridglError>(
            mint_action(ctx, p.4 as u64),
        ),
        p.4 > u64::MAX ==> wrap_spec(ctx, chain, sender, payload) == Err::<ActionModel, BridglError>(
            BridglError::TooManyTokens,
        ),
{
}

/// An amount that fits in 64 bits, up to `2^64 - 1`, is released in full; from
/// `2^64` on the unwrap payload fails with `TooManyTokens` and nothing moves.
pub proof fn lemma_unwrap_amount_boundary(
    ctx: CcipReceive,
    chain: u64,
    sender: Seq<u8>,
    payload: Seq<u8>,
    p: (Seq<u8>, Seq<u8>, u128),
)
    requires
        decode_unwrap_spec(payload) == Some(p),
        p.0 == ctx.mint.key@,
        p.1 == ctx.to.key@,
        pda(route_seeds(vault_seed_spec(), chain, sender, p.0), ctx.program_id@) == Some(
            ctx.vault.key@,
        ),
    ensures
        p.2 <= u64::MAX ==> unwrap_spec(ctx, chain, sender, payload) == Ok::<ActionModel, BridglError>(
            release_action(ctx, p.2 as u64),
        ),
        p.2 > u64::MAX ==> unwrap_spec(ctx, chain, sender, payload) == Err::<ActionModel, BridglError>(
            BridglError::TooManyTokens,
        ),
{
}

fn narrow_amount(amount: u128) -> (r: Result<u64, BridglError>)
    ensures
        amount <= u64::MAX ==> r == Ok::<u64, BridglError>(amount as u64),
        amount > u64::MAX ==> r == Err::<u64, BridglError>(BridglError::TooManyTokens),
{
    if amount > u64::MAX as u128 {
        Err(BridglError::TooManyTokens)
    } else {
        Ok(amount as u64)
    }
}

/// Handles a wrap payload: checks the mint and recipient, then mints.
pub fn receive_wrap(ctx: &CcipReceive, chain: u64, sender: &Vec<u8>, payload: &Vec<u8>) -> (r:
    Result<TokenAction, BridglError>)
    requires
        ctx.wf(),
    ensures
        result_view(r) == wrap_spec(*ctx, chain, sender@, payload@),
{
    let params = match WrapParams::decode(payload.as_slice()) {
        Ok(p) => p,
        Err(e) => return Err(e),
    };
    let wrapper = derive_wrapped_mint(&ctx.program_id, chain, sender, &params.underlying_token);
    if !matches_derived(wrapper, &ctx.mint.key) {
        return Err(BridglError::InvalidWrapperMint);
    }
    if !bytes_eq(params.to.as_slice(), ctx.to.key.as_slice()) {
        return Err(BridglError::InvalidToAccount);
    }
    let amount = match narrow_amount(params.amount) {
        Ok(a) => a,
        Err(e) => return Err(e),
    };
    Ok(
        TokenAction::MintTo {
            mint: ctx.mint.key.clone(),
            to: ctx.to.key.clone(),
            authority: ctx.controller_key.clone(),
            amount,
        },
    )
}

/// Handles an unwrap payload: checks the asset, recipient and vault, then
/// releases from the vault.
pub fn receive_unwrap(ctx: &CcipReceive, chain: u64, sender: &Vec<u8>, payload: &Vec<u8>) -> (r:
    Result<TokenAction, BridglError>)
    requires
        ctx.wf(),
    ensures
        result_view(r) == unwrap_spec(*ctx, chain, sender@, payload@),
{
    let params = match UnwrapParams::decode(payload.as_slice()) {
        Ok(p) => p,
        Err(e) => return Err(e),
    };
    if !bytes_eq(params.underlying_token.as_slice(), ctx.mint.key.as_slice()) {
        return Err(BridglError::InvalidUnderlyingToken);
    }
    if !bytes_eq(params.to.as_slice(), ctx.to.key.as_slice()) {
        return Err(BridglError::InvalidToAccount);
    }
    let vault = derive_vault(&ctx.program_id, chain, sender, &params.underlying_token);
    if !matches_derived(vault, &ctx.vault.key) {
        return Err(BridglError::InvalidVault);
    }
    let amount = match narrow_amount(params.amount) {
        Ok(a) => a,
        Err(e) => return Err(e),
    };
    Ok(
        TokenAction::TransferChecked {
            from: ctx.vault.key.clone(),
            to: ctx.to.key.clone(),
            authority: ctx.controller_key.clone(),
            mint: ctx.mint.key.clone(),
            amount,
            decimals: ctx.mint.decimals,
        },
    )
}

/// Accepts an inbound message and returns the one token movement it calls
/// for, signed by the controller; or the first check that fails.
pub fn ccip_receive(ctx: &CcipReceive, message: &Any2SVMMessage) -> (r: Result<TokenAction, BridglError>)
    requires
        ctx.wf(),
    ensures
        result_view(r) == receive_spec(*ctx, *message),
{
    match authorize(ctx, message.source_chain_selector) {
        Ok(()) => {},
        Err(e) => return Err(e),
    }
    if message.data.len() > MAX_MESSAGE_DATA_SIZE {
        return Err(BridglError::MessageDataTooLarge);
    }
    if message.sender.len() > MAX_SENDER_ADDRESS_SIZE {
        return Err(BridglError::SenderAddressTooLarge);
    }
    if message.data.len() == 0 {
        return Err(BridglError::InvalidMessageData);
    }
    let selector = message.data[0];
    let payload = drop_first(&message.data);
    if selector == WRAP_SELECTOR {
        receive_wrap(ctx, message.source_chain_selector, &message.sender, &payload)
    } else if selector == UNWRAP_SELECTOR {
        receive_unwrap(ctx, message.source_chain_selector, &message.sender, &payload)
    } else {
        Err(BridglError::InvalidMessageSelector)
    }
}

} // verus!
