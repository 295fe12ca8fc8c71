use std::collections::HashMap;

use bridgl::accounts::{AccountRef, MintRef, TokenAccountRef, TokenAction};
use bridgl::address::{
    derive_allowed_offramp, derive_controller, derive_external_execution_config, derive_vault,
    derive_wrapped_mint,
};
use bridgl::error::{BridglError, ErrorKind};
use bridgl::receive::{ccip_receive, receive_unwrap, receive_wrap, CcipReceive};
use bridgl::state::{Any2SVMMessage, Controller, UnwrapParams, WrapParams};

const CHAIN: u64 = 16015286601757825753;

fn program_id() -> Vec<u8> {
    vec![7u8; 32]
}

fn offramp() -> Vec<u8> {
    vec![9u8; 32]
}

fn router() -> Vec<u8> {
    vec![5u8; 32]
}

fn sender() -> Vec<u8> {
    vec![0x42; 20]
}

fn asset() -> Vec<u8> {
    vec![0xAB; 32]
}

fn recipient() -> Vec<u8> {
    vec![0x11; 32]
}

fn context(mint_key: Vec<u8>) -> CcipReceive {
    let pid = program_id();
    let authority = derive_external_execution_config(&pid, &offramp()).unwrap().0;
    let allowed = derive_allowed_offramp(&router(), CHAIN, &offramp()).unwrap().0;
    let (controller_key, bump) = derive_controller(&pid).unwrap();
    let vault = derive_vault(&pid, CHAIN, &sender(), &asset()).unwrap().0;
    CcipReceive {
        program_id: pid,
        authority: AccountRef { key: authority, owner: vec![0; 32], is_signer: true },
        offramp_program: offramp(),
        allowed_offramp: AccountRef { key: allowed, owner: router(), is_signer: false },
        controller_key: controller_key.clone(),
        controller: Controller { bump, router: router() },
        vault: TokenAccountRef { key: vault, mint: asset(), owner: controller_key },
        mint: MintRef { key: mint_key.clone(), decimals: 6 },
        to: TokenAccountRef { key: recipient(), mint: mint_key, owner: vec![0x33; 32] },
    }
}

fn wrap_context() -> CcipReceive {
    let mint = derive_wrapped_mint(&program_id(), CHAIN, &sender(), &asset()).unwrap().0;
    context(mint)
}

fn unwrap_context() -> CcipReceive {
    context(asset())
}

fn message(selector: u8, payload: Vec<u8>) -> Any2SVMMessage {
    let mut data = vec![selector];
    data.extend_from_slice(&payload);
    Any2SVMMessage {
        message_id: vec![1u8; 32],
        source_chain_selector: CHAIN,
        sender: sender(),
        data,
        token_amounts: vec![],
    }
}

fn wrap_payload(to: Vec<u8>, amount: u128) -> Vec<u8> {
    WrapParams {
        name: String::from("NAME"),
        symbol: String::from("SYMBOL"),
        underlying_token: asset(),
        to,
        amount,
    }
    .encode()
}

fn unwrap_payload(underlying: Vec<u8>, to: Vec<u8>, amount: u128) -> Vec<u8> {
    UnwrapParams { underlying_token: underlying, to, amount }.encode()
}

fn err(r: Result<TokenAction, BridglError>) -> BridglError {
    match r {
        Ok(_) => panic!("expected an error"),
        Err(e) => e,
    }
}

#[test]
fn scenario_inbound_wrap_mints_once() {
    let ctx = wrap_context();
    let expected_mint = derive_wrapped_mint(&program_id(), CHAIN, &sender(), &asset()).unwrap().0;
    let r = receive_wrap(&ctx, CHAIN, &sender(), &wrap_payload(recipient(), 1000));
    match r {
        Ok(TokenAction::MintTo { mint, to, authority, amount }) => {
            assert_eq!(mint, expected_mint);
            assert_eq!(to, recipient());
            assert_eq!(authority, ctx.controller_key);
            assert_eq!(amount, 1000);
        },
        _ => panic!("expected a mint"),
    }
}

#[test]
fn scenario_inbound_unwrap_releases_from_vault() {
    let ctx = unwrap_context();
    let vault = derive_vault(&program_id(), CHAIN, &sender(), &asset()).unwrap().0;
    let mut balances: HashMap<Vec<u8>, u64> = HashMap::new();
    balances.insert(vault.clone(), 800);
    balances.insert(recipient(), 0);
    let r = receive_unwrap(&ctx, CHAIN, &sender(), &unwrap_payload(asset(), recipient(), 500));
    match r {
        Ok(TokenAction::TransferChecked { from, to, authority, mint, amount, decimals }) => {
            assert_eq!(from, vault);
            assert_eq!(to, recipient());
            assert_eq!(authority, ctx.controller_key);
            assert_eq!(mint, asset());
            assert_eq!(decimals, 6);
            assert_eq!(amount, 500);
            *balances.get_mut(&from).unwrap() -= amount;
            *balances.get_mut(&to).unwrap() += amount;
        },
        _ => panic!("expected a transfer"),
    }
    assert_eq!(balances[&vault], 800 - 500);
    assert_eq!(balances[&recipient()], 500);
}

#[test]
fn scenario_mismatched_recipient_is_refused() {
    let other = vec![0x22; 32];
    let r = receive_wrap(&wrap_context(), CHAIN, &sender(), &wrap_payload(other.clone(), 1000));
    assert_eq!(err(r), BridglError::InvalidToAccount);
    let r = receive_unwrap(&unwrap_context(), CHAIN, &sender(), &unwrap_payload(asset(), other, 500));
    assert_eq!(err(r), BridglError::InvalidToAccount);
}

#[test]
fn unknown_selectors_are_refused() {
    let ctx = wrap_context();
    for selector in 2u8..=255 {
        let r = ccip_receive(&ctx, &message(selector, vec![0u8; 64]));
        assert_eq!(err(r), BridglError::InvalidMessageSelector);
        assert_eq!(BridglError::InvalidMessageSelector.kind(), ErrorKind::UnknownSelector);
    }
}

#[test]
fn amount_boundary_wrap() {
    let ctx = wrap_context();
    let max = u64::MAX as u128;
    match receive_wrap(&ctx, CHAIN, &sender(), &wrap_payload(recipient(), max)) {
        Ok(TokenAction::MintTo { amount, .. }) => assert_eq!(amount, u64::MAX),
        _ => panic!("expected a mint"),
    }
    let r = receive_wrap(&ctx, CHAIN, &sender(), &wrap_payload(recipient(), max + 1));
    assert_eq!(err(r), BridglError::TooManyTokens);
    assert_eq!(BridglError::TooManyTokens.kind(), ErrorKind::AmountOverflow);
}

#[test]
fn amount_boundary_unwrap() {
    let ctx = unwrap_context();
    let max = u64::MAX as u128;
    match receive_unwrap(&ctx, CHAIN, &sender(), &unwrap_payload(asset(), recipient(), max)) {
        Ok(TokenAction::TransferChecked { amount, .. }) => assert_eq!(amount, u64::MAX),
        _ => panic!("expected a transfer"),
    }
    let r = receive_unwrap(&ctx, CHAIN, &sender(), &unwrap_payload(asset(), recipient(), max + 1));
    assert_eq!(err(r), BridglError::TooManyTokens);
}

#[test]
fn caller_must_sign() {
    let mut ctx = wrap_context();
    ctx.authority.is_signer = false;
    let r = ccip_receive(&ctx, &message(0, wrap_payload(recipient(), 1000)));
    assert_eq!(err(r), BridglError::InvalidCaller);
    assert_eq!(BridglError::InvalidCaller.kind(), ErrorKind::AuthorizationFailure);
}

#[test]
fn caller_must_be_the_relay_authority() {
    let mut ctx = wrap_context();
    ctx.authority.key = vec![0x44; 32];
    let r = ccip_receive(&ctx, &message(0, wrap_payload(recipient(), 1000)));
    assert_eq!(err(r), BridglError::InvalidCaller);
    // Another relay program cannot present the first one's authority.
    let mut ctx = wrap_context();
    ctx.offramp_program = vec![0x45; 32];
    let r = ccip_receive(&ctx, &message(0, wrap_payload(recipient(), 1000)));
    assert_eq!(err(r), BridglError::InvalidCaller);
}

#[test]
fn route_must_be_allow_listed() {
    let mut ctx = wrap_context();
    ctx.allowed_offramp.owner = vec![0x66; 32];
    let r = ccip_receive(&ctx, &message(0, wrap_payload(recipient(), 1000)));
    assert_eq!(err(r), BridglError::InvalidCaller);
    let mut ctx = wrap_context();
    ctx.allowed_offramp.key = vec![0x67; 32];
    let r = ccip_receive(&ctx, &message(0, wrap_payload(recipient(), 1000)));
    assert_eq!(err(r), BridglError::InvalidCaller);
    // An allow-list record for another chain does not admit this one.
    let mut m = message(0, wrap_payload(recipient(), 1000));
    m.source_chain_selector = CHAIN + 1;
    assert_eq!(err(ccip_receive(&wrap_context(), &m)), BridglError::InvalidCaller);
}

#[test]
fn size_bounds_are_enforced() {
    let ctx = wrap_context();
    let mut m = message(0, wrap_payload(recipient(), 1000));
    m.data.resize(1025, 0);
    assert_eq!(err(ccip_receive(&ctx, &m)), BridglError::MessageDataTooLarge);
    assert_eq!(BridglError::MessageDataTooLarge.kind(), ErrorKind::SizeViolation);
    let mut m = message(0, vec![0u8; 64]);
    m.sender = vec![0x42; 65];
    assert_eq!(err(ccip_receive(&ctx, &m)), BridglError::SenderAddressTooLarge);
}

#[test]
fn data_at_the_size_limit_reaches_the_decoder() {
    let ctx = wrap_context();
    let mut m = message(0, wrap_payload(recipient(), 1000));
    m.data.resize(1024, 0);
    assert_eq!(err(ccip_receive(&ctx, &m)), BridglError::InvalidMessageData);
}

#[test]
fn malformed_payloads_are_refused() {
    let ctx = wrap_context();
    let mut m = message(0, vec![]);
    m.data.clear();
    assert_eq!(err(ccip_receive(&ctx, &m)), BridglError::InvalidMessageData);
    let r = ccip_receive(&ctx, &message(0, vec![1, 2, 3]));
    assert_eq!(err(r), BridglError::InvalidMessageData);
    let mut payload = wrap_payload(recipient(), 1000);
    payload.push(0);
    assert_eq!(err(receive_wrap(&ctx, CHAIN, &sender(), &payload)), BridglError::InvalidMessageData);
    assert_eq!(BridglError::InvalidMessageData.kind(), ErrorKind::DecodeFailure);
}

#[test]
fn wrong_wrapped_mint_is_refused() {
    let ctx = context(vec![0x77; 32]);
    let r = receive_wrap(&ctx, CHAIN, &sender(), &wrap_payload(recipient(), 1000));
    assert_eq!(err(r), BridglError::InvalidWrapperMint);
    assert_eq!(BridglError::InvalidWrapperMint.kind(), ErrorKind::AddressMismatch);
}

#[test]
fn wrong_underlying_asset_is_refused() {
    let r = receive_unwrap(&unwrap_context(), CHAIN, &sender(), &unwrap_payload(vec![0x78; 32], recipient(), 5));
    assert_eq!(err(r), BridglError::InvalidUnderlyingToken);
}

#[test]
fn wrong_vault_is_refused() {
    let mut ctx = unwrap_context();
    ctx.vault.key = vec![0x79; 32];
    let r = receive_unwrap(&ctx, CHAIN, &sender(), &unwrap_payload(asset(), recipient(), 5));
    assert_eq!(err(r), BridglError::InvalidVault);
}

#[test]
fn wrong_controller_is_refused() {
    let mut ctx = wrap_context();
    ctx.controller_key = vec![0x80; 32];
    let r = ccip_receive(&ctx, &message(0, wrap_payload(recipient(), 1000)));
    assert_eq!(err(r), BridglError::InvalidController);
}

#[test]
fn destination_must_hold_the_mint() {
    let mut ctx = wrap_context();
    ctx.to.mint = vec![0x81; 32];
    let r = ccip_receive(&ctx, &message(0, wrap_payload(recipient(), 1000)));
    assert_eq!(err(r), BridglError::InvalidToAccount);
}

#[test]
fn authorization_precedes_size_checks() {
    let mut ctx = wrap_context();
    ctx.authority.is_signer = false;
    let mut m = message(0, wrap_payload(recipient(), 1000));
    m.data.resize(2000, 0);
    assert_eq!(err(ccip_receive(&ctx, &m)), BridglError::InvalidCaller);
}

#[test]
fn full_size_payloads_exceed_the_message_bound() {
    // With 32-byte keys each byte array takes 32 + 32 * 32 bytes, so an inbound
    // wrap or unwrap message is refused on its size before any dispatch.
    let m = message(0, wrap_payload(recipient(), 1000));
    assert_eq!(m.data.len(), 1 + 2400);
    assert_eq!(err(ccip_receive(&wrap_context(), &m)), BridglError::MessageDataTooLarge);
    let m = message(1, unwrap_payload(asset(), recipient(), 500));
    assert_eq!(err(ccip_receive(&unwrap_context(), &m)), BridglError::MessageDataTooLarge);
}

#[test]
fn small_payloads_pass_the_whole_chain() {
    // With short recipient and asset keys the message fits, and the full
    // chain of checks ends in the release.
    let mut ctx = context(vec![0xAB; 4]);
    let vault = derive_vault(&program_id(), CHAIN, &sender(), &vec![0xAB; 4]).unwrap().0;
    ctx.vault.key = vault.clone();
    ctx.to.key = vec![0x11; 4];
    let payload = unwrap_payload(vec![0xAB; 4], vec![0x11; 4], 500);
    match ccip_receive(&ctx, &message(1, payload)) {
        Ok(TokenAction::TransferChecked { from, amount, .. }) => {
            assert_eq!(from, vault);
            assert_eq!(amount, 500);
        },
        _ => panic!("expected a transfer"),
    }
}
