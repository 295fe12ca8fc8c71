use vstd::prelude::*;

verus! {

/// Decimal precision of every wrapped-asset mint.
pub const WRAPPER_DECIMALS: u8 = 6;

/// Largest accepted inbound message payload, in bytes.
pub const MAX_MESSAGE_DATA_SIZE: usize = 1024;

/// Largest accepted sender address of an inbound message, in bytes.
pub const MAX_SENDER_ADDRESS_SIZE: usize = 64;

/// Selector byte of an inbound wrap (mint) message.
pub const WRAP_SELECTOR: u8 = 0;

/// Selector byte of an inbound unwrap (release) message.
pub const UNWRAP_SELECTOR: u8 = 1;

/// The seed `b"controller"`.
pub open spec fn controller_seed_spec() -> Seq<u8> {
    seq![99u8, 111, 110, 116, 114, 111, 108, 108, 101, 114]
}

/// The seed `b"wrapper"`.
pub open spec fn wrapper_seed_spec() -> Seq<u8> {
    seq![119u8, 114, 97, 112, 112, 101, 114]
}

/// The seed `b"vault"`.
pub open spec fn vault_seed_spec() -> Seq<u8> {
    seq![118u8, 97, 117, 108, 116]
}

/// The seed `b"external_execution_config"`.
pub open spec fn external_execution_config_seed_spec() -> Seq<u8> {
    seq![
        101u8, 120, 116, 101, 114, 110, 97, 108, 95, 101, 120, 101, 99, 117, 116, 105, 111,
        110, 95, 99, 111, 110, 102, 105, 103,
    ]
}

/// The seed `b"allowed_offramp"`.
pub open spec fn allowed_offramp_seed_spec() -> Seq<u8> {
    seq![97u8, 108, 108, 111, 119, 101, 100, 95, 111, 102, 102, 114, 97, 109, 112]
}

pub fn controller_seed() -> (r: Vec<u8>)
    ensures
        r@ == controller_seed_spec(),
{
    let r = vec![99u8, 111, 110, 116, 114, 111, 108, 108, 101, 114];
    assert(r@ =~= controller_seed_spec());
    r
}

pub fn wrapper_seed() -> (r: Vec<u8>)
    ensures
        r@ == wrapper_seed_spec(),
{
    let r = vec![119u8, 114, 97, 112, 112, 101, 114];
    assert(r@ =~= wrapper_seed_spec());
    r
}

pub fn vault_seed() -> (r: Vec<u8>)
    ensures
        r@ == vault_seed_spec(),
{
    let r = vec![118u8, 97, 117, 108, 116];
    assert(r@ =~= vault_seed_spec());
    r
}

pub fn external_execution_config_seed() -> (r: Vec<u8>)
    ensures
        r@ == external_execution_config_seed_spec(),
{
    let r = vec![
        101u8, 120, 116, 101, 114, 110, 97, 108, 95, 101, 120, 101, 99, 117, 116, 105, 111,
        110, 95, 99, 111, 110, 102, 105, 103,
    ];
    assert(r@ =~= external_execution_config_seed_spec());
    r
}

pub fn allowed_offramp_seed() -> (r: Vec<u8>)
    ensures
        r@ == allowed_offramp_seed_spec(),
{
    let r = vec![97u8, 108, 108, 111, 119, 101, 100, 95, 111, 102, 102, 114, 97, 109, 112];
    assert(r@ =~= allowed_offramp_seed_spec());
    r
}

} // verus!
