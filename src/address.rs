//! Deterministic program-derived addresses: the wrapped mint and the vault of
//! a route, the controller record, and the accounts that authenticate a relay.
use vstd::prelude::*;

use anchor_lang::prelude::Pubkey;

use crate::bytes::{bytes_eq, le_bytes, lemma_le_bytes_injective, u64_to_le_bytes};
use crate::constants::{
    allowed_offramp_seed, allowed_offramp_seed_spec, controller_seed, controller_seed_spec,
    external_execution_config_seed, external_execution_config_seed_spec, vault_seed,
    vault_seed_spec, wrapper_seed, wrapper_seed_spec,
};

verus! {

/// The program-derived address and bump seed found for `seeds` under
/// `program_id`, or `None` where there are 16 or more seeds, a seed is longer
/// than 32 bytes, or no bump seed gives a valid address.
pub uninterp spec fn program_address(seeds: Seq<Seq<u8>>, program_id: Seq<u8>) -> Option<
    (Seq<u8>, u8),
>;

pub open spec fn seeds_view(seeds: Seq<Vec<u8>>) -> Seq<Seq<u8>> {
    seeds.map_values(|s: Vec<u8>| s@)
}

pub open spec fn found_view(r: Option<(Vec<u8>, u8)>) -> Option<(Seq<u8>, u8)> {
    match r {
        Some((a, bump)) => Some((a@, bump)),
        None => None,
    }
}

/// The derived address alone, without its bump seed.
pub open spec fn pda(seeds: Seq<Seq<u8>>, program_id: Seq<u8>) -> Option<Seq<u8>> {
    match program_address(seeds, program_id) {
        Some((a, _)) => Some(a),
        None => None,
    }
}

/// Relies on `Pubkey::try_find_program_address`: the first valid address for the
/// seeds followed by a bump seed, trying bumps from 255 down, as a function of
/// the seeds and the program id alone; a 32-byte address. It gives `None`,
/// without panicking, for 16 or more seeds or for a seed longer than 32 bytes.
#[verifier::external_body]
fn try_find_program_address(seeds: &Vec<Vec<u8>>, program_id: &Vec<u8>) -> (r: Option<
    (Vec<u8>, u8),
>)
    requires
        program_id@.len() == 32,
    ensures
        found_view(r) == program_address(seeds_view(seeds@), program_id@),
        r matches Some((a, _)) ==> a@.len() == 32,
        seeds@.len() >= 16 ==> r is None,
        (exists|i: int| 0 <= i < seeds@.len() && #[trigger] seeds@[i]@.len() > 32) ==> r is None,
{
    let slices: Vec<&[u8]> = seeds.iter().map(|s| s.as_slice()).collect();
    let mut id = [0u8; 32];
    id.copy_from_slice(program_id.as_slice());
    match Pubkey::try_find_program_address(&slices, &Pubkey::new_from_array(id)) {
        Some((a, bump)) => Some((a.to_bytes().to_vec(), bump)),
        None => None,
    }
}

/// Seeds of a route-scoped account: a domain seed, the chain selector in
/// little-endian order, the counterpart bridge address and the asset identity.
pub open spec fn route_seeds(seed: Seq<u8>, chain: u64, remote: Seq<u8>, asset: Seq<u8>) -> Seq<
    Seq<u8>,
> {
    seq![seed, le_bytes(chain), remote, asset]
}

pub open spec fn wrapped_mint_spec(
    program_id: Seq<u8>,
    chain: u64,
    remote: Seq<u8>,
    asset: Seq<u8>,
) -> Option<(Seq<u8>, u8)> {
    program_address(route_seeds(wrapper_seed_spec(), chain, remote, asset), program_id)
}

pub open spec fn vault_spec(program_id: Seq<u8>, chain: u64, remote: Seq<u8>, asset: Seq<u8>) -> Option<
    (Seq<u8>, u8),
> {
    program_address(route_seeds(vault_seed_spec(), chain, remote, asset), program_id)
}

/// Seeds of the controller record.
pub open spec fn controller_seeds() -> Seq<Seq<u8>> {
    seq![controller_seed_spec()]
}

/// Seeds of the delegated authority that a relay program signs for.
pub open spec fn external_execution_config_seeds(program_id: Seq<u8>) -> Seq<Seq<u8>> {
    seq![external_execution_config_seed_spec(), program_id]
}

/// Seeds of the router's allow-list record for a relay program on a chain.
pub open spec fn allowed_offramp_seeds(chain: u64, offramp: Seq<u8>) -> Seq<Seq<u8>> {
    seq![allowed_offramp_seed_spec(), le_bytes(chain), offramp]
}

fn derive_route(seed: Vec<u8>, program_id: &Vec<u8>, chain: u64, remote: &Vec<u8>, asset: &Vec<u8>) -> (r:
    Option<(Vec<u8>, u8)>)
    requires
        program_id@.len() == 32,
    ensures
        found_view(r) == program_address(route_seeds(seed@, chain, remote@, asset@), program_id@),
        r matches Some((a, _)) ==> a@.len() == 32,
        remote@.len() > 32 || asset@.len() > 32 ==> r is None,
{
    let seeds = vec![seed, u64_to_le_bytes(chain), remote.clone(), asset.clone()];
    assert(seeds_view(seeds@) =~= route_seeds(seeds@[0]@, chain, remote@, asset@));
    assert(seeds@[2]@ == remote@ && seeds@[3]@ == asset@);
    try_find_program_address(&seeds, program_id)
}

/// The wrapped-asset mint of the route `(chain, remote, asset)`, with its bump.
pub fn derive_wrapped_mint(program_id: &Vec<u8>, chain: u64, remote: &Vec<u8>, asset: &Vec<u8>) -> (r:
    Option<(Vec<u8>, u8)>)
    requires
        program_id@.len() == 32,
    ensures
        found_view(r) == wrapped_mint_spec(program_id@, chain, remote@, asset@),
        r matches Some((a, _)) ==> a@.len() == 32,
        remote@.len() > 32 || asset@.len() > 32 ==> r is None,
{
    derive_route(wrapper_seed(), program_id, chain, remote, asset)
}

/// The vault of the route `(chain, remote, asset)`, with its bump.
pub fn derive_vault(program_id: &Vec<u8>, chain: u64, remote: &Vec<u8>, asset: &Vec<u8>) -> (r: Option<
    (Vec<u8>, u8),
>)
    requires
        program_id@.len() == 32,
    ensures
        found_view(r) == vault_spec(program_id@, chain, remote@, asset@),
        r matches Some((a, _)) ==> a@.len() == 32,
        remote@.len() > 32 || asset@.len() > 32 ==> r is None,
{
    derive_route(vault_seed(), program_id, chain, remote, asset)
}

/// The controller record's address, with its bump.
pub fn derive_controller(program_id: &Vec<u8>) -> (r: Option<(Vec<u8>, u8)>)
    requires
        program_id@.len() == 32,
    ensures
        found_view(r) == program_address(controller_seeds(), program_id@),
        r matches Some((a, _)) ==> a@.len() == 32,
{
    let seeds = vec![controller_seed()];
    assert(seeds_view(seeds@) =~= controller_seeds());
    try_find_program_address(&seeds, program_id)
}

/// The delegated authority that the relay program `offramp` signs for when it
/// calls the program `program_id`.
pub fn derive_external_execution_config(program_id: &Vec<u8>, offramp: &Vec<u8>) -> (r: Option<
    (Vec<u8>, u8),
>)
    requires
        offramp@.len() == 32,
    ensures
        found_view(r) == program_address(external_execution_config_seeds(program_id@), offramp@),
        r matches Some((a, _)) ==> a@.len() == 32,
{
    let seeds = vec![external_execution_config_seed(), program_id.clone()];
    assert(seeds_view(seeds@) =~= external_execution_config_seeds(program_id@));
    try_find_program_address(&seeds, offramp)
}

/// The router's allow-list record for the relay program `offramp` on `chain`.
pub fn derive_allowed_offramp(router: &Vec<u8>, chain: u64, offramp: &Vec<u8>) -> (r: Option<
    (Vec<u8>, u8),
>)
    requires
        router@.len() == 32,
    ensures
        found_view(r) == program_address(allowed_offramp_seeds(chain, offramp@), router@),
        r matches Some((a, _)) ==> a@.len() == 32,
{
    let seeds = vec![allowed_offramp_seed(), u64_to_le_bytes(chain), offramp.clone()];
    assert(seeds_view(seeds@) =~= allowed_offramp_seeds(chain, offramp@));
    try_find_program_address(&seeds, router)
}

/// Derivation is a pure function of its inputs: equal inputs give equal
/// wrapped-mint and vault addresses, with equal bumps.
pub proof fn lemma_derivation_deterministic(
    program_id: Seq<u8>,
    chain: u64,
    remote: Seq<u8>,
    asset: Seq<u8>,
    program_id2: Seq<u8>,
    chain2: u64,
    remote2: Seq<u8>,
    asset2: Seq<u8>,
)
    requires
        program_id == program_id2,
        chain == chain2,
        remote == remote2,
        asset == asset2,
    ensures
        wrapped_mint_spec(program_id, chain, remote, asset) == wrapped_mint_spec(
            program_id2,
            chain2,
            remote2,
            asset2,
        ),
        vault_spec(program_id, chain, remote, asset) == vault_spec(
            program_id2,
            chain2,
            remote2,
            asset2,
        ),
{
}

/// The seeds of a route-scoped account determine the seed kind, chain,
/// counterpart address and asset they were built from; in particular the
/// wrapped-mint and vault seeds of a route never coincide.
pub proof fn lemma_route_seeds_injective(
    seed: Seq<u8>,
    chain: u64,
    remote: Seq<u8>,
    asset: Seq<u8>,
    seed2: Seq<u8>,
    chain2: u64,
    remote2: Seq<u8>,
    asset2: Seq<u8>,
)
    ensures
        route_seeds(seed, chain, remote, asset) == route_seeds(seed2, chain2, remote2, asset2) ==> (
        seed == seed2 && chain == chain2 && remote == remote2 && asset == asset2),
        route_seeds(wrapper_seed_spec(), chain, remote, asset) != route_seeds(
            vault_seed_spec(),
            chain2,
            remote2,
            asset2,
        ),
{
    let s1 = route_seeds(seed, chain, remote, asset);
    let s2 = route_seeds(seed2, chain2, remote2, asset2);
    if s1 == s2 {
        assert(s1[1] == s2[1]);
        lemma_le_bytes_injective(chain, chain2);
        assert(s1[0] == s2[0] && s1[2] == s2[2] && s1[3] == s2[3]);
    }
    let w = route_seeds(wrapper_seed_spec(), chain, remote, asset);
    let v = route_seeds(vault_seed_spec(), chain2, remote2, asset2);
    assert(w[0].len() != v[0].len());
}

/// Whether a derivation succeeded and gave the address `key`.
pub fn matches_derived(derived: Option<(Vec<u8>, u8)>, key: &Vec<u8>) -> (r: bool)
    ensures
        r == (match derived {
            Some((a, _)) => a@ == key@,
            None => false,
        }),
{
    match derived {
        Some((a, _)) => bytes_eq(a.as_slice(), key.as_slice()),
        None => false,
    }
}

} // verus!
