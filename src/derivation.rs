//! Deterministic derivation of a market's accounts from its identifier.
//!
//! A market's record, its vault and the vault's signing authority live at
//! program-derived addresses: hashes of a label, the market id and a bump seed
//! that land off the signing curve, so that no private key exists for them.
//! The market caches the bumps, which makes re-derivation a single lookup.
use vstd::prelude::*;
use crate::address::Address;
use crate::state::{Market, MarketBumps};

verus! {

/// The address that `Pubkey::create_program_address` derives from `seeds` for
/// `program_id`, or `None` where it refuses them.
pub uninterp spec fn program_address(seeds: Seq<Seq<u8>>, program_id: Seq<u8>) -> Option<Seq<u8>>;

/// The longest seed, and the most seeds, that a derivation accepts.
pub const MAX_SEED_LEN: usize = 32;
pub const MAX_SEEDS: usize = 16;

/// Relies on anchor_lang's `Pubkey::create_program_address`: the same seeds
/// and program always give the same address; more than `MAX_SEEDS` seeds or a
/// seed longer than `MAX_SEED_LEN` bytes are refused.
#[verifier::external_body]
fn create_program_address(seeds: &Vec<Vec<u8>>, program_id: &Address) -> (r: Option<Address>)
    ensures
        r matches Some(a) ==> program_address(seeds_view(seeds@), program_id@) == Some(a@),
        r is None ==> program_address(seeds_view(seeds@), program_id@) is None,
        seeds@.len() > MAX_SEEDS ==> r is None,
        (exists|i: int| 0 <= i < seeds@.len() && seeds@[i]@.len() > MAX_SEED_LEN) ==> r is None,
{
    let slices: Vec<&[u8]> = seeds.iter().map(|s| s.as_slice()).collect();
    let program = anchor_lang::prelude::Pubkey::new_from_array(program_id.bytes);
    match anchor_lang::prelude::Pubkey::create_program_address(&slices, &program) {
        Ok(key) => Some(Address { bytes: key.to_bytes() }),
        Err(_) => None,
    }
}

/// The byte strings that a list of seeds holds.
pub open spec fn seeds_view(seeds: Seq<Vec<u8>>) -> Seq<Seq<u8>> {
    seeds.map_values(|s: Vec<u8>| s@)
}

/// The seeds with one more seed holding `bump`.
pub open spec fn with_bump(seeds: Seq<Seq<u8>>, bump: u8) -> Seq<Seq<u8>> {
    seeds.push(seq![bump])
}

/// Relies on anchor_lang's `Pubkey::try_find_program_address`, which tries
/// the bumps from 255 down to 1 with `create_program_address` and returns the
/// first that gives an address.
#[verifier::external_body]
fn try_find_program_address(seeds: &Vec<Vec<u8>>, program_id: &Address) -> (r: Option<(Address, u8)>)
    ensures
        r matches Some((a, b)) ==> {
            &&& b >= 1
            &&& program_address(with_bump(seeds_view(seeds@), b), program_id@) == Some(a@)
            &&& forall|c: u8| c > b ==> program_address(with_bump(seeds_view(seeds@), c), program_id@) is None
        },
        r is None ==> forall|c: u8| c >= 1 ==> program_address(with_bump(seeds_view(seeds@), c), program_id@) is None,
{
    let slices: Vec<&[u8]> = seeds.iter().map(|s| s.as_slice()).collect();
    let program = anchor_lang::prelude::Pubkey::new_from_array(program_id.bytes);
    match anchor_lang::prelude::Pubkey::try_find_program_address(&slices, &program) {
        Some((key, bump)) => Some((Address { bytes: key.to_bytes() }, bump)),
        None => None,
    }
}

/// Which of a market's accounts an address is derived for.
#[derive(Clone, Copy, Debug, PartialEq, Eq, Structural)]
pub enum AccountKind {
    Market,
    Vault,
    VaultAuthority,
}

/// The label seed of each kind of account.
pub open spec fn label_of(kind: AccountKind) -> Seq<u8> {
    match kind {
        AccountKind::Market => seq![109u8, 97, 114, 107, 101, 116],
        AccountKind::Vault => seq![118u8, 97, 117, 108, 116],
        AccountKind::VaultAuthority => seq![
            118u8, 97, 117, 108, 116, 95, 97, 117, 116, 104, 111, 114, 105, 116, 121,
        ],
    }
}

/// The little-endian bytes of a market id.
pub open spec fn le_bytes(id: u64) -> Seq<u8> {
    seq![
        id as u8,
        (id >> 8u64) as u8,
        (id >> 16u64) as u8,
        (id >> 24u64) as u8,
        (id >> 32u64) as u8,
        (id >> 40u64) as u8,
        (id >> 48u64) as u8,
        (id >> 56u64) as u8,
    ]
}

/// The seeds of a market's account of kind `kind`, before the bump.
pub open spec fn account_seeds(kind: AccountKind, market_id: u64) -> Seq<Seq<u8>> {
    seq![label_of(kind), le_bytes(market_id)]
}

/// The label of `kind` as bytes ("market", "vault", "vault_authority").
pub fn label(kind: AccountKind) -> (r: Vec<u8>)
    ensures
        r@ == label_of(kind),
{
    let r = match kind {
        AccountKind::Market => vec![109u8, 97, 114, 107, 101, 116],
        AccountKind::Vault => vec![118u8, 97, 117, 108, 116],
        AccountKind::VaultAuthority => vec![
            118u8, 97, 117, 108, 116, 95, 97, 117, 116, 104, 111, 114, 105, 116, 121,
        ],
    };
    assert(r@ =~= label_of(kind));
    r
}

/// The little-endian bytes of `id`.
pub fn id_bytes(id: u64) -> (r: Vec<u8>)
    ensures
        r@ == le_bytes(id),
{
    let r = vec![
        id as u8,
        (id >> 8u64) as u8,
        (id >> 16u64) as u8,
        (id >> 24u64) as u8,
        (id >> 32u64) as u8,
        (id >> 40u64) as u8,
        (id >> 48u64) as u8,
        (id >> 56u64) as u8,
    ];
    assert(r@ =~= le_bytes(id));
    r
}

/// The seeds of a market's account of kind `kind`, before the bump.
pub fn seeds_for(kind: AccountKind, market_id: u64) -> (r: Vec<Vec<u8>>)
    ensures
        seeds_view(r@) == account_seeds(kind, market_id),
{
    let mut r: Vec<Vec<u8>> = Vec::new();
    r.push(label(kind));
    r.push(id_bytes(market_id));
    assert(seeds_view(r@) =~= account_seeds(kind, market_id));
    r
}

/// Re-derives the address of a market's account of kind `kind` from its cached `bump`.
pub fn derive_address(kind: AccountKind, market_id: u64, bump: u8, program_id: &Address) -> (r: Option<Address>)
    ensures
        r matches Some(a) ==> program_address(with_bump(account_seeds(kind, market_id), bump), program_id@) == Some(a@),
        r is None ==> program_address(with_bump(account_seeds(kind, market_id), bump), program_id@) is None,
{
    let mut seeds = seeds_for(kind, market_id);
    let bump_seed = vec![bump];
    assert(bump_seed@ =~= seq![bump]);
    seeds.push(bump_seed);
    assert(seeds_view(seeds@) =~= with_bump(account_seeds(kind, market_id), bump));
    create_program_address(&seeds, program_id)
}

/// Whether `candidate` is the address of a market's account of kind `kind`
/// derived with `bump`.
pub fn is_derived_address(
    kind: AccountKind,
    market_id: u64,
    bump: u8,
    program_id: &Address,
    candidate: &Address,
) -> (r: bool)
    ensures
        r == (program_address(with_bump(account_seeds(kind, market_id), bump), program_id@) == Some(candidate@)),
{
    match derive_address(kind, market_id, bump, program_id) {
        Some(a) => a.same_as(candidate),
        None => false,
    }
}

/// Searches the address of a market's account of kind `kind`: the highest
/// bump for which a derivation exists, with its address.
pub fn find_address(kind: AccountKind, market_id: u64, program_id: &Address) -> (r: Option<(Address, u8)>)
    ensures
        r matches Some((a, b)) ==> {
            &&& b >= 1
            &&& program_address(with_bump(account_seeds(kind, market_id), b), program_id@) == Some(a@)
            &&& forall|c: u8| c > b ==> program_address(with_bump(account_seeds(kind, market_id), c), program_id@) is None
        },
        r is None ==> forall|c: u8| c >= 1 ==> program_address(with_bump(account_seeds(kind, market_id), c), program_id@) is None,
{
    let seeds = seeds_for(kind, market_id);
    try_find_program_address(&seeds, program_id)
}

/// Searches the bumps of all three accounts of market `market_id`.
pub fn find_market_bumps(market_id: u64, program_id: &Address) -> (r: Option<MarketBumps>)
    ensures
        r matches Some(b) ==> {
            &&& program_address(with_bump(account_seeds(AccountKind::Market, market_id), b.market), program_id@) is Some
            &&& program_address(with_bump(account_seeds(AccountKind::Vault, market_id), b.vault), program_id@) is Some
            &&& program_address(with_bump(account_seeds(AccountKind::VaultAuthority, market_id), b.vault_authority), program_id@) is Some
            &&& forall|c: u8| c > b.market ==> program_address(with_bump(account_seeds(AccountKind::Market, market_id), c), program_id@) is None
            &&& forall|c: u8| c > b.vault ==> program_address(with_bump(account_seeds(AccountKind::Vault, market_id), c), program_id@) is None
            &&& forall|c: u8| c > b.vault_authority ==> program_address(with_bump(account_seeds(AccountKind::VaultAuthority, market_id), c), program_id@) is None
            &&& b.market >= 1 && b.vault >= 1 && b.vault_authority >= 1
        },
        r is None ==> {
            ||| forall|c: u8| c >= 1 ==> program_address(with_bump(account_seeds(AccountKind::Market, market_id), c), program_id@) is None
            ||| forall|c: u8| c >= 1 ==> program_address(with_bump(account_seeds(AccountKind::Vault, market_id), c), program_id@) is None
            ||| forall|c: u8| c >= 1 ==> program_address(with_bump(account_seeds(AccountKind::VaultAuthority, market_id), c), program_id@) is None
        },
{
    let (_, market) = find_address(AccountKind::Market, market_id, program_id)?;
    let (_, vault) = find_address(AccountKind::Vault, market_id, program_id)?;
    let (_, vault_authority) = find_address(AccountKind::VaultAuthority, market_id, program_id)?;
    Some(MarketBumps { market, vault, vault_authority })
}

/// Whether the market record, the vault and the vault authority are at the
/// addresses that the market's id and cached bumps derive.
pub fn verify_market_addresses(
    market: &Market,
    program_id: &Address,
    market_key: &Address,
    vault_key: &Address,
    vault_authority_key: &Address,
) -> (r: bool)
    ensures
        r == {
            &&& program_address(with_bump(account_seeds(AccountKind::Market, market.market_id), market.market_bump), program_id@) == Some(market_key@)
            &&& program_address(with_bump(account_seeds(AccountKind::Vault, market.market_id), market.vault_bump), program_id@) == Some(vault_key@)
            &&& program_address(
                with_bump(account_seeds(AccountKind::VaultAuthority, market.market_id), market.vault_authority_bump),
                program_id@,
            ) == Some(vault_authority_key@)
        },
{
    is_derived_address(AccountKind::Market, market.market_id, market.market_bump, program_id, market_key)
        && is_derived_address(AccountKind::Vault, market.market_id, market.vault_bump, program_id, vault_key)
        && is_derived_address(
        AccountKind::VaultAuthority,
        market.market_id,
        market.vault_authority_bump,
        program_id,
        vault_authority_key,
    )
}

} // verus!
