//! Derived addresses: the escrow of a market, the market record and the bet
//! records.
//!
//! None of these accounts has a key holder. Each address is derived from a
//! fixed tag and what identifies the account, under the program that works
//! on the market, so that only that program can sign for it. The escrow is
//! derived from the tag `vault` and the event identifier; the nonce that
//! makes the derivation succeed is kept on the market.

use crate::address::Address;
use crate::market::Market;
use anchor_lang::solana_program::pubkey::Pubkey;
use vstd::prelude::*;
use vstd::string::StrSliceExecFns;
use vstd::utf8::{encode_utf8, encode_utf8_decode_utf8};

verus! {

/// The longest seed that a derivation takes, in bytes.
pub const MAX_SEED_LEN: usize = 32;

/// The greatest number of seeds that a derivation takes, the nonce included.
pub const MAX_SEEDS: usize = 16;

/// The address that `seeds` derive under the program `program_id`, or `None`
/// where they derive none. It stands for what
/// `Pubkey::create_program_address` computes: a hash of the seeds, the program
/// and a marker, which is an address only if it is no point of the curve.
pub uninterp spec fn program_address(seeds: Seq<Seq<u8>>, program_id: Seq<u8>) -> Option<Seq<u8>>;

/// There are more seeds than a derivation takes, or one of them is longer.
pub open spec fn seeds_out_of_bounds(seeds: Seq<Seq<u8>>) -> bool {
    ||| seeds.len() > MAX_SEEDS
    ||| exists|i: int| 0 <= i < seeds.len() && (#[trigger] seeds[i]).len() > MAX_SEED_LEN
}

/// The seeds with the nonce `bump` as one more seed of a single byte.
pub open spec fn with_bump(seeds: Seq<Seq<u8>>, bump: u8) -> Seq<Seq<u8>> {
    seeds.push(seq![bump])
}

/// The address that `seeds` derive with the nonce `bump`.
pub open spec fn bumped_address(seeds: Seq<Seq<u8>>, bump: u8, program_id: Seq<u8>) -> Option<
    Seq<u8>,
> {
    program_address(with_bump(seeds, bump), program_id)
}

/// `bump` is the nonce that a search finds for `seeds`, and `address` what
/// they derive with it: the search runs from 255 down to 1 and stops at the
/// first nonce that derives an address.
pub open spec fn is_canonical(
    seeds: Seq<Seq<u8>>,
    program_id: Seq<u8>,
    address: Seq<u8>,
    bump: u8,
) -> bool {
    &&& 1 <= bump
    &&& bumped_address(seeds, bump, program_id) == Some(address)
    &&& forall|higher: u8|
        bump < higher ==> (#[trigger] bumped_address(seeds, higher, program_id)) is None
}

/// No nonce from 1 to 255 makes `seeds` derive an address.
pub open spec fn no_bump_derives(seeds: Seq<Seq<u8>>, program_id: Seq<u8>) -> bool {
    forall|bump: u8| 1 <= bump ==> (#[trigger] bumped_address(seeds, bump, program_id)) is None
}

/// The bytes of an address, where there is one.
pub open spec fn address_bytes(address: Option<Address>) -> Option<Seq<u8>> {
    match address {
        Some(a) => Some(a@),
        None => None,
    }
}

/// Calls `Pubkey::create_program_address` on the seeds and the program.
///
/// Believed of it: what it returns depends on the seeds and the program
/// alone, which `program_address` names, with an error of either kind told as
/// `None`; and it returns an error for more than `MAX_SEEDS` seeds or a seed
/// of more than `MAX_SEED_LEN` bytes, which it tests before anything else.
#[verifier::external_body]
fn create_program_address(seeds: &Vec<Vec<u8>>, program_id: &Address) -> (r: Option<Address>)
    ensures
        address_bytes(r) == program_address(seeds.deep_view(), program_id@),
        seeds_out_of_bounds(seeds.deep_view()) ==> r is None,
{
    let parts: Vec<&[u8]> = seeds.iter().map(|seed| seed.as_slice()).collect();
    match Pubkey::create_program_address(&parts, &Pubkey::new_from_array(program_id.bytes)) {
        Ok(key) => Some(Address { bytes: key.to_bytes() }),
        Err(_) => None,
    }
}

/// Calls `Pubkey::try_find_program_address` on the seeds and the program.
///
/// Believed of it: it tries the nonces from 255 down to 1 with
/// `Pubkey::create_program_address` on the seeds and the nonce, and returns
/// the first address that comes out with its nonce; it returns `None` where
/// no nonce gives an address, which is so in particular where the seeds with
/// a nonce are more than `MAX_SEEDS` or one is longer than `MAX_SEED_LEN`.
#[verifier::external_body]
fn try_find_program_address(seeds: &Vec<Vec<u8>>, program_id: &Address) -> (r: Option<
    (Address, u8),
>)
    ensures
        r matches Some((address, bump)) ==> is_canonical(
            seeds.deep_view(),
            program_id@,
            address@,
            bump,
        ),
        r is None ==> no_bump_derives(seeds.deep_view(), program_id@),
        seeds_out_of_bounds(with_bump(seeds.deep_view(), 255)) ==> r is None,
{
    let parts: Vec<&[u8]> = seeds.iter().map(|seed| seed.as_slice()).collect();
    match Pubkey::try_find_program_address(&parts, &Pubkey::new_from_array(program_id.bytes)) {
        Some((key, bump)) => Some((Address { bytes: key.to_bytes() }, bump)),
        None => None,
    }
}

// ---------------------------------------------------------------------------
// Seeds
// ---------------------------------------------------------------------------
/// The tag of an escrow: the bytes of `vault`.
pub open spec fn vault_tag() -> Seq<u8> {
    encode_utf8("vault"@)
}

/// The tag of a market record: the bytes of `market`.
pub open spec fn market_tag() -> Seq<u8> {
    encode_utf8("market"@)
}

/// The tag of a bet record: the bytes of `bet`.
pub open spec fn bet_tag() -> Seq<u8> {
    encode_utf8("bet"@)
}

/// The seeds of the escrow of an event, without the nonce: the tag and the
/// bytes of the event identifier.
pub open spec fn vault_seeds(event_id: Seq<char>) -> Seq<Seq<u8>> {
    seq![vault_tag(), encode_utf8(event_id)]
}

/// The seeds of the market record of an event, without the nonce.
pub open spec fn market_seeds(event_id: Seq<char>) -> Seq<Seq<u8>> {
    seq![market_tag(), encode_utf8(event_id)]
}

/// The seeds of the record of one bettor on one market, without the nonce:
/// the tag, the address of the market record and the address of the bettor.
pub open spec fn bet_seeds(market: Address, user: Address) -> Seq<Seq<u8>> {
    seq![bet_tag(), market@, user@]
}

/// The seeds that sign for the escrow of a market: those of the escrow with
/// the nonce on record.
pub open spec fn vault_signer_seeds_of(market: Market) -> Seq<Seq<u8>> {
    with_bump(vault_seeds(market.event_id@), market.vault_bump)
}

/// A tag and the bytes of an identifier, as two seeds.
fn tagged_seeds(tag: &str, id: &str) -> (seeds: Vec<Vec<u8>>)
    ensures
        seeds.deep_view() == seq![encode_utf8(tag@), encode_utf8(id@)],
{
    let mut seeds: Vec<Vec<u8>> = Vec::new();
    seeds.push(tag.as_bytes_vec());
    seeds.push(id.as_bytes_vec());
    assert(seeds.deep_view() =~~= seq![encode_utf8(tag@), encode_utf8(id@)]);
    seeds
}

/// Builds the seeds that sign for the escrow of `market`: the tag, the bytes
/// of the event identifier and the nonce on record. Whoever debits the escrow
/// signs with them.
pub fn vault_signer_seeds(market: &Market) -> (seeds: Vec<Vec<u8>>)
    ensures
        seeds.deep_view() == vault_signer_seeds_of(*market),
{
    let mut seeds = tagged_seeds("vault", market.event_id.as_str());
    let ghost before = seeds.deep_view();
    let mut nonce: Vec<u8> = Vec::new();
    nonce.push(market.vault_bump);
    seeds.push(nonce);
    assert(seeds.deep_view() =~~= with_bump(before, market.vault_bump));
    seeds
}

// ---------------------------------------------------------------------------
// Derivation
// ---------------------------------------------------------------------------
/// Finds the escrow of an event under `program_id`: its address and the
/// nonce that derives it, the highest from 255 down to 1 that derives an
/// address at all. This is the nonce to keep on the market. There is no
/// escrow where no nonce derives an address, and none for an event
/// identifier of more than `MAX_SEED_LEN` bytes.
pub fn find_vault(program_id: &Address, event_id: &str) -> (r: Option<(Address, u8)>)
    ensures
        r matches Some((vault, bump)) ==> is_canonical(
            vault_seeds(event_id@),
            program_id@,
            vault@,
            bump,
        ),
        r is None ==> no_bump_derives(vault_seeds(event_id@), program_id@),
        encode_utf8(event_id@).len() > MAX_SEED_LEN ==> r is None,
{
    let seeds = tagged_seeds("vault", event_id);
    proof {
        lemma_long_seed_out_of_bounds(with_bump(seeds.deep_view(), 255), 1);
    }
    try_find_program_address(&seeds, program_id)
}

/// Finds the address of the market record of an event under `program_id`,
/// with its nonce, as `find_vault` does for the escrow.
pub fn find_market_address(program_id: &Address, event_id: &str) -> (r: Option<(Address, u8)>)
    ensures
        r matches Some((market, bump)) ==> is_canonical(
            market_seeds(event_id@),
            program_id@,
            market@,
            bump,
        ),
        r is None ==> no_bump_derives(market_seeds(event_id@), program_id@),
        encode_utf8(event_id@).len() > MAX_SEED_LEN ==> r is None,
{
    let seeds = tagged_seeds("market", event_id);
    proof {
        lemma_long_seed_out_of_bounds(with_bump(seeds.deep_view(), 255), 1);
    }
    try_find_program_address(&seeds, program_id)
}

/// Finds the address of the record of the bettor `user` on the market at
/// `market` under `program_id`, with its nonce. There is one record for each
/// pair of a market and a bettor.
pub fn find_bet_address(program_id: &Address, market: &Address, user: &Address) -> (r: Option<
    (Address, u8),
>)
    ensures
        r matches Some((bet, bump)) ==> is_canonical(
            bet_seeds(*market, *user),
            program_id@,
            bet@,
            bump,
        ),
        r is None ==> no_bump_derives(bet_seeds(*market, *user), program_id@),
{
    let mut seeds: Vec<Vec<u8>> = Vec::new();
    seeds.push("bet".as_bytes_vec());
    seeds.push(market.to_vec());
    seeds.push(user.to_vec());
    assert(seeds.deep_view() =~~= bet_seeds(*market, *user));
    try_find_program_address(&seeds, program_id)
}

/// Derives the escrow address of `market` under `program_id` from the event
/// identifier and the nonce on record, without a search. There is none where
/// the nonce on record derives no address, and none for an event identifier
/// of more than `MAX_SEED_LEN` bytes.
pub fn vault_address(program_id: &Address, market: &Market) -> (r: Option<Address>)
    ensures
        address_bytes(r) == program_address(vault_signer_seeds_of(*market), program_id@),
        encode_utf8(market.event_id@).len() > MAX_SEED_LEN ==> r is None,
{
    let seeds = vault_signer_seeds(market);
    proof {
        lemma_long_seed_out_of_bounds(seeds.deep_view(), 1);
    }
    create_program_address(&seeds, program_id)
}

/// Tells whether `vault` is the escrow of `market` under `program_id`: the
/// address that the event identifier and the nonce on record derive.
pub fn is_vault_of(program_id: &Address, market: &Market, vault: &Address) -> (r: bool)
    ensures
        r == (program_address(vault_signer_seeds_of(*market), program_id@) == Some(vault@)),
{
    match vault_address(program_id, market) {
        Some(derived) => {
            proof {
                crate::address::lemma_address_eq_by_bytes(derived, *vault);
            }
            derived == *vault
        },
        None => false,
    }
}

// ---------------------------------------------------------------------------
// What holds of the seeds
// ---------------------------------------------------------------------------
/// Seeds of which the one at `i` is longer than a derivation takes are out of
/// bounds.
pub proof fn lemma_long_seed_out_of_bounds(seeds: Seq<Seq<u8>>, i: int)
    requires
        0 <= i < seeds.len(),
    ensures
        seeds[i].len() > MAX_SEED_LEN ==> seeds_out_of_bounds(seeds),
{
}

/// A search finds one thing only: two answers for the same seeds under the
/// same program are the same nonce and the same address.
pub proof fn lemma_canonical_unique(
    seeds: Seq<Seq<u8>>,
    program_id: Seq<u8>,
    first: (Seq<u8>, u8),
    second: (Seq<u8>, u8),
)
    requires
        is_canonical(seeds, program_id, first.0, first.1),
        is_canonical(seeds, program_id, second.0, second.1),
    ensures
        first == second,
{
    if first.1 < second.1 {
        assert(bumped_address(seeds, second.1, program_id) is None);
    } else if second.1 < first.1 {
        assert(bumped_address(seeds, first.1, program_id) is None);
    }
}

/// What a search finds is what the nonce derives without a search: the
/// address found for an event is the one that the seeds of a market with
/// this event identifier and this nonce on record sign for.
pub proof fn lemma_found_vault_is_derived(
    market: Market,
    program_id: Seq<u8>,
    vault: Seq<u8>,
    bump: u8,
)
    requires
        is_canonical(vault_seeds(market.event_id@), program_id, vault, bump),
        market.vault_bump == bump,
    ensures
        program_address(vault_signer_seeds_of(market), program_id) == Some(vault),
{
}

/// Different events have different escrow seeds, and different market seeds.
pub proof fn lemma_event_seeds_injective(first: Seq<char>, second: Seq<char>)
    ensures
        vault_seeds(first) == vault_seeds(second) ==> first == second,
        market_seeds(first) == market_seeds(second) ==> first == second,
{
    encode_utf8_decode_utf8(first);
    encode_utf8_decode_utf8(second);
    if vault_seeds(first) == vault_seeds(second) {
        assert(vault_seeds(first)[1] == vault_seeds(second)[1]);
    }
    if market_seeds(first) == market_seeds(second) {
        assert(market_seeds(first)[1] == market_seeds(second)[1]);
    }
}

/// Different pairs of a market and a bettor have different bet seeds.
pub proof fn lemma_bet_seeds_injective(
    market_1: Address,
    user_1: Address,
    market_2: Address,
    user_2: Address,
)
    ensures
        bet_seeds(market_1, user_1) == bet_seeds(market_2, user_2) ==> market_1 == market_2
            && user_1 == user_2,
{
    crate::address::lemma_address_eq_by_bytes(market_1, market_2);
    crate::address::lemma_address_eq_by_bytes(user_1, user_2);
    if bet_seeds(market_1, user_1) == bet_seeds(market_2, user_2) {
        assert(bet_seeds(market_1, user_1)[1] == bet_seeds(market_2, user_2)[1]);
        assert(bet_seeds(market_1, user_1)[2] == bet_seeds(market_2, user_2)[2]);
    }
}

} // verus!
