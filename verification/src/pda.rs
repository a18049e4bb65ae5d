use vstd::prelude::*;
use vstd::bytes::{
    lemma_auto_spec_u64_to_from_le_bytes, spec_u64_from_le_bytes, spec_u64_to_le_bytes,
    u64_to_le_bytes,
};
use vstd::slice::slice_to_vec;
use anchor_lang::prelude::Pubkey;
use crate::address::Address;

verus! {

/// The tag that opens the seeds of every order address: `order` in ASCII.
pub const ORDER_SEED_TAG: [u8; 5] = [111, 114, 100, 101, 114];

/// The address and bump seed that the ledger derives for a program from a
/// list of seeds, or `None` where it derives none.
pub uninterp spec fn program_address(seeds: Seq<Seq<u8>>, program_id: Seq<u8>) -> Option<
    (Seq<u8>, u8),
>;

/// What a derivation found, with the address taken by its bytes.
pub open spec fn found_view(found: Option<(Address, u8)>) -> Option<(Seq<u8>, u8)> {
    match found {
        Some((address, bump)) => Some((address@, bump)),
        None => None,
    }
}

/// `Pubkey::try_find_program_address`: the program-derived address for the
/// seeds and the bump seed that completes them. The derivation reads nothing
/// but its two arguments, so its answer is the one named by
/// [`program_address`]; that name is all that is claimed of it.
#[verifier::external_body]
fn try_find_program_address(seeds: &Vec<Vec<u8>>, program_id: &Address) -> (res: Option<
    (Address, u8),
>)
    ensures
        found_view(res) == program_address(seeds.deep_view(), program_id@),
{
    let slices: Vec<&[u8]> = seeds.iter().map(|seed| seed.as_slice()).collect();
    match Pubkey::try_find_program_address(&slices, &Pubkey::new_from_array(program_id.bytes)) {
        Some((key, bump)) => Some((Address { bytes: key.to_bytes() }, bump)),
        None => None,
    }
}

/// The seeds of an order's address: the tag, the market's address, the
/// owner's address and the client's order id as 8 little-endian bytes.
pub open spec fn spec_order_seeds(market: Address, owner: Address, client_order_id: u64) -> Seq<
    Seq<u8>,
> {
    seq![ORDER_SEED_TAG@, market@, owner@, spec_u64_to_le_bytes(client_order_id)]
}

/// The address of the order record of `(market, owner, client_order_id)`
/// under the program `program_id`, with its bump seed.
pub open spec fn spec_order_address(
    program_id: Address,
    market: Address,
    owner: Address,
    client_order_id: u64,
) -> Option<(Seq<u8>, u8)> {
    program_address(spec_order_seeds(market, owner, client_order_id), program_id@)
}

/// Builds the seeds of an order's address.
pub fn order_seeds(market: &Address, owner: &Address, client_order_id: u64) -> (seeds: Vec<
    Vec<u8>,
>)
    ensures
        seeds.deep_view() == spec_order_seeds(*market, *owner, client_order_id),
{
    let tag: Vec<u8> = slice_to_vec(ORDER_SEED_TAG.as_slice());
    let mut seeds: Vec<Vec<u8>> = Vec::new();
    seeds.push(tag);
    seeds.push(market.to_vec());
    seeds.push(owner.to_vec());
    seeds.push(u64_to_le_bytes(client_order_id));
    assert(seeds.deep_view() =~~= spec_order_seeds(*market, *owner, client_order_id));
    seeds
}

/// Derives the address at which the order of `(market, owner,
/// client_order_id)` is stored, and the bump seed of that address. `None`
/// where the ledger derives no address from these seeds.
pub fn find_order_address(
    program_id: &Address,
    market: &Address,
    owner: &Address,
    client_order_id: u64,
) -> (res: Option<(Address, u8)>)
    ensures
        found_view(res) == spec_order_address(*program_id, *market, *owner, client_order_id),
{
    let seeds = order_seeds(market, owner, client_order_id);
    try_find_program_address(&seeds, program_id)
}

/// One order has one address: whatever two derivations for the same
/// program, market, owner and client order id find, they find the same.
pub proof fn lemma_order_address_is_determined(
    first: Option<(Address, u8)>,
    second: Option<(Address, u8)>,
    program_id: Address,
    market: Address,
    owner: Address,
    client_order_id: u64,
)
    requires
        found_view(first) == spec_order_address(program_id, market, owner, client_order_id),
        found_view(second) == spec_order_address(program_id, market, owner, client_order_id),
    ensures
        first == second,
{
    if first is Some {
        Address::lemma_view_injective(first.unwrap().0, second.unwrap().0);
    }
}

/// The seeds of an order run together to the tag, the market's bytes, the
/// owner's bytes and the 8 bytes of the client's order id: 77 bytes in all.
pub proof fn lemma_order_seeds_flatten(market: Address, owner: Address, client_order_id: u64)
    ensures
        spec_order_seeds(market, owner, client_order_id).flatten() == ORDER_SEED_TAG@ + market@
            + owner@ + spec_u64_to_le_bytes(client_order_id),
        spec_order_seeds(market, owner, client_order_id).flatten().len() == 77,
{
    lemma_auto_spec_u64_to_from_le_bytes();
    let seeds = spec_order_seeds(market, owner, client_order_id);
    let s1 = seeds.drop_first();
    let s2 = s1.drop_first();
    let s3 = s2.drop_first();
    let s4 = s3.drop_first();
    assert(s4.flatten() =~= Seq::<u8>::empty());
    assert(s3.flatten() =~= s3.first() + s4.flatten());
    assert(s2.flatten() =~= s2.first() + s3.flatten());
    assert(s1.flatten() =~= s1.first() + s2.flatten());
    assert(seeds.flatten() =~= seeds.first() + s1.flatten());
    assert(seeds.flatten() =~= ORDER_SEED_TAG@ + market@ + owner@ + spec_u64_to_le_bytes(
        client_order_id,
    ));
}

/// The derivation reads the seeds as one run of bytes. Two orders whose
/// seeds run together to the same bytes have the same market, the same owner
/// and the same client order id: the seeds of different orders never
/// coincide.
pub proof fn lemma_order_seeds_injective(
    market1: Address,
    owner1: Address,
    client_order_id1: u64,
    market2: Address,
    owner2: Address,
    client_order_id2: u64,
)
    requires
        spec_order_seeds(market1, owner1, client_order_id1).flatten() == spec_order_seeds(
            market2,
            owner2,
            client_order_id2,
        ).flatten(),
    ensures
        market1 == market2,
        owner1 == owner2,
        client_order_id1 == client_order_id2,
{
    lemma_auto_spec_u64_to_from_le_bytes();
    lemma_order_seeds_flatten(market1, owner1, client_order_id1);
    lemma_order_seeds_flatten(market2, owner2, client_order_id2);
    let run1 = spec_order_seeds(market1, owner1, client_order_id1).flatten();
    let run2 = spec_order_seeds(market2, owner2, client_order_id2).flatten();
    assert(run1.subrange(5, 37) =~= market1@);
    assert(run2.subrange(5, 37) =~= market2@);
    assert(run1.subrange(37, 69) =~= owner1@);
    assert(run2.subrange(37, 69) =~= owner2@);
    assert(run1.subrange(69, 77) =~= spec_u64_to_le_bytes(client_order_id1));
    assert(run2.subrange(69, 77) =~= spec_u64_to_le_bytes(client_order_id2));
    Address::lemma_view_injective(market1, market2);
    Address::lemma_view_injective(owner1, owner2);
    assert(spec_u64_from_le_bytes(spec_u64_to_le_bytes(client_order_id1)) == client_order_id1);
    assert(spec_u64_from_le_bytes(spec_u64_to_le_bytes(client_order_id2)) == client_order_id2);
}

} // verus!
