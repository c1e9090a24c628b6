//! The escrow's derived authority: an address computed from the maker and the
//! seed, for which no private key exists, and which the program alone may sign
//! for by replaying the derivation inputs.
use vstd::prelude::*;

use anchor_lang::prelude::Pubkey;

use crate::address::{le_bytes, to_le_bytes, Address};

verus! {

/// What `Pubkey::create_program_address` returns for these seeds and program:
/// the derived address, or none where the hash lies on the curve.
pub uninterp spec fn program_address(seeds: Seq<Seq<u8>>, program_id: Seq<u8>) -> Option<Seq<u8>>;

pub open spec fn seeds_view(seeds: Seq<Vec<u8>>) -> Seq<Seq<u8>> {
    seeds.map_values(|s: Vec<u8>| s@)
}

/// The seed lists the derivation accepts: at most `n` seeds of at most
/// thirty-two bytes each.
pub open spec fn seeds_fit(seeds: Seq<Vec<u8>>, n: int) -> bool {
    &&& seeds.len() <= n
    &&& forall|i: int| 0 <= i < seeds.len() ==> (#[trigger] seeds[i]).len() <= 32
}

/// `seeds` followed by the one-byte seed `bump`.
pub open spec fn with_bump(seeds: Seq<Seq<u8>>, bump: u8) -> Seq<Seq<u8>> {
    seeds.push(seq![bump])
}

/// `bump` is the first bump, counting down from 255, for which `seeds`
/// give an address, and that address is `address`.
pub open spec fn first_bump(seeds: Seq<Seq<u8>>, program_id: Seq<u8>, address: Seq<u8>, bump: u8) -> bool {
    &&& 1 <= bump
    &&& program_address(with_bump(seeds, bump), program_id) == Some(address)
    &&& forall|c: u8| bump < c ==> (#[trigger] program_address(with_bump(seeds, c), program_id)) is None
}

/// Relies on `Pubkey::create_program_address`: within the seed limits its only
/// error is an address on the curve, and otherwise it returns the address.
#[verifier::external_body]
fn create_address(seeds: &Vec<Vec<u8>>, program_id: &Address) -> (r: Option<Address>)
    requires
        seeds_fit(seeds@, 16),
    ensures
        match r {
            Some(a) => program_address(seeds_view(seeds@), program_id@) == Some(a@),
            None => program_address(seeds_view(seeds@), program_id@) is None,
        },
{
    let refs: Vec<&[u8]> = seeds.iter().map(|s| s.as_slice()).collect();
    match Pubkey::create_program_address(&refs, &Pubkey::new_from_array(program_id.bytes)) {
        Ok(k) => Some(Address { bytes: k.to_bytes() }),
        Err(_) => None,
    }
}

/// Relies on `Pubkey::try_find_program_address`: it appends the bumps 255
/// down to 1 in turn, calls `create_program_address`, and returns the first
/// address found with its bump, or none where every bump fails.
#[verifier::external_body]
fn find_address(seeds: &Vec<Vec<u8>>, program_id: &Address) -> (r: Option<(Address, u8)>)
    requires
        seeds_fit(seeds@, 15),
    ensures
        match r {
            Some((a, b)) => first_bump(seeds_view(seeds@), program_id@, a@, b),
            None => forall|c: u8|
                1 <= c ==> (#[trigger] program_address(with_bump(seeds_view(seeds@), c), program_id@)) is None,
        },
{
    let refs: Vec<&[u8]> = seeds.iter().map(|s| s.as_slice()).collect();
    match Pubkey::try_find_program_address(&refs, &Pubkey::new_from_array(program_id.bytes)) {
        Some((k, b)) => Some((Address { bytes: k.to_bytes() }, b)),
        None => None,
    }
}

/// The tag that namespaces escrow addresses: the bytes of "escrow".
pub open spec fn escrow_tag() -> Seq<u8> {
    seq![101u8, 115u8, 99u8, 114u8, 111u8, 119u8]
}

/// The seeds of the escrow that `maker` opened with `seed`, without the bump.
pub open spec fn escrow_seeds(maker: Seq<u8>, seed: u64) -> Seq<Seq<u8>> {
    seq![escrow_tag(), maker, le_bytes(seed)]
}

/// The authority of the escrow `(maker, seed)` and its bump, where one exists.
pub open spec fn derived_authority(maker: Seq<u8>, seed: u64, program_id: Seq<u8>) -> Option<(Seq<u8>, u8)> {
    let seeds = escrow_seeds(maker, seed);
    if exists|x: (Seq<u8>, u8)| first_bump(seeds, program_id, x.0, x.1) {
        Some(choose|x: (Seq<u8>, u8)| first_bump(seeds, program_id, x.0, x.1))
    } else {
        None
    }
}

/// Replaying `(maker, seed, bump)` yields `authority`.
pub open spec fn replays_to(maker: Seq<u8>, seed: u64, bump: u8, program_id: Seq<u8>, authority: Seq<u8>) -> bool {
    program_address(with_bump(escrow_seeds(maker, seed), bump), program_id) == Some(authority)
}

/// At most one address and bump are the first found for given seeds.
pub proof fn lemma_first_bump_unique(seeds: Seq<Seq<u8>>, p: Seq<u8>, a1: Seq<u8>, b1: u8, a2: Seq<u8>, b2: u8)
    requires
        first_bump(seeds, p, a1, b1),
        first_bump(seeds, p, a2, b2),
    ensures
        a1 == a2,
        b1 == b2,
{
    if b1 < b2 {
        assert(program_address(with_bump(seeds, b2), p) is None);
    } else if b2 < b1 {
        assert(program_address(with_bump(seeds, b1), p) is None);
    }
}

/// The derivation is a function of its inputs: two derivations of the same
/// maker and seed under the same program agree on the address and the bump,
/// and replaying the bump they give reproduces the address.
pub proof fn lemma_derivation_deterministic(maker: Seq<u8>, seed: u64, program_id: Seq<u8>, r1: Option<(Seq<u8>, u8)>, r2: Option<(Seq<u8>, u8)>)
    requires
        r1 == derived_authority(maker, seed, program_id),
        r2 == derived_authority(maker, seed, program_id),
    ensures
        r1 == r2,
        r1 matches Some((a, b)) ==> replays_to(maker, seed, b, program_id, a),
{
    let seeds = escrow_seeds(maker, seed);
    if exists|x: (Seq<u8>, u8)| first_bump(seeds, program_id, x.0, x.1) {
        let x = choose|x: (Seq<u8>, u8)| first_bump(seeds, program_id, x.0, x.1);
        assert(program_address(with_bump(seeds, x.1), program_id) == Some(x.0));
    }
}

fn escrow_seed_vec(maker: &Address, seed: u64) -> (r: Vec<Vec<u8>>)
    ensures
        seeds_view(r@) == escrow_seeds(maker@, seed),
        seeds_fit(r@, 3),
        r@.len() == 3,
{
    let tag: Vec<u8> = vec![101u8, 115u8, 99u8, 114u8, 111u8, 119u8];
    let m = maker.to_vec();
    let s = to_le_bytes(seed);
    assert(tag@ =~= escrow_tag());
    let r = vec![tag, m, s];
    assert(seeds_view(r@) =~= escrow_seeds(maker@, seed));
    r
}

/// Finds the authority of the escrow `(maker, seed)`: the first bump from 255
/// down that gives a valid address, and that address.
pub fn derive_authority(maker: &Address, seed: u64, program_id: &Address) -> (r: Option<(Address, u8)>)
    ensures
        match r {
            Some((a, b)) => derived_authority(maker@, seed, program_id@) == Some((a@, b)),
            None => derived_authority(maker@, seed, program_id@) is None,
        },
{
    let seeds = escrow_seed_vec(maker, seed);
    let r = find_address(&seeds, program_id);
    let ghost s = escrow_seeds(maker@, seed);
    match r {
        Some((a, b)) => {
            proof {
                assert(first_bump(s, program_id@, (a@, b).0, (a@, b).1));
                let x = choose|x: (Seq<u8>, u8)| first_bump(s, program_id@, x.0, x.1);
                lemma_first_bump_unique(s, program_id@, a@, b, x.0, x.1);
            }
        },
        None => {
            proof {
                assert forall|x: (Seq<u8>, u8)| !first_bump(s, program_id@, x.0, x.1) by {
                    if 1 <= x.1 {
                        assert(program_address(with_bump(s, x.1), program_id@) is None);
                    }
                }
            }
        },
    }
    r
}

/// Whether replaying `(maker, seed, bump)` reproduces `expected`: the check
/// that a record's stored bump still names the address it lives at.
pub fn authority_matches(maker: &Address, seed: u64, bump: u8, program_id: &Address, expected: &Address) -> (r: bool)
    ensures
        r == replays_to(maker@, seed, bump, program_id@, expected@),
{
    let mut seeds = escrow_seed_vec(maker, seed);
    let ghost before = seeds@;
    let last: Vec<u8> = vec![bump];
    assert(last@ =~= seq![bump]);
    seeds.push(last);
    proof {
        assert(seeds@ == before.push(last));
        assert(seeds_view(seeds@).len() == 4);
        assert forall|i: int| 0 <= i < 4 implies #[trigger] seeds_view(seeds@)[i] == with_bump(seeds_view(before), bump)[i] by {
            if i < 3 {
                assert(seeds@[i] == before[i]);
            }
        }
        assert(seeds_view(seeds@) =~= with_bump(seeds_view(before), bump));
        assert forall|i: int| 0 <= i < seeds@.len() implies (#[trigger] seeds@[i]).len() <= 32 by {
            if i < 3 {
                assert(seeds@[i] == before[i]);
            }
        }
    }
    match create_address(&seeds, program_id) {
        Some(a) => a.same(expected),
        None => false,
    }
}

} // verus!
