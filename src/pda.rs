use vstd::prelude::*;

use crate::address::Address;
use anchor_lang::solana_program::pubkey::Pubkey;

verus! {

/// The program-derived address of `seeds` under `program`, or `None` where
/// the seeds are refused or hash to a point on the curve.
pub uninterp spec fn program_address(seeds: Seq<Seq<u8>>, program: Seq<u8>) -> Option<Seq<u8>>;

pub open spec fn address_opt_view(a: Option<Address>) -> Option<Seq<u8>> {
    match a {
        Some(k) => Some(k@),
        None => None,
    }
}

/// Relies on `Pubkey::create_program_address`: the derived address of the
/// seeds under the program, `Err` when it is not a valid program address.
#[verifier::external_body]
fn create_program_address(seeds: &Vec<Vec<u8>>, program_id: &Address) -> (r: Option<Address>)
    ensures
        address_opt_view(r) == program_address(seeds.deep_view(), program_id@),
{
    let slices: Vec<&[u8]> = seeds.iter().map(|s| s.as_slice()).collect();
    let program = Pubkey::new_from_array(program_id.bytes);
    match Pubkey::create_program_address(&slices, &program) {
        Ok(k) => Some(Address::new(k.to_bytes())),
        Err(_) => None,
    }
}

/// Relies on `Pubkey::try_find_program_address`: it tries the bump seeds 255
/// down to 1 appended to the seeds, and returns the first that yields a
/// program address, with that address.
#[verifier::external_body]
pub(crate) fn try_find_program_address(seeds: &Vec<Vec<u8>>, program_id: &Address) -> (r: Option<(Address, u8)>)
    ensures
        match r {
            Some((a, b)) => {
                &&& 1 <= b
                &&& program_address(seeds.deep_view().push(seq![b]), program_id@) == Some(a@)
                &&& forall|c: u8|
                    b < c ==> #[trigger] program_address(seeds.deep_view().push(seq![c]), program_id@)
                        is None
            },
            None => forall|c: u8|
                1 <= c ==> #[trigger] program_address(seeds.deep_view().push(seq![c]), program_id@)
                    is None,
        },
{
    let slices: Vec<&[u8]> = seeds.iter().map(|s| s.as_slice()).collect();
    let program = Pubkey::new_from_array(program_id.bytes);
    Pubkey::try_find_program_address(&slices, &program).map(|(k, b)| (Address::new(k.to_bytes()), b))
}

/// The domain tag of backend authorities: the bytes of "backend".
pub open spec fn backend_tag() -> Seq<u8> {
    seq![98u8, 97u8, 99u8, 107u8, 101u8, 110u8, 100u8]
}

/// The seeds of a user's backend authority, before the bump seed.
pub open spec fn backend_base_seeds(user: Seq<u8>) -> Seq<Seq<u8>> {
    seq![backend_tag(), user]
}

/// The full seeds of a user's backend authority for a given bump seed.
pub open spec fn backend_seeds(user: Seq<u8>, bump: u8) -> Seq<Seq<u8>> {
    backend_base_seeds(user).push(seq![bump])
}

/// The seeds of `user`'s backend authority, before the bump seed.
pub(crate) fn backend_base_seed_vec(user: &Address) -> (r: Vec<Vec<u8>>)
    ensures
        r.deep_view() == backend_base_seeds(user@),
        r@.len() == 2,
{
    let tag: Vec<u8> = vec![98u8, 97u8, 99u8, 107u8, 101u8, 110u8, 100u8];
    let key: Vec<u8> = user.to_vec();
    assert(tag.deep_view() =~= backend_tag());
    assert(key.deep_view() =~= user@);
    let r: Vec<Vec<u8>> = vec![tag, key];
    assert(r@[0] == tag && r@[1] == key);
    assert(r.deep_view() =~= backend_base_seeds(user@));
    r
}

/// The backend authority address of `user` for the bump seed `bump`, if
/// those seeds give a program address of `program_id`.
pub fn backend_address(user: &Address, bump: u8, program_id: &Address) -> (r: Option<Address>)
    ensures
        address_opt_view(r) == program_address(backend_seeds(user@, bump), program_id@),
{
    let mut seeds = backend_base_seed_vec(user);
    let ghost base = seeds@;
    let bump_seed: Vec<u8> = vec![bump];
    assert(bump_seed.deep_view() =~= seq![bump]);
    seeds.push(bump_seed);
    assert(seeds@[0] == base[0] && seeds@[1] == base[1] && seeds@[2] == bump_seed);
    assert(seeds.deep_view() =~= backend_seeds(user@, bump));
    create_program_address(&seeds, program_id)
}

} // verus!
