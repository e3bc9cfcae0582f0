//! Properties of the delegation protocol that hold over every sequence of
//! calls.
use vstd::prelude::*;

use crate::address::Address;
use crate::gateway::{burn_result, mint_result, Burn, BurnIce, MintIce, MintTo};
use crate::state::{approval_result, initial_state, revocation_result, ErrorCode, UserState};

verus! {

/// A freshly created record lets nobody but its owner mint or burn.
pub proof fn lemma_new_record_refuses_others(user: Address, m: MintIce, b: BurnIce, amount: u64)
    requires
        m.user_state == initial_state(user),
        b.user_state == initial_state(user),
        m.signer@ != user@,
        b.signer@ != user@,
    ensures
        mint_result(m, amount) == Err::<MintTo, ErrorCode>(ErrorCode::Unauthorized),
        burn_result(b, amount) == Err::<Burn, ErrorCode>(ErrorCode::Unauthorized),
{
}

/// After a delegate is granted and then revoked, its next mint or burn is
/// refused.
pub proof fn lemma_revoked_delegate_refused(
    s: UserState,
    owner: Address,
    d: Address,
    bump: u8,
    derived: Option<Seq<u8>>,
    granted: UserState,
    revoked: UserState,
    m: MintIce,
    b: BurnIce,
    amount: u64,
)
    requires
        approval_result(s, owner, d, bump, derived) == Ok::<UserState, ErrorCode>(granted),
        revocation_result(granted, owner) == Ok::<UserState, ErrorCode>(revoked),
        d@ != s.user@,
        m.user_state == revoked,
        b.user_state == revoked,
        m.signer@ == d@,
        b.signer@ == d@,
    ensures
        mint_result(m, amount) == Err::<MintTo, ErrorCode>(ErrorCode::Unauthorized),
        burn_result(b, amount) == Err::<Burn, ErrorCode>(ErrorCode::Unauthorized),
{
}

/// A second grant replaces the first: the earlier delegate is refused and
/// the new one is admitted.
pub proof fn lemma_grant_replaces_delegate(
    s: UserState,
    owner: Address,
    d1: Address,
    bump1: u8,
    derived1: Option<Seq<u8>>,
    d2: Address,
    bump2: u8,
    derived2: Option<Seq<u8>>,
    first: UserState,
    second: UserState,
    m1: MintIce,
    b1: BurnIce,
    m2: MintIce,
    b2: BurnIce,
    amount: u64,
)
    requires
        approval_result(s, owner, d1, bump1, derived1) == Ok::<UserState, ErrorCode>(first),
        approval_result(first, owner, d2, bump2, derived2) == Ok::<UserState, ErrorCode>(second),
        d1@ != d2@,
        d1@ != s.user@,
        m1.user_state == second,
        b1.user_state == second,
        m1.signer@ == d1@,
        b1.signer@ == d1@,
        m2.user_state == second,
        b2.user_state == second,
        m2.signer@ == d2@,
        b2.signer@ == d2@,
    ensures
        mint_result(m1, amount) == Err::<MintTo, ErrorCode>(ErrorCode::Unauthorized),
        burn_result(b1, amount) == Err::<Burn, ErrorCode>(ErrorCode::Unauthorized),
        mint_result(m2, amount) is Ok,
        burn_result(b2, amount) is Ok,
{
}

/// The owner may always mint, signed by the mint authority, and burn,
/// signed by itself, whatever the delegation state.
pub proof fn lemma_owner_always_admitted(m: MintIce, b: BurnIce, amount: u64)
    requires
        m.signer@ == m.user_state.user@,
        b.signer@ == b.user_state.user@,
    ensures
        mint_result(m, amount) == Ok::<MintTo, ErrorCode>(
            MintTo {
                mint: m.ice_mint,
                to: m.user_token_account,
                authority: m.mint_authority,
                amount,
            },
        ),
        burn_result(b, amount) == Ok::<Burn, ErrorCode>(
            Burn {
                from: b.user_token_account,
                mint: b.ice_mint,
                authority: b.user_state.user,
                amount,
            },
        ),
{
}

/// Grants and revocations never change a record's owner.
pub proof fn lemma_owner_unchanged(
    s: UserState,
    signer: Address,
    d: Address,
    bump: u8,
    derived: Option<Seq<u8>>,
)
    ensures
        approval_result(s, signer, d, bump, derived) matches Ok(t) ==> t.user == s.user,
        revocation_result(s, signer) matches Ok(t) ==> t.user == s.user,
{
}

/// The owner's revocation of a record without a delegate succeeds, and a
/// second revocation leaves the record as the first did.
pub proof fn lemma_revoke_without_delegate(s: UserState, signer: Address)
    requires
        s.backend_authority is None,
        signer@ == s.user@,
    ensures
        revocation_result(s, signer) matches Ok(t) && t.user == s.user && t.backend_authority is None
            && revocation_result(t, signer) == Ok::<UserState, ErrorCode>(t),
{
}

/// A grant whose claimed delegate is not the derived address is refused
/// with a derivation mismatch, whatever the record held before.
pub proof fn lemma_mismatched_derivation_refused(
    s: UserState,
    signer: Address,
    d: Address,
    bump: u8,
    derived: Option<Seq<u8>>,
)
    requires
        signer@ == s.user@,
        derived != Some(d@),
    ensures
        approval_result(s, signer, d, bump, derived) == Err::<UserState, ErrorCode>(
            ErrorCode::DerivationMismatch,
        ),
{
}

} // verus!
