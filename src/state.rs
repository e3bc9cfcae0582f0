use vstd::prelude::*;

use crate::address::Address;
use crate::pda::{
    address_opt_view, backend_address, backend_base_seed_vec, backend_seeds, program_address,
    try_find_program_address,
};

verus! {

/// Why an operation was refused.
#[derive(Clone, Copy, Debug, PartialEq, Eq, Structural)]
pub enum ErrorCode {
    /// The caller is neither the record's owner nor its active delegate.
    Unauthorized,
    /// The claimed delegate is not the address derived from the owner and
    /// the given bump seed.
    DerivationMismatch,
}

/// The delegation record of one user.
///
/// `backend_authority` is the active delegate, if any; `bump` is the seed
/// that derives it from `user`, and means nothing while there is none.
#[derive(Clone, Copy, Debug)]
pub struct UserState {
    pub user: Address,
    pub backend_authority: Option<Address>,
    pub bump: u8,
}

/// The keys of the accounts that record creation reads.
#[derive(Clone, Copy, Debug)]
pub struct Initialize {
    pub user: Address,
}

/// The accounts of a grant: the record, the claimed delegate, and the
/// signing user.
#[derive(Clone, Copy, Debug)]
pub struct ApproveBackend {
    pub user_state: UserState,
    pub backend_authority: Address,
    pub user: Address,
}

/// The accounts of a revocation: the record and the signing user.
#[derive(Clone, Copy, Debug)]
pub struct RevokeBackend {
    pub user_state: UserState,
    pub user: Address,
}

/// The record that creation yields for `user`: no delegate.
pub open spec fn initial_state(user: Address) -> UserState {
    UserState { user, backend_authority: None, bump: 0 }
}

/// Whether `signer` is the record's owner.
pub open spec fn signed_by_owner(s: UserState, signer: Address) -> bool {
    signer@ == s.user@
}

/// The outcome of a grant of `backend` with seed `bump` signed by `signer`,
/// where `derived` is the address that the owner and `bump` derive.
pub open spec fn approval_result(
    s: UserState,
    signer: Address,
    backend: Address,
    bump: u8,
    derived: Option<Seq<u8>>,
) -> Result<UserState, ErrorCode> {
    if !signed_by_owner(s, signer) {
        Err(ErrorCode::Unauthorized)
    } else if derived != Some(backend@) {
        Err(ErrorCode::DerivationMismatch)
    } else {
        Ok(UserState { user: s.user, backend_authority: Some(backend), bump })
    }
}

/// The outcome of a revocation signed by `signer`.
pub open spec fn revocation_result(s: UserState, signer: Address) -> Result<UserState, ErrorCode> {
    if !signed_by_owner(s, signer) {
        Err(ErrorCode::Unauthorized)
    } else {
        Ok(UserState { user: s.user, backend_authority: None, bump: 0 })
    }
}

/// Creates the delegation record of the signing user, with no delegate.
pub fn initialize(ctx: &Initialize) -> (r: UserState)
    ensures
        r == initial_state(ctx.user),
        forall|program: Seq<u8>| #[trigger] r.well_formed(program),
{
    UserState { user: ctx.user, backend_authority: None, bump: 0 }
}

/// Grants `ctx.backend_authority` the delegation, given the address
/// `derived` that the owner's key and `authority_bump` derive.
///
/// The signer must own the record and the claimed delegate must be
/// `derived`; a grant replaces any earlier delegate. On failure nothing
/// changes.
pub fn apply_approval(ctx: &mut ApproveBackend, authority_bump: u8, derived: Option<Address>) -> (r:
    Result<(), ErrorCode>)
    ensures
        final(ctx).backend_authority == old(ctx).backend_authority,
        final(ctx).user == old(ctx).user,
        match approval_result(
            old(ctx).user_state,
            old(ctx).user,
            old(ctx).backend_authority,
            authority_bump,
            address_opt_view(derived),
        ) {
            Ok(s) => r is Ok && final(ctx).user_state == s,
            Err(e) => r == Err::<(), ErrorCode>(e) && final(ctx).user_state == old(ctx).user_state,
        },
{
    if ctx.user != ctx.user_state.user {
        return Err(ErrorCode::Unauthorized);
    }
    match derived {
        Some(d) => {
            if d != ctx.backend_authority {
                return Err(ErrorCode::DerivationMismatch);
            }
        },
        None => {
            return Err(ErrorCode::DerivationMismatch);
        },
    }
    ctx.user_state.backend_authority = Some(ctx.backend_authority);
    ctx.user_state.bump = authority_bump;
    Ok(())
}

/// Grants `ctx.backend_authority` the delegation, where it must be the
/// backend authority that the owner's key and `authority_bump` derive under
/// `program_id`.
pub fn approve_backend(ctx: &mut ApproveBackend, program_id: &Address, authority_bump: u8) -> (r:
    Result<(), ErrorCode>)
    ensures
        final(ctx).backend_authority == old(ctx).backend_authority,
        final(ctx).user == old(ctx).user,
        match approval_result(
            old(ctx).user_state,
            old(ctx).user,
            old(ctx).backend_authority,
            authority_bump,
            program_address(backend_seeds(old(ctx).user_state.user@, authority_bump), program_id@),
        ) {
            Ok(s) => r is Ok && final(ctx).user_state == s,
            Err(e) => r == Err::<(), ErrorCode>(e) && final(ctx).user_state == old(ctx).user_state,
        },
        r is Ok ==> final(ctx).user_state.well_formed(program_id@),
{
    let derived = backend_address(&ctx.user_state.user, authority_bump, program_id);
    apply_approval(ctx, authority_bump, derived)
}

/// Ends the delegation, if any. Only the owner may revoke; revoking a
/// record without a delegate succeeds.
pub fn revoke_backend(ctx: &mut RevokeBackend) -> (r: Result<(), ErrorCode>)
    ensures
        final(ctx).user == old(ctx).user,
        match revocation_result(old(ctx).user_state, old(ctx).user) {
            Ok(s) => r is Ok && final(ctx).user_state == s,
            Err(e) => r == Err::<(), ErrorCode>(e) && final(ctx).user_state == old(ctx).user_state,
        },
        forall|program: Seq<u8>|
            #[trigger] old(ctx).user_state.well_formed(program) ==> final(ctx).user_state.well_formed(
                program,
            ),
{
    if ctx.user != ctx.user_state.user {
        return Err(ErrorCode::Unauthorized);
    }
    ctx.user_state.backend_authority = None;
    ctx.user_state.bump = 0;
    Ok(())
}

impl UserState {
    /// While there is a delegate, it is the backend authority that the
    /// owner's key and `bump` derive under `program`.
    pub open spec fn well_formed(&self, program: Seq<u8>) -> bool {
        self.backend_authority matches Some(d) ==> program_address(
            backend_seeds(self.user@, self.bump),
            program,
        ) == Some(d@)
    }

    /// The canonical backend authority of `user` under `program_id` and its
    /// bump seed: the highest bump from 255 down to 1 whose seeds give a
    /// program address.
    pub fn backend_pda(user: &Address, program_id: &Address) -> (r: Option<(Address, u8)>)
        ensures
            match r {
                Some((a, b)) => {
                    &&& 1 <= b
                    &&& program_address(backend_seeds(user@, b), program_id@) == Some(a@)
                    &&& forall|c: u8|
                        b < c ==> #[trigger] program_address(backend_seeds(user@, c), program_id@)
                            is None
                },
                None => forall|c: u8|
                    1 <= c ==> #[trigger] program_address(backend_seeds(user@, c), program_id@)
                        is None,
            },
    {
        let seeds = backend_base_seed_vec(user);
        try_find_program_address(&seeds, program_id)
    }
}

} // verus!
