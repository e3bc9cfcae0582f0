use vstd::prelude::*;

use crate::address::Address;
use crate::state::{ErrorCode, UserState};

verus! {

/// The capacity in which a caller acts on a record.
#[derive(Clone, Copy, Debug)]
pub enum Role {
    /// The record's owner.
    Owner,
    /// The record's active delegate, with its address.
    Delegate(Address),
}

/// The two privileged operations.
#[derive(Clone, Copy, Debug, PartialEq, Eq, Structural)]
pub enum Operation {
    /// Minting to the user's token account.
    Issue,
    /// Burning from the user's token account.
    Destroy,
}

/// The accounts of a mint.
#[derive(Clone, Copy, Debug)]
pub struct MintIce {
    pub user_state: UserState,
    pub user: Address,
    pub signer: Address,
    pub mint_authority: Address,
    pub ice_mint: Address,
    pub user_token_account: Address,
    pub backend_authority: Address,
}

/// The accounts of a burn.
#[derive(Clone, Copy, Debug)]
pub struct BurnIce {
    pub user_state: UserState,
    pub user: Address,
    pub signer: Address,
    pub ice_mint: Address,
    pub user_token_account: Address,
    pub backend_authority: Address,
}

/// A mint for the token program to perform: `amount` of `mint` into `to`,
/// signed by `authority`.
#[derive(Clone, Copy, Debug)]
pub struct MintTo {
    pub mint: Address,
    pub to: Address,
    pub authority: Address,
    pub amount: u64,
}

/// A burn for the token program to perform: `amount` of `mint` out of
/// `from`, signed by `authority`.
#[derive(Clone, Copy, Debug)]
pub struct Burn {
    pub from: Address,
    pub mint: Address,
    pub authority: Address,
    pub amount: u64,
}

/// The role of `caller` on the record `s`: the owner comes first, then the
/// active delegate; anyone else has none.
pub open spec fn role_of(s: UserState, caller: Address) -> Option<Role> {
    if caller@ == s.user@ {
        Some(Role::Owner)
    } else {
        match s.backend_authority {
            Some(d) => if caller@ == d@ {
                Some(Role::Delegate(d))
            } else {
                None
            },
            None => None,
        }
    }
}

/// Who signs the token program call, by role and operation: the mint
/// authority for an owner's mint, the owner for an owner's burn, and the
/// delegate for everything a delegate does.
pub open spec fn authority_for(role: Role, op: Operation, mint_authority: Address, owner: Address) -> Address {
    match (role, op) {
        (Role::Owner, Operation::Issue) => mint_authority,
        (Role::Owner, Operation::Destroy) => owner,
        (Role::Delegate(d), _) => d,
    }
}

/// The outcome of a mint of `amount` with the accounts `ctx`.
pub open spec fn mint_result(ctx: MintIce, amount: u64) -> Result<MintTo, ErrorCode> {
    match role_of(ctx.user_state, ctx.signer) {
        Some(role) => Ok(
            MintTo {
                mint: ctx.ice_mint,
                to: ctx.user_token_account,
                authority: authority_for(role, Operation::Issue, ctx.mint_authority, ctx.user_state.user),
                amount,
            },
        ),
        None => Err(ErrorCode::Unauthorized),
    }
}

/// The outcome of a burn of `amount` with the accounts `ctx`.
pub open spec fn burn_result(ctx: BurnIce, amount: u64) -> Result<Burn, ErrorCode> {
    match role_of(ctx.user_state, ctx.signer) {
        Some(role) => Ok(
            Burn {
                from: ctx.user_token_account,
                mint: ctx.ice_mint,
                authority: authority_for(role, Operation::Destroy, ctx.user_state.user, ctx.user_state.user),
                amount,
            },
        ),
        None => Err(ErrorCode::Unauthorized),
    }
}

/// The role in which `caller` may act on `state`, if any.
pub fn caller_role(state: &UserState, caller: &Address) -> (r: Option<Role>)
    ensures
        r == role_of(*state, *caller),
{
    if *caller == state.user {
        return Some(Role::Owner);
    }
    match state.backend_authority {
        Some(d) => {
            if *caller == d {
                Some(Role::Delegate(d))
            } else {
                None
            }
        },
        None => None,
    }
}

/// The signing authority of a token program call, by the fixed table of
/// role and operation.
pub fn signing_authority(role: Role, op: Operation, mint_authority: &Address, owner: &Address) -> (r:
    Address)
    ensures
        r == authority_for(role, op, *mint_authority, *owner),
{
    match role {
        Role::Owner => match op {
            Operation::Issue => *mint_authority,
            Operation::Destroy => *owner,
        },
        Role::Delegate(d) => d,
    }
}

/// Checks that the signer may mint for the record's owner and returns the
/// mint that the token program is to perform.
pub fn mint_ice(ctx: &MintIce, amount: u64) -> (r: Result<MintTo, ErrorCode>)
    ensures
        r == mint_result(*ctx, amount),
{
    match caller_role(&ctx.user_state, &ctx.signer) {
        Some(role) => {
            let authority = signing_authority(
                role,
                Operation::Issue,
                &ctx.mint_authority,
                &ctx.user_state.user,
            );
            Ok(MintTo { mint: ctx.ice_mint, to: ctx.user_token_account, authority, amount })
        },
        None => Err(ErrorCode::Unauthorized),
    }
}

/// Checks that the signer may burn for the record's owner and returns the
/// burn that the token program is to perform.
pub fn burn_ice(ctx: &BurnIce, amount: u64) -> (r: Result<Burn, ErrorCode>)
    ensures
        r == burn_result(*ctx, amount),
{
    match caller_role(&ctx.user_state, &ctx.signer) {
        Some(role) => {
            let authority = signing_authority(
                role,
                Operation::Destroy,
                &ctx.user_state.user,
                &ctx.user_state.user,
            );
            Ok(Burn { from: ctx.user_token_account, mint: ctx.ice_mint, authority, amount })
        },
        None => Err(ErrorCode::Unauthorized),
    }
}

} // verus!
