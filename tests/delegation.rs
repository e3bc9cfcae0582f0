use idlegame::{
    apply_approval, approve_backend, backend_address, burn_ice, caller_role, initialize, mint_ice,
    revoke_backend, signing_authority, Address, ApproveBackend, BurnIce, ErrorCode, Initialize,
    MintIce, Operation, RevokeBackend, Role, UserState,
};

fn key(b: u8) -> Address {
    let mut bytes = [0u8; 32];
    bytes[0] = b;
    bytes[31] = b.wrapping_mul(3);
    Address::new(bytes)
}

fn program() -> Address {
    Address::new([7u8; 32])
}

fn mint_ctx(state: UserState, signer: Address) -> MintIce {
    MintIce {
        user_state: state,
        user: state.user,
        signer,
        mint_authority: key(200),
        ice_mint: key(201),
        user_token_account: key(202),
        backend_authority: key(203),
    }
}

fn burn_ctx(state: UserState, signer: Address) -> BurnIce {
    BurnIce {
        user_state: state,
        user: state.user,
        signer,
        ice_mint: key(201),
        user_token_account: key(202),
        backend_authority: key(203),
    }
}

fn grant(state: UserState, signer: Address, delegate: Address, bump: u8) -> (UserState, Result<(), ErrorCode>) {
    let mut ctx = ApproveBackend { user_state: state, backend_authority: delegate, user: signer };
    let r = apply_approval(&mut ctx, bump, Some(delegate));
    (ctx.user_state, r)
}

fn revoke(state: UserState, signer: Address) -> (UserState, Result<(), ErrorCode>) {
    let mut ctx = RevokeBackend { user_state: state, user: signer };
    let r = revoke_backend(&mut ctx);
    (ctx.user_state, r)
}

/// A user key for which the bump seed 7 derives a backend authority.
fn user_with_bump_seven() -> (Address, Address) {
    for b in 0u8..=255 {
        let u = key(b);
        if let Some(a) = backend_address(&u, 7, &program()) {
            return (u, a);
        }
    }
    panic!("no user key found");
}

#[test]
fn initialize_has_no_delegate() {
    let s = initialize(&Initialize { user: key(1) });
    assert_eq!(s.user, key(1));
    assert_eq!(s.backend_authority, None);
    assert_eq!(s.bump, 0);
}

#[test]
fn fresh_record_refuses_stranger() {
    let s = initialize(&Initialize { user: key(1) });
    assert_eq!(mint_ice(&mint_ctx(s, key(9)), 5).unwrap_err(), ErrorCode::Unauthorized);
    assert_eq!(burn_ice(&burn_ctx(s, key(9)), 5).unwrap_err(), ErrorCode::Unauthorized);
}

#[test]
fn revoked_delegate_is_refused() {
    let u = key(1);
    let d = key(2);
    let s = initialize(&Initialize { user: u });
    let (s, r) = grant(s, u, d, 9);
    assert!(r.is_ok());
    assert!(mint_ice(&mint_ctx(s, d), 3).is_ok());
    let (s, r) = revoke(s, u);
    assert!(r.is_ok());
    assert_eq!(mint_ice(&mint_ctx(s, d), 3).unwrap_err(), ErrorCode::Unauthorized);
    assert_eq!(burn_ice(&burn_ctx(s, d), 3).unwrap_err(), ErrorCode::Unauthorized);
}

#[test]
fn second_grant_replaces_first() {
    let u = key(1);
    let d1 = key(2);
    let d2 = key(3);
    let s = initialize(&Initialize { user: u });
    let (s, _) = grant(s, u, d1, 10);
    let (s, r) = grant(s, u, d2, 11);
    assert!(r.is_ok());
    assert_eq!(s.backend_authority, Some(d2));
    assert_eq!(s.bump, 11);
    assert_eq!(mint_ice(&mint_ctx(s, d1), 1).unwrap_err(), ErrorCode::Unauthorized);
    assert_eq!(burn_ice(&burn_ctx(s, d1), 1).unwrap_err(), ErrorCode::Unauthorized);
    assert_eq!(mint_ice(&mint_ctx(s, d2), 1).unwrap().authority, d2);
    assert_eq!(burn_ice(&burn_ctx(s, d2), 1).unwrap().authority, d2);
}

#[test]
fn owner_admitted_in_every_state() {
    let u = key(1);
    let d = key(2);
    let none = initialize(&Initialize { user: u });
    let (active, _) = grant(none, u, d, 4);
    let (revoked, _) = revoke(active, u);
    for s in [none, active, revoked] {
        let m = mint_ice(&mint_ctx(s, u), 50).unwrap();
        assert_eq!(m.authority, key(200));
        assert_eq!(m.mint, key(201));
        assert_eq!(m.to, key(202));
        assert_eq!(m.amount, 50);
        let b = burn_ice(&burn_ctx(s, u), 20).unwrap();
        assert_eq!(b.authority, u);
        assert_eq!(b.from, key(202));
        assert_eq!(b.mint, key(201));
        assert_eq!(b.amount, 20);
    }
}

#[test]
fn revoke_without_delegate_succeeds() {
    let u = key(1);
    let s = initialize(&Initialize { user: u });
    let (s, r) = revoke(s, u);
    assert_eq!(r, Ok(()));
    assert_eq!(s.backend_authority, None);
    let (s, r) = revoke(s, u);
    assert_eq!(r, Ok(()));
    assert_eq!(s.backend_authority, None);
    assert_eq!(s.user, u);
}

#[test]
fn mismatched_derivation_leaves_record() {
    let u = key(1);
    let s = initialize(&Initialize { user: u });
    let (s, _) = grant(s, u, key(2), 5);
    let mut ctx = ApproveBackend { user_state: s, backend_authority: key(3), user: u };
    assert_eq!(apply_approval(&mut ctx, 6, Some(key(4))), Err(ErrorCode::DerivationMismatch));
    assert_eq!(apply_approval(&mut ctx, 6, None), Err(ErrorCode::DerivationMismatch));
    assert_eq!(ctx.user_state.backend_authority, Some(key(2)));
    assert_eq!(ctx.user_state.bump, 5);
}

#[test]
fn approve_backend_checks_derivation() {
    let (u, a) = user_with_bump_seven();
    let s = initialize(&Initialize { user: u });
    let mut ctx = ApproveBackend { user_state: s, backend_authority: a, user: u };
    assert_eq!(approve_backend(&mut ctx, &program(), 8), Err(ErrorCode::DerivationMismatch));
    assert_eq!(ctx.user_state.backend_authority, None);
    let mut wrong = ApproveBackend { user_state: s, backend_authority: key(77), user: u };
    assert_eq!(approve_backend(&mut wrong, &program(), 7), Err(ErrorCode::DerivationMismatch));
    assert_eq!(approve_backend(&mut ctx, &program(), 7), Ok(()));
    assert_eq!(ctx.user_state.backend_authority, Some(a));
    assert_eq!(ctx.user_state.bump, 7);
}

#[test]
fn non_owner_cannot_grant_or_revoke() {
    let u = key(1);
    let s = initialize(&Initialize { user: u });
    let (s2, r) = grant(s, key(2), key(2), 3);
    assert_eq!(r, Err(ErrorCode::Unauthorized));
    assert_eq!(s2.backend_authority, None);
    let (active, _) = grant(s, u, key(2), 3);
    let (after, r) = revoke(active, key(2));
    assert_eq!(r, Err(ErrorCode::Unauthorized));
    assert_eq!(after.backend_authority, Some(key(2)));
}

#[test]
fn delegate_index_seven_scenario() {
    let (u, b) = user_with_bump_seven();
    let s = initialize(&Initialize { user: u });
    let mut ctx = ApproveBackend { user_state: s, backend_authority: b, user: u };
    assert_eq!(approve_backend(&mut ctx, &program(), 7), Ok(()));
    let s = ctx.user_state;
    let m = mint_ice(&mint_ctx(s, b), 100).unwrap();
    assert_eq!(m.authority, b);
    assert_eq!(m.amount, 100);
    let (s, r) = revoke(s, u);
    assert_eq!(r, Ok(()));
    assert_eq!(mint_ice(&mint_ctx(s, b), 1).unwrap_err(), ErrorCode::Unauthorized);
}

#[test]
fn backend_pda_is_canonical() {
    let u = key(5);
    let (a, bump) = UserState::backend_pda(&u, &program()).unwrap();
    assert!(bump >= 1);
    assert_eq!(backend_address(&u, bump, &program()), Some(a));
    for higher in (bump as u16 + 1)..=255 {
        assert_eq!(backend_address(&u, higher as u8, &program()), None);
    }
    assert_ne!(a, u);
    assert_ne!(a, program());
    let (other, _) = UserState::backend_pda(&key(6), &program()).unwrap();
    assert_ne!(a, other);
}

#[test]
fn role_and_authority_table() {
    let u = key(1);
    let d = key(2);
    let (s, _) = grant(initialize(&Initialize { user: u }), u, d, 1);
    assert!(matches!(caller_role(&s, &u), Some(Role::Owner)));
    assert!(matches!(caller_role(&s, &d), Some(Role::Delegate(x)) if x == d));
    assert!(caller_role(&s, &key(3)).is_none());
    let m = key(9);
    assert_eq!(signing_authority(Role::Owner, Operation::Issue, &m, &u), m);
    assert_eq!(signing_authority(Role::Owner, Operation::Destroy, &m, &u), u);
    assert_eq!(signing_authority(Role::Delegate(d), Operation::Issue, &m, &u), d);
    assert_eq!(signing_authority(Role::Delegate(d), Operation::Destroy, &m, &u), d);
}

#[test]
fn addresses_compare_by_every_byte() {
    let mut bytes = [4u8; 32];
    let a = Address::new(bytes);
    bytes[31] = 5;
    let b = Address::new(bytes);
    assert_ne!(a, b);
    assert_eq!(a, Address::new([4u8; 32]));
    assert_eq!(b.to_bytes(), bytes);
    assert_eq!(a.to_vec(), vec![4u8; 32]);
}
