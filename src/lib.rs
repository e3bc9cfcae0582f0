//! Revocable delegation of a user's mint and burn rights to a backend
//! authority whose address is derived from the user's key.
//!
//! `state` holds the per-user delegation record and the grant and revoke
//! operations; `gateway` decides who may mint or burn and who signs the
//! token program call; `pda` derives backend authority addresses; `laws`
//! states what holds over sequences of these calls.
pub mod address;
pub mod gateway;
pub mod laws;
pub mod pda;
pub mod state;

pub use address::Address;
pub use gateway::{
    burn_ice, caller_role, mint_ice, signing_authority, Burn, BurnIce, MintIce, MintTo, Operation,
    Role,
};
pub use pda::backend_address;
pub use state::{
    apply_approval, approve_backend, initialize, revoke_backend, ApproveBackend, ErrorCode,
    Initialize, RevokeBackend, UserState,
};
