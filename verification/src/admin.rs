//! The administrator's rights.
use crate::address::Address;
use crate::env::Env;
use crate::errors::EscrowError;
use vstd::prelude::*;

verus! {

/// Returns the stored administrator, whose signature the caller then asks for.
pub fn require_admin(env: &Env) -> (admin: Result<Address, EscrowError>)
    ensures
        admin == (match env@.instance.admin {
            Some(address) => Ok(address),
            None => Err(EscrowError::NotInitialized),
        }),
{
    match env.instance.admin {
        Some(address) => Ok(address),
        None => Err(EscrowError::NotInitialized),
    }
}

} // verus!
