//! A user account record and its builders.

use vstd::prelude::*;

verus! {

/// One user account.
pub struct User {
    pub active: bool,
    pub username: String,
    pub email: String,
    pub sign_in_count: u64,
}

/// Builds an active account with one sign-in from the given address and
/// name.
pub fn build_user(email: String, username: String) -> (r: User)
    ensures
        r.email == email,
        r.username == username,
        r.active == true,
        r.sign_in_count == 1,
{
    User { email: email, username: username, active: true, sign_in_count: 1 }
}

/// Builds an active account with one sign-in, using field-init shorthand.
pub fn create_users_profile(email: String, username: String) -> (r: User)
    ensures
        r.email == email,
        r.username == username,
        r.active == true,
        r.sign_in_count == 1,
{
    User { email, username, active: true, sign_in_count: 1 }
}

} // verus!
