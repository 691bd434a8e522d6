//! A user record and the small operations the exercises perform on it.

use vstd::prelude::*;

verus! {

/// An account, with how often its owner has signed in.
pub struct User {
    pub active: bool,
    pub username: String,
    pub email: String,
    pub sign_in_count: u64,
}

/// Marks a user active.
pub fn activating_a_user(u: &mut User)
    ensures
        final(u).active,
        final(u).username == old(u).username,
        final(u).email == old(u).email,
        final(u).sign_in_count == old(u).sign_in_count,
{
    u.active = true;
}

/// Counts a sign-in: an active user's count grows by one, an inactive
/// user's count stays. Returns the count afterwards.
pub fn signed_in(u: &mut User) -> (count: u64)
    requires
        old(u).active ==> old(u).sign_in_count < u64::MAX,
    ensures
        old(u).active ==> final(u).sign_in_count == old(u).sign_in_count + 1,
        !old(u).active ==> final(u).sign_in_count == old(u).sign_in_count,
        final(u).active == old(u).active,
        final(u).username == old(u).username,
        final(u).email == old(u).email,
        count == final(u).sign_in_count,
{
    if u.active {
        u.sign_in_count = u.sign_in_count + 1;
    }
    u.sign_in_count
}

/// A fresh, inactive user with no sign-ins yet.
pub fn build_a_user(username: String, email: String) -> (u: User)
    ensures
        !u.active,
        u.sign_in_count == 0,
        u.username == username,
        u.email == email,
{
    User { active: false, sign_in_count: 0, username, email }
}

} // verus!
