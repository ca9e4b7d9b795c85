use vstd::prelude::*;
use vstd::string::StringExecFns;

verus! {

/// The credentials of an account to create.
#[derive(Debug)]
pub struct MaybeUser {
    pub username: String,
    pub password: String,
}

/// The bootstrap step of authentication: when no user exists yet, the
/// account `admin` with password `admin` is to be created; otherwise none.
/// Since the store then holds a user, running it again creates nothing.
pub fn init(num_users: i64) -> (account: Option<MaybeUser>)
    ensures
        match account {
            Some(user) => num_users == 0 && user.username@ == "admin"@ && user.password@
                == "admin"@,
            None => num_users != 0,
        },
{
    if num_users == 0 {
        Some(MaybeUser { username: String::from_str("admin"), password: String::from_str("admin") })
    } else {
        None
    }
}

} // verus!
