//! Session credentials, interpreted from the optional username and password
//! the operator supplied. Authentication itself is the session collaborator's
//! concern; this crate only decides what, if anything, to hand it.

use vstd::prelude::*;

verus! {

/// A username together with a password, possibly empty.
pub struct Credentials {
    pub username: String,
    pub password: String,
}

/// Interprets the optional username and password of a source. A username
/// alone yields credentials with an empty password; no username yields none.
/// The argument parser upstream already rejects a password without a
/// username, so that combination is excluded here.
pub fn creds(username: Option<String>, password: Option<String>) -> (r: Option<Credentials>)
    requires
        password is Some ==> username is Some,
    ensures
        r is Some <==> username is Some,
        (username matches Some(u) ==> r matches Some(c) && c.username@ == u@ && c.password@
            == (match password {
            Some(p) => p@,
            None => Seq::<char>::empty(),
        })),
{
    match (username, password) {
        (Some(username), password) => Some(
            Credentials {
                username,
                password: (match password {
                    Some(p) => p,
                    None => String::new(),
                }),
            },
        ),
        (None, None) => None,
        (None, Some(_)) => unreached(),
    }
}

} // verus!
