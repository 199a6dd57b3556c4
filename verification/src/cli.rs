//! The command-line configuration the program starts from: the store
//! endpoints and an optional user/password pair.

use vstd::prelude::*;

verus! {

pub struct Cli {
    pub endpoints: Vec<String>,
    pub user: Option<String>,
    pub password: Option<String>,
}

impl Cli {
    /// The credential pair to authenticate with: present exactly when both a
    /// user and a password were given.
    pub fn credentials(&self) -> (r: Option<(String, String)>)
        ensures
            self.user is Some && self.password is Some ==> r == Some(
                (self.user->0, self.password->0),
            ),
            self.user is None || self.password is None ==> r is None,
    {
        match (&self.user, &self.password) {
            (Some(user), Some(password)) => Some((user.clone(), password.clone())),
            _ => None,
        }
    }
}

} // verus!
