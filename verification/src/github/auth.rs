//! How the client proves to the remote service who it is.

use super::client::Authentication;
use crate::text::{base64_encode, base64_of, concat2, concat3};
use vstd::prelude::*;

verus! {

/// A user name and the token that stands for its password.
#[derive(PartialEq, Eq, Debug)]
pub struct PersonalAccessToken<'a> {
    username: &'a str,
    token: &'a str,
}

impl<'a> PersonalAccessToken<'a> {
    pub fn new(username: &'a str, token: &'a str) -> (r: Self)
        ensures
            r.username() == username@,
            r.token() == token@,
    {
        PersonalAccessToken { username, token }
    }

    pub closed spec fn username(self) -> Seq<char> {
        self.username@
    }

    pub closed spec fn token(self) -> Seq<char> {
        self.token@
    }
}

impl Authentication for PersonalAccessToken<'_> {
    /// Basic authentication: the word `Basic` and, in base64, the user name
    /// and the token with a colon between them.
    open spec fn authz_value(&self) -> Seq<char> {
        "Basic "@ + base64_of(self.username() + ":"@ + self.token())
    }

    fn to_authz_value(&self) -> (r: String) {
        let pair = concat3(self.username, ":", self.token);
        let encoded = base64_encode(pair.as_str());
        concat2("Basic ", encoded.as_str())
    }
}

} // verus!
