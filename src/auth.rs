use vstd::prelude::*;
use crate::error::SenderError;

verus! {

/// How a client authenticates to the broker. Exactly one strategy is chosen per connection.
#[derive(Clone, Debug)]
pub enum Auth {
    /// No credentials.
    Anonymous,
    UsernamePassword(String, String),
    /// Accepted as a value, but connecting with it is not supported.
    X509Certificate(Vec<u8>),
}

impl Default for Auth {
    fn default() -> (r: Self)
        ensures
            r is Anonymous,
    {
        Auth::Anonymous
    }
}

/// A username and password carried in the connect packet.
#[derive(Clone, Debug)]
pub struct Credentials {
    pub username: String,
    pub password: String,
}

impl Auth {
    /// What this strategy puts into a connect request: nothing, or credentials.
    /// A certificate fails with `UnsupportedAuth` rather than degrading to no credentials.
    pub open spec fn spec_credentials(self) -> Result<Option<Credentials>, SenderError> {
        match self {
            Auth::Anonymous => Ok(None),
            Auth::UsernamePassword(u, p) => Ok(Some(Credentials { username: u, password: p })),
            Auth::X509Certificate(_) => Err(SenderError::UnsupportedAuth),
        }
    }

    pub fn into_credentials(self) -> (r: Result<Option<Credentials>, SenderError>)
        ensures
            r == self.spec_credentials(),
    {
        match self {
            Auth::Anonymous => Ok(None),
            Auth::UsernamePassword(username, password) => Ok(Some(Credentials { username, password })),
            Auth::X509Certificate(_) => Err(SenderError::UnsupportedAuth),
        }
    }
}

} // verus!
