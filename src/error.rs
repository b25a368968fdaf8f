use vstd::prelude::*;
use vstd::string::StringExecFns;

verus! {

/// Why building a client, connecting it or publishing through it failed.
/// Each phase has its own variant, so callers can tell them apart.
#[derive(Clone, Debug, PartialEq, Eq)]
pub enum SenderError {
    /// The authentication strategy is recognised but not supported; raised before any network attempt.
    UnsupportedAuth,
    /// The client object could not be created; carries the transport's explanation.
    CreateFailed(String),
    /// The initial connect was refused or failed; carries the transport's explanation.
    ConnectFailed(String),
    /// A publish failed; the client stays usable.
    PublishFailed(String),
}

/// Text that names the failing phase of an error.
pub open spec fn phase_text(e: SenderError) -> Seq<char> {
    match e {
        SenderError::UnsupportedAuth => "X.509 client certificates are not supported"@,
        SenderError::CreateFailed(_) => "Failed to create client"@,
        SenderError::ConnectFailed(_) => "Failed to connect"@,
        SenderError::PublishFailed(_) => "Failed to publish"@,
    }
}

/// The full text of an error: the phase, then the transport's explanation if there is one.
pub open spec fn error_text(e: SenderError) -> Seq<char> {
    match e {
        SenderError::UnsupportedAuth => phase_text(e),
        SenderError::CreateFailed(d) => phase_text(e) + ": "@ + d@,
        SenderError::ConnectFailed(d) => phase_text(e) + ": "@ + d@,
        SenderError::PublishFailed(d) => phase_text(e) + ": "@ + d@,
    }
}

impl SenderError {
    /// A human-readable description of the error.
    pub fn message(&self) -> (r: String)
        ensures
            r@ == error_text(*self),
    {
        proof {
            reveal_strlit("X.509 client certificates are not supported");
            reveal_strlit("Failed to create client");
            reveal_strlit("Failed to connect");
            reveal_strlit("Failed to publish");
            reveal_strlit(": ");
        }
        let (phase, detail): (&str, Option<&String>) = match self {
            SenderError::UnsupportedAuth => ("X.509 client certificates are not supported", None),
            SenderError::CreateFailed(d) => ("Failed to create client", Some(d)),
            SenderError::ConnectFailed(d) => ("Failed to connect", Some(d)),
            SenderError::PublishFailed(d) => ("Failed to publish", Some(d)),
        };
        let mut s = String::from_str(phase);
        match detail {
            Some(d) => {
                s.append(": ");
                s.append(d.as_str());
            },
            None => {},
        }
        assert(s@ =~= error_text(*self));
        s
    }
}

} // verus!
