use vstd::prelude::*;

verus! {

/// How the transport checks the broker's certificate.
#[derive(Clone, Copy, Debug, PartialEq, Eq, Structural)]
pub struct TlsPolicy {
    /// Insecure, for controlled test environments only: when set, neither the broker's
    /// certificate nor its hostname is verified.
    pub insecure_skip_verification: bool,
}

impl Default for TlsPolicy {
    /// Verification is on unless asked otherwise.
    fn default() -> (r: Self)
        ensures
            !r.insecure_skip_verification,
    {
        TlsPolicy { insecure_skip_verification: false }
    }
}

impl TlsPolicy {
    /// Verify the broker's certificate and hostname.
    pub fn verified() -> (r: Self)
        ensures
            !r.insecure_skip_verification,
    {
        TlsPolicy { insecure_skip_verification: false }
    }

    /// Trust any broker. Insecure, for controlled test environments only.
    pub fn insecure_test_only() -> (r: Self)
        ensures
            r.insecure_skip_verification,
    {
        TlsPolicy { insecure_skip_verification: true }
    }

    /// Whether the transport checks the broker's certificate.
    pub fn server_cert_auth(&self) -> (r: bool)
        ensures
            r == !self.insecure_skip_verification,
    {
        !self.insecure_skip_verification
    }

    /// Whether the transport checks that the certificate names the host.
    pub fn verify_hostname(&self) -> (r: bool)
        ensures
            r == !self.insecure_skip_verification,
    {
        !self.insecure_skip_verification
    }
}

} // verus!
