//! Provider configuration types.

use vstd::prelude::*;
use vstd::string::*;

verus! {

/// Configuration for the SPIRE provider.
#[derive(Debug, Clone)]
pub struct SpireConfig {
    /// Path to SPIRE agent Workload API socket.
    pub agent_socket: String,
    /// SPIFFE ID to request. `None` = auto-detect from attestation.
    pub spiffe_id: Option<String>,
    /// Timeout for SVID acquisition in seconds.
    pub timeout_seconds: u64,
}

impl Default for SpireConfig {
    /// The standard agent socket, auto-detected SPIFFE ID, 30 s timeout.
    fn default() -> (r: Self)
        ensures
            r.agent_socket@ == "/run/spire/agent.sock"@,
            r.spiffe_id is None,
            r.timeout_seconds == 30,
    {
        SpireConfig {
            agent_socket: String::from_str("/run/spire/agent.sock"),
            spiffe_id: None,
            timeout_seconds: 30,
        }
    }
}

/// Configuration for the self-signed provider: the agent generates a
/// keypair and CSR and submits it to the journal/quorum CA for signing.
#[derive(Debug, Clone)]
pub struct SelfSignedConfig {
    /// Journal/quorum endpoint for CSR signing (gRPC).
    pub signing_endpoint: String,
    /// Certificate lifetime in seconds. Default: 3 days (259200s).
    pub cert_lifetime_seconds: u64,
}

impl Default for SelfSignedConfig {
    /// No endpoint, 3-day certificate lifetime.
    fn default() -> (r: Self)
        ensures
            r.signing_endpoint@ == Seq::<char>::empty(),
            r.cert_lifetime_seconds == 259_200,
    {
        SelfSignedConfig { signing_endpoint: String::new(), cert_lifetime_seconds: 259_200 }
    }
}

/// Configuration for the bootstrap/static provider, which reads a
/// pre-provisioned certificate from the image or tmpfs. This identity is
/// temporary, replaced by an SVID or a self-signed certificate.
#[derive(Debug, Clone)]
pub struct BootstrapConfig {
    /// Path to bootstrap certificate (PEM).
    pub cert_path: String,
    /// Path to bootstrap private key (PEM).
    pub key_path: String,
    /// Path to trust bundle (PEM).
    pub trust_bundle_path: String,
}

} // verus!
