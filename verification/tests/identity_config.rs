use hpc_core::identity::{BootstrapConfig, IdentityError, SelfSignedConfig, SpireConfig};

#[test]
fn spire_config_defaults() {
    let config = SpireConfig::default();
    assert_eq!(config.agent_socket, "/run/spire/agent.sock");
    assert!(config.spiffe_id.is_none());
    assert_eq!(config.timeout_seconds, 30);
}

#[test]
fn self_signed_config_defaults() {
    let config = SelfSignedConfig::default();
    assert!(config.signing_endpoint.is_empty());
    assert_eq!(config.cert_lifetime_seconds, 259_200);
}

#[test]
fn bootstrap_config_fields() {
    let config = BootstrapConfig {
        cert_path: "/etc/pact/boot.crt".to_string(),
        key_path: "/etc/pact/boot.key".to_string(),
        trust_bundle_path: "/etc/pact/ca.pem".to_string(),
    };
    let copy = config.clone();
    assert_eq!(copy.key_path, "/etc/pact/boot.key");
}

#[test]
fn identity_error_display() {
    let e = IdentityError::SpireUnavailable { reason: "no socket".to_string() };
    assert_eq!(e.to_string(), "SPIRE agent unavailable: no socket");
    let e = IdentityError::CsrSigningFailed { reason: "rejected".to_string() };
    assert_eq!(e.to_string(), "CSR signing failed: rejected");
    let e = IdentityError::BootstrapNotFound { path: "/x.pem".to_string() };
    assert_eq!(e.to_string(), "bootstrap identity not found: /x.pem");
    assert_eq!(IdentityError::Expired.to_string(), "identity expired");
    let e = IdentityError::RotationFailed { reason: "health check".to_string() };
    assert_eq!(e.to_string(), "rotation failed: health check");
    assert_eq!(IdentityError::NoProviderAvailable.to_string(), "no identity provider available");
    let e = IdentityError::Io(std::io::Error::new(std::io::ErrorKind::NotFound, "gone"));
    assert_eq!(e.to_string(), "identity I/O error: gone");
}
