use hpc_core::clock::{now, UnixTime};
use hpc_core::identity::{CascadeRun, CascadeStep, IdentityError, IdentitySource, WorkloadIdentity};

/// A simulated provider: whether it is available, and what it answers.
enum Provider {
    AlwaysAvailable(IdentitySource),
    NeverAvailable,
    AvailableButFails,
    Expiring,
}

fn identity(source: IdentitySource, expires_in_secs: i64) -> WorkloadIdentity {
    let t = now();
    WorkloadIdentity {
        cert_chain_pem: b"cert".to_vec(),
        private_key_pem: b"key".to_vec(),
        trust_bundle_pem: b"ca".to_vec(),
        expires_at: UnixTime { secs: t.secs + expires_in_secs, nanos: t.nanos },
        source,
    }
}

impl Provider {
    fn is_available(&self) -> bool {
        !matches!(self, Provider::NeverAvailable)
    }

    fn get_identity(&self) -> Result<WorkloadIdentity, IdentityError> {
        match self {
            Provider::AlwaysAvailable(source) => Ok(identity(*source, 3600)),
            Provider::NeverAvailable => {
                Err(IdentityError::SpireUnavailable { reason: "test".to_string() })
            }
            Provider::AvailableButFails => {
                Err(IdentityError::CsrSigningFailed { reason: "test failure".to_string() })
            }
            Provider::Expiring => Ok(identity(IdentitySource::Bootstrap, -3600)),
        }
    }
}

/// Drives a cascade run against the providers, recording which were asked.
fn run(providers: &[Provider]) -> (Result<WorkloadIdentity, IdentityError>, Vec<String>) {
    let mut calls = Vec::new();
    let (mut state, mut step) = CascadeRun::begin(providers.len());
    loop {
        step = match step {
            CascadeStep::CheckAvailability(i) => {
                calls.push(format!("available?{i}"));
                state.on_availability(providers[i].is_available())
            }
            CascadeStep::Acquire(i) => {
                calls.push(format!("acquire{i}"));
                state.on_answer(providers[i].get_identity())
            }
            CascadeStep::Finished(result) => return (result, calls),
        };
    }
}

#[test]
fn cascade_uses_first_available() {
    let (result, _) = run(&[
        Provider::NeverAvailable,
        Provider::AlwaysAvailable(IdentitySource::SelfSigned),
        Provider::AlwaysAvailable(IdentitySource::Bootstrap),
    ]);
    assert_eq!(result.ok().unwrap().source, IdentitySource::SelfSigned);
}

#[test]
fn cascade_skips_failed_provider() {
    let (result, _) = run(&[
        Provider::AvailableButFails,
        Provider::AlwaysAvailable(IdentitySource::Bootstrap),
    ]);
    assert_eq!(result.ok().unwrap().source, IdentitySource::Bootstrap);
}

#[test]
fn cascade_empty_returns_error() {
    let (result, calls) = run(&[]);
    assert!(matches!(result, Err(IdentityError::NoProviderAvailable)));
    assert!(calls.is_empty());
}

#[test]
fn cascade_all_fail_returns_last_error() {
    let (result, _) = run(&[Provider::NeverAvailable, Provider::AvailableButFails]);
    assert!(matches!(result, Err(IdentityError::CsrSigningFailed { .. })));
}

#[test]
fn cascade_returns_expired_identity_if_provider_does() {
    let (result, _) = run(&[Provider::Expiring]);
    let id = result.ok().unwrap();
    assert!(!id.is_valid());
}

#[test]
fn cascade_provider_count() {
    let (state, step) = CascadeRun::begin(2);
    assert_eq!(state.provider_count(), 2);
    assert!(matches!(step, CascadeStep::CheckAvailability(0)));
}

#[test]
fn cascade_prefers_first_available_provider() {
    let (result, calls) = run(&[
        Provider::AlwaysAvailable(IdentitySource::Spire),
        Provider::AlwaysAvailable(IdentitySource::Bootstrap),
    ]);
    assert_eq!(result.ok().unwrap().source, IdentitySource::Spire);
    assert_eq!(calls, vec!["available?0".to_string(), "acquire0".to_string()]);
}

#[test]
fn cascade_none_available_is_no_provider() {
    let (result, calls) = run(&[Provider::NeverAvailable, Provider::NeverAvailable]);
    assert!(matches!(result, Err(IdentityError::NoProviderAvailable)));
    assert_eq!(calls, vec!["available?0".to_string(), "available?1".to_string()]);
}

#[test]
fn cascade_unavailable_provider_is_never_asked() {
    let (result, calls) = run(&[
        Provider::NeverAvailable,
        Provider::AvailableButFails,
        Provider::NeverAvailable,
    ]);
    assert!(matches!(result, Err(IdentityError::CsrSigningFailed { .. })));
    assert_eq!(
        calls,
        vec![
            "available?0".to_string(),
            "available?1".to_string(),
            "acquire1".to_string(),
            "available?2".to_string(),
        ]
    );
}
