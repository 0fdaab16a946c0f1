use hpc_core::clock::{now, UnixTime};
use hpc_core::identity::{IdentitySource, WorkloadIdentity};

const HOUR: i64 = 3600;
const DAY: i64 = 86_400;

fn shifted(t: UnixTime, secs: i64) -> UnixTime {
    UnixTime { secs: t.secs + secs, nanos: t.nanos }
}

fn identity_expiring(expires_at: UnixTime, source: IdentitySource) -> WorkloadIdentity {
    WorkloadIdentity {
        cert_chain_pem: b"cert".to_vec(),
        private_key_pem: b"key".to_vec(),
        trust_bundle_pem: b"ca".to_vec(),
        expires_at,
        source,
    }
}

fn test_identity(expires_in_secs: i64) -> WorkloadIdentity {
    identity_expiring(shifted(now(), expires_in_secs), IdentitySource::Bootstrap)
}

#[test]
fn valid_identity() {
    let id = test_identity(HOUR);
    assert!(id.is_valid());
}

#[test]
fn expired_identity() {
    let id = test_identity(-HOUR);
    assert!(!id.is_valid());
}

#[test]
fn should_renew_after_two_thirds() {
    let issued = shifted(now(), -2 * DAY);
    let id = identity_expiring(shifted(issued, 3 * DAY), IdentitySource::SelfSigned);
    assert!(id.should_renew(issued));
}

#[test]
fn should_not_renew_fresh() {
    let issued = now();
    let id = identity_expiring(shifted(issued, 3 * DAY), IdentitySource::Spire);
    assert!(!id.should_renew(issued));
}

#[test]
fn exactly_at_expiry_is_invalid() {
    let id = identity_expiring(now(), IdentitySource::Bootstrap);
    assert!(!id.is_valid());
}

#[test]
fn should_renew_at_exact_two_thirds() {
    let issued = shifted(now(), -2 * DAY);
    let id = identity_expiring(shifted(issued, 3 * DAY), IdentitySource::SelfSigned);
    let remaining = id.expires_at.as_nanos() - now().as_nanos();
    let threshold = (3 * DAY as i128 * 1_000_000_000) / 3;
    if remaining < threshold {
        assert!(id.should_renew(issued));
    }
}

#[test]
fn clone_preserves_private_key() {
    let id = test_identity(HOUR);
    let cloned = id.clone();
    assert_eq!(cloned.private_key_pem, id.private_key_pem);
    assert_eq!(cloned.cert_chain_pem, id.cert_chain_pem);
    assert_eq!(cloned.source, id.source);
}

#[test]
fn validity_at_fixed_instants() {
    let expires = UnixTime { secs: 1_000, nanos: 500 };
    let id = identity_expiring(expires, IdentitySource::Spire);
    assert!(id.is_valid_at(UnixTime { secs: 1_000, nanos: 499 }));
    assert!(!id.is_valid_at(UnixTime { secs: 1_000, nanos: 500 }));
    assert!(!id.is_valid_at(UnixTime { secs: 1_001, nanos: 0 }));
    assert!(id.is_valid_at(UnixTime { secs: -5, nanos: 0 }));
}

#[test]
fn renewal_at_fixed_instants() {
    // Issued at 0, expires at 3000 s: renewal is due once more than 2000 s have passed.
    let issued = UnixTime { secs: 0, nanos: 0 };
    let id = identity_expiring(UnixTime { secs: 3_000, nanos: 0 }, IdentitySource::SelfSigned);
    assert!(!id.should_renew_at(issued, UnixTime { secs: 1_999, nanos: 999_999_999 }));
    assert!(!id.should_renew_at(issued, UnixTime { secs: 2_000, nanos: 0 }));
    assert!(id.should_renew_at(issued, UnixTime { secs: 2_000, nanos: 1 }));
    assert!(id.should_renew_at(issued, UnixTime { secs: 4_000, nanos: 0 }));
    assert!(!id.should_renew_at(issued, UnixTime { secs: 0, nanos: 0 }));
}

#[test]
fn renewal_with_extreme_instants() {
    let issued = UnixTime { secs: i64::MIN, nanos: 0 };
    let id = identity_expiring(UnixTime { secs: i64::MAX, nanos: 999_999_999 }, IdentitySource::Spire);
    assert!(!id.should_renew_at(issued, UnixTime { secs: i64::MIN, nanos: 0 }));
    assert!(id.should_renew_at(issued, UnixTime { secs: i64::MAX, nanos: 0 }));
    assert!(id.is_valid_at(UnixTime { secs: i64::MAX, nanos: 0 }));
}

#[test]
fn unix_time_nanos() {
    assert_eq!(UnixTime { secs: 2, nanos: 5 }.as_nanos(), 2_000_000_005);
    assert_eq!(UnixTime { secs: -1, nanos: 0 }.as_nanos(), -1_000_000_000);
    assert!(now().nanos < 1_000_000_000);
}

#[test]
fn debug_redacts_private_key() {
    let id = test_identity(HOUR);
    let debug = id.debug_text().unwrap();
    assert!(debug.contains("REDACTED"));
    assert!(!debug.contains(r#""key""#));
}

#[test]
fn debug_text_exact() {
    let id = WorkloadIdentity {
        cert_chain_pem: vec![b'c'; 1234],
        private_key_pem: b"secret-key-material".to_vec(),
        trust_bundle_pem: Vec::new(),
        expires_at: UnixTime { secs: 1_431_648_000, nanos: 0 },
        source: IdentitySource::SelfSigned,
    };
    assert_eq!(
        id.debug_text().unwrap(),
        "WorkloadIdentity { cert_chain_pem: \"[1234 bytes]\", private_key_pem: \"[REDACTED]\", \
         trust_bundle_pem: \"[0 bytes]\", expires_at: 2015-05-15T00:00:00Z, source: SelfSigned }"
    );
    let other = WorkloadIdentity { private_key_pem: b"other".to_vec(), ..id.clone() };
    assert_eq!(other.debug_text(), id.debug_text());
}

#[test]
fn debug_text_out_of_range_expiry() {
    let id = identity_expiring(UnixTime { secs: i64::MAX, nanos: 0 }, IdentitySource::Spire);
    assert!(id.debug_text().is_none());
}

#[test]
fn identity_source_names() {
    assert_eq!(IdentitySource::Spire.name(), "Spire");
    assert_eq!(IdentitySource::SelfSigned.name(), "SelfSigned");
    assert_eq!(IdentitySource::Bootstrap.name(), "Bootstrap");
}

/// The instant of a chrono UTC date-time.
fn unix(t: &chrono::DateTime<chrono::Utc>) -> UnixTime {
    UnixTime { secs: t.timestamp(), nanos: t.timestamp_subsec_nanos() }
}

/// The chrono UTC date-time at `secs` and `nanos`.
fn chrono_at(secs: i64, nanos: u32) -> chrono::DateTime<chrono::Utc> {
    chrono::DateTime::from_timestamp(secs, nanos).unwrap()
}

// 2016-12-31T23:59:59Z, the second before which a leap second was inserted.
const LEAP: i64 = 1_483_228_799;

#[test]
fn validity_follows_chrono_across_a_leap_second() {
    let instants = [
        (LEAP - 1, 900_000_000),
        (LEAP, 0),
        (LEAP, 999_999_999),
        (LEAP, 1_000_000_000),
        (LEAP, 1_500_000_000),
        (LEAP, 1_900_000_000),
        (LEAP + 1, 0),
        (LEAP + 1, 200_000_000),
        (LEAP + 2, 0),
    ];
    for &(es, en) in &instants {
        let expires = chrono_at(es, en);
        let id = identity_expiring(unix(&expires), IdentitySource::Spire);
        for &(ns, nn) in &instants {
            let now = chrono_at(ns, nn);
            assert_eq!(id.is_valid_at(unix(&now)), now < expires, "expiry {es}.{en}, now {ns}.{nn}");
        }
    }
    // An expiry in the leap second has passed at 00:00:00.2 the next day.
    let id = identity_expiring(UnixTime { secs: LEAP, nanos: 1_500_000_000 }, IdentitySource::Spire);
    assert!(!id.is_valid_at(UnixTime { secs: LEAP + 1, nanos: 200_000_000 }));
}

#[test]
fn elapsed_follows_chrono_across_a_leap_second() {
    let instants = [
        (LEAP - 86_400, 1_000_000_000 - 1),
        (LEAP - 1, 900_000_000),
        (LEAP, 0),
        (LEAP, 1_000_000_000),
        (LEAP, 1_900_000_000),
        (LEAP + 1, 0),
        (LEAP + 1, 200_000_000),
        (LEAP + 86_400, 5),
        (-86_401, 1_999_999_999 - 1_000_000_000),
    ];
    for &(as_, an) in &instants {
        for &(bs, bn) in &instants {
            let a = chrono_at(as_, an);
            let b = chrono_at(bs, bn);
            let chrono_nanos = (a - b).num_nanoseconds().unwrap() as i128;
            assert_eq!(unix(&a).elapsed_since(&unix(&b)), chrono_nanos, "{as_}.{an} - {bs}.{bn}");
        }
    }
}

#[test]
fn renewal_follows_chrono_across_a_leap_second() {
    // Lifetimes of whole seconds, so that the third of the lifetime is exact.
    let cases = [
        ((LEAP, 1_900_000_000), (LEAP - 2, 900_000_000), (LEAP + 1, 0)),
        ((LEAP, 1_900_000_000), (LEAP - 2, 900_000_000), (LEAP, 1_300_000_000)),
        ((LEAP + 1, 0), (LEAP - 2, 0), (LEAP, 1_000_000_000)),
        ((LEAP + 1, 0), (LEAP - 2, 0), (LEAP, 1_500_000_000)),
        ((LEAP + 3, 0), (LEAP, 0), (LEAP + 1, 0)),
    ];
    for &((es, en), (is, in_), (ns, nn)) in &cases {
        let expires = chrono_at(es, en);
        let issued = chrono_at(is, in_);
        let now = chrono_at(ns, nn);
        let id = identity_expiring(unix(&expires), IdentitySource::SelfSigned);
        let chrono_due = (expires - now) < (expires - issued) / 3;
        assert_eq!(id.should_renew_at(unix(&issued), unix(&now)), chrono_due);
    }
}

#[test]
fn debug_text_date_range() {
    let at = |secs: i64, nanos: u32| {
        identity_expiring(UnixTime { secs, nanos }, IdentitySource::Spire).debug_text()
    };
    assert!(at(-8_334_601_228_800, 0).is_some());
    assert!(at(-8_334_601_228_801, 0).is_none());
    assert!(at(8_210_266_876_799, 999_999_999).is_some());
    assert!(at(8_210_266_876_800, 0).is_none());
    assert!(at(LEAP, 1_500_000_000).is_some());
    assert!(at(LEAP - 1, 1_500_000_000).is_none());
    assert!(at(LEAP, 2_000_000_000).is_none());
    assert!(at(LEAP, 1_500_000_000).unwrap().contains("23:59:60.500"));
}

#[test]
fn second_of_day_is_euclidean() {
    assert_eq!(UnixTime { secs: 0, nanos: 0 }.second_of_day(), 0);
    assert_eq!(UnixTime { secs: -1, nanos: 0 }.second_of_day(), 86_399);
    assert_eq!(UnixTime { secs: LEAP, nanos: 0 }.second_of_day(), 86_399);
    assert_eq!(UnixTime { secs: i64::MIN, nanos: 0 }.second_of_day(), i64::MIN.rem_euclid(86_400) as u32);
    assert_eq!(UnixTime { secs: i64::MAX, nanos: 0 }.second_of_day(), i64::MAX.rem_euclid(86_400) as u32);
}
