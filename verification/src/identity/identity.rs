//! Workload identity types.

use vstd::prelude::*;

use vstd::string::*;

use crate::clock::{
    before, date_time_debug, date_time_debug_text, date_time_exists, elapsed, now, UnixTime,
};
use crate::text::{decimal, decimal_text};

verus! {

/// How the identity was obtained; tracked for audit so that operators can
/// see which provider was used.
#[derive(Debug, Clone, Copy, PartialEq, Eq, Hash, Structural)]
pub enum IdentitySource {
    /// SPIRE SVID via Workload API.
    Spire,
    /// Self-signed via journal/quorum intermediate CA (fallback).
    SelfSigned,
    /// Bootstrap cert from provisioning (temporary, replaced on SVID/cert acquisition).
    Bootstrap,
}

impl IdentitySource {
    /// The variant's name, as `{:?}` prints it.
    pub open spec fn name_spec(self) -> Seq<char> {
        match self {
            IdentitySource::Spire => "Spire"@,
            IdentitySource::SelfSigned => "SelfSigned"@,
            IdentitySource::Bootstrap => "Bootstrap"@,
        }
    }

    /// The variant's name, as `{:?}` prints it.
    pub fn name(&self) -> (r: &'static str)
        ensures
            r@ == self.name_spec(),
    {
        match self {
            IdentitySource::Spire => "Spire",
            IdentitySource::SelfSigned => "SelfSigned",
            IdentitySource::Bootstrap => "Bootstrap",
        }
    }
}

/// Source-agnostic workload identity: everything needed to establish an
/// mTLS connection, with `source` tracking provenance for audit.
///
/// `private_key_pem` is sensitive: never log or serialize it.
#[derive(Clone)]
pub struct WorkloadIdentity {
    /// Certificate chain (PEM). Leaf cert + intermediates.
    pub cert_chain_pem: Vec<u8>,
    /// Private key (PEM). Never logged, never transmitted externally.
    pub private_key_pem: Vec<u8>,
    /// Trust bundle (PEM). CA certs for verifying peers.
    pub trust_bundle_pem: Vec<u8>,
    /// When this identity expires.
    pub expires_at: UnixTime,
    /// Where this identity came from.
    pub source: IdentitySource,
}

/// An identity that expires at `expires` is still valid at `now`: `now` is
/// strictly before the expiry, in `chrono`'s order of instants.
pub open spec fn valid_at(expires: UnixTime, now: UnixTime) -> bool {
    before(now, expires)
}

/// An identity issued at `issued` and expiring at `expires` is due for
/// renewal at `now`: less than a third of its total lifetime remains, both
/// durations measured as `chrono` subtracts date-times.
pub open spec fn renewal_due(expires: UnixTime, issued: UnixTime, now: UnixTime) -> bool {
    3 * elapsed(expires, now) < elapsed(expires, issued)
}

/// No part of a leap second: the sub-second nanoseconds are below one
/// second.
pub open spec fn outside_leap_second(t: UnixTime) -> bool {
    t.nanos < 1_000_000_000
}

impl WorkloadIdentity {
    /// Whether the identity is still valid at `now` (not expired; at the
    /// exact expiry instant it is no longer valid).
    pub fn is_valid_at(&self, now: UnixTime) -> (r: bool)
        ensures
            r == valid_at(self.expires_at, now),
    {
        now.is_before(&self.expires_at)
    }

    /// Check if the identity is still valid (not expired) now.
    ///
    /// The answer is [`WorkloadIdentity::is_valid_at`] for the system
    /// clock's current reading.
    pub fn is_valid(&self) -> (r: bool)
        ensures
            exists|t: UnixTime|
                t.nanos < 1_000_000_000 && r == #[trigger] valid_at(self.expires_at, t),
    {
        let t = now();
        let r = self.is_valid_at(t);
        assert(r == valid_at(self.expires_at, t));
        r
    }

    /// Whether the identity, issued at `issued_at`, should be renewed at
    /// `now`: less than 1/3 of its total lifetime remains, i.e. two thirds
    /// of it have passed. For a 3-day cert issued at T, this holds after
    /// T+2 days.
    pub fn should_renew_at(&self, issued_at: UnixTime, now: UnixTime) -> (r: bool)
        ensures
            r == renewal_due(self.expires_at, issued_at, now),
    {
        let total_lifetime = self.expires_at.elapsed_since(&issued_at);
        let remaining = self.expires_at.elapsed_since(&now);
        3 * remaining < total_lifetime
    }

    /// Check if the identity should be renewed now (see
    /// [`WorkloadIdentity::should_renew_at`]).
    pub fn should_renew(&self, issued_at: UnixTime) -> (r: bool)
        ensures
            exists|t: UnixTime|
                t.nanos < 1_000_000_000 && r == #[trigger] renewal_due(
                    self.expires_at,
                    issued_at,
                    t,
                ),
    {
        let t = now();
        let r = self.should_renew_at(issued_at, t);
        assert(r == renewal_due(self.expires_at, issued_at, t));
        r
    }

    /// The identity's debug text, with the private key redacted: byte
    /// counts for the certificate chain and the trust bundle, the key
    /// replaced by `[REDACTED]`, the expiry as `chrono` prints a UTC
    /// date-time, and the source.
    pub open spec fn debug_spec(&self) -> Seq<char> {
        "WorkloadIdentity { cert_chain_pem: \"["@ + decimal(self.cert_chain_pem@.len())
            + " bytes]\", private_key_pem: \"[REDACTED]\", trust_bundle_pem: \"["@ + decimal(
            self.trust_bundle_pem@.len(),
        ) + " bytes]\", expires_at: "@ + date_time_debug_text(
            self.expires_at.secs,
            self.expires_at.nanos,
        ) + ", source: "@ + self.source.name_spec() + " }"@
    }

    /// Renders the identity for debugging without revealing the private
    /// key (see [`WorkloadIdentity::debug_spec`]). `None` when the expiry
    /// lies outside the range of `chrono` date-times.
    pub fn debug_text(&self) -> (r: Option<String>)
        ensures
            (r is Some) == date_time_exists(self.expires_at.secs, self.expires_at.nanos),
            r matches Some(s) ==> s@ == self.debug_spec(),
    {
        let when = match date_time_debug(self.expires_at) {
            Some(w) => w,
            None => return None,
        };
        let cert_len = decimal_text(self.cert_chain_pem.len());
        let bundle_len = decimal_text(self.trust_bundle_pem.len());
        let mut s = String::from_str("WorkloadIdentity { cert_chain_pem: \"[");
        s.append(cert_len.as_str());
        s.append(" bytes]\", private_key_pem: \"[REDACTED]\", trust_bundle_pem: \"[");
        s.append(bundle_len.as_str());
        s.append(" bytes]\", expires_at: ");
        s.append(when.as_str());
        s.append(", source: ");
        s.append(self.source.name());
        s.append(" }");
        assert(s@ =~= self.debug_spec());
        Some(s)
    }
}

/// Renewal is due exactly when more than two thirds of the lifetime have
/// elapsed since issuance (for instants outside leap seconds, where
/// `chrono`'s differences add up).
pub proof fn lemma_renewal_after_two_thirds(expires: UnixTime, issued: UnixTime, now: UnixTime)
    requires
        outside_leap_second(expires),
        outside_leap_second(issued),
        outside_leap_second(now),
    ensures
        renewal_due(expires, issued, now) == (3 * elapsed(now, issued) > 2 * elapsed(
            expires,
            issued,
        )),
{
}

/// Once renewal is due it stays due as time goes on (for instants outside
/// leap seconds).
pub proof fn lemma_renewal_stays_due(
    expires: UnixTime,
    issued: UnixTime,
    earlier: UnixTime,
    later: UnixTime,
)
    requires
        outside_leap_second(expires),
        outside_leap_second(earlier),
        outside_leap_second(later),
        !before(later, earlier),
        renewal_due(expires, issued, earlier),
    ensures
        renewal_due(expires, issued, later),
{
}

/// An identity is valid at a time only if it was valid at every earlier
/// time: validity is never regained.
pub proof fn lemma_validity_not_regained(expires: UnixTime, earlier: UnixTime, later: UnixTime)
    requires
        !before(later, earlier),
        valid_at(expires, later),
    ensures
        valid_at(expires, earlier),
{
}

/// An expired identity with a positive lifetime is always due for renewal
/// (for instants outside leap seconds).
pub proof fn lemma_expired_is_due(expires: UnixTime, issued: UnixTime, now: UnixTime)
    requires
        outside_leap_second(expires),
        outside_leap_second(issued),
        outside_leap_second(now),
        elapsed(expires, issued) > 0,
        !valid_at(expires, now),
    ensures
        renewal_due(expires, issued, now),
{
}

/// The debug text never depends on the private key: two identities that
/// differ only in their private keys render the same.
pub proof fn lemma_debug_hides_private_key(a: WorkloadIdentity, b: WorkloadIdentity)
    requires
        a.cert_chain_pem@ == b.cert_chain_pem@,
        a.trust_bundle_pem@ == b.trust_bundle_pem@,
        a.expires_at == b.expires_at,
        a.source == b.source,
    ensures
        a.debug_spec() == b.debug_spec(),
{
}

} // verus!
