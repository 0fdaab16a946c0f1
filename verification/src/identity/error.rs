//! Identity error types.

use vstd::prelude::*;
use vstd::string::*;

use crate::text::{io_error_text, joined};

verus! {

/// Errors from identity operations.
#[derive(Debug)]
pub enum IdentityError {
    SpireUnavailable { reason: String },
    CsrSigningFailed { reason: String },
    BootstrapNotFound { path: String },
    Expired,
    RotationFailed { reason: String },
    NoProviderAvailable,
    Io(std::io::Error),
}

impl IdentityError {
    /// The error's message, for every variant but `Io`, whose text comes
    /// from the operating system.
    pub open spec fn message(&self) -> Seq<char> {
        match self {
            IdentityError::SpireUnavailable { reason } => "SPIRE agent unavailable: "@ + reason@,
            IdentityError::CsrSigningFailed { reason } => "CSR signing failed: "@ + reason@,
            IdentityError::BootstrapNotFound { path } => "bootstrap identity not found: "@ + path@,
            IdentityError::Expired => "identity expired"@,
            IdentityError::RotationFailed { reason } => "rotation failed: "@ + reason@,
            IdentityError::NoProviderAvailable => "no identity provider available"@,
            IdentityError::Io(_) => "identity I/O error: "@,
        }
    }

    /// Renders the error as its display text.
    pub fn to_string(&self) -> (r: String)
        ensures
            self is Io ==> self.message().is_prefix_of(r@),
            !(self is Io) ==> r@ == self.message(),
    {
        match self {
            IdentityError::SpireUnavailable { reason } => joined("SPIRE agent unavailable: ", reason),
            IdentityError::CsrSigningFailed { reason } => joined("CSR signing failed: ", reason),
            IdentityError::BootstrapNotFound { path } => joined(
                "bootstrap identity not found: ",
                path,
            ),
            IdentityError::Expired => String::from_str("identity expired"),
            IdentityError::RotationFailed { reason } => joined("rotation failed: ", reason),
            IdentityError::NoProviderAvailable => String::from_str("no identity provider available"),
            IdentityError::Io(e) => {
                let text = io_error_text(e);
                let r = joined("identity I/O error: ", text.as_str());
                assert(r@.subrange(0, self.message().len() as int) =~= self.message());
                r
            },
        }
    }
}

} // verus!
