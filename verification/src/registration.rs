//! The registration gate: updates may be fetched only when the host's
//! identity credentials and its registration marker are present on disk.

use vstd::prelude::*;

verus! {

/// The registration rule: both identity-credential files and the
/// registration marker file must be present.
pub open spec fn spec_registered(cert: bool, key: bool, marker: bool) -> bool {
    cert && key && marker
}

/// Relies on `std::path::Path::exists`: returns whether the path exists on
/// disk at the time of the call. Nothing is assumed of the result, since it
/// depends on the state of the filesystem.
#[verifier::external_body]
fn path_exists(path: &str) -> bool {
    std::path::Path::new(path).exists()
}

/// Combines the three on-disk probes into the registration verdict.
pub fn registration_decision(cert_present: bool, key_present: bool, marker_present: bool) -> (r:
    bool)
    ensures
        r == spec_registered(cert_present, key_present, marker_present),
{
    cert_present && key_present && marker_present
}

/// Returns true if the host is registered and may fetch updates: both
/// identity-credential files and the registration marker file exist.
pub fn is_registered() -> bool {
    let cert = path_exists("/etc/pki/consumer/cert.pem");
    let key = path_exists("/etc/pki/consumer/key.pem");
    let marker = path_exists("/etc/insights-client/.registered");
    registration_decision(cert, key, marker)
}

} // verus!
