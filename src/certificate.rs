use vstd::prelude::*;
use crate::method::{Method, Profile};

verus! {

/// The record attesting what was erased, how, when, and the digest read
/// back afterwards.
pub struct Certificate {
    pub id: String,
    pub device: String,
    pub profile: String,
    pub method: String,
    /// Seconds since the Unix epoch.
    pub timestamp: u64,
    /// Lowercase hexadecimal digest.
    pub hash: String,
}

/// Assembles a certificate from its parts.
pub fn build_certificate(
    id: &str,
    device: &str,
    profile: Profile,
    method: Method,
    timestamp: u64,
    digest: &str,
) -> (c: Certificate)
    ensures
        c.id@ == id@,
        c.device@ == device@,
        c.profile@ == profile.spec_name(),
        c.method@ == method.spec_name(),
        c.timestamp == timestamp,
        c.hash@ == digest@,
{
    Certificate {
        id: id.to_owned(),
        device: device.to_owned(),
        profile: profile.name(),
        method: method.name(),
        timestamp,
        hash: digest.to_owned(),
    }
}

} // verus!
