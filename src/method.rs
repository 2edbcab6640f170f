use vstd::prelude::*;
use crate::text::{has_infix, contains_bytes, str_equals};
use vstd::string::{StringExecFns, StrSliceExecFns, StringSliceAdditionalSpecFns};

verus! {

/// A named overwrite policy.
#[derive(Clone, Copy, Debug, PartialEq, Eq, Structural)]
pub enum Profile {
    /// One pass of zeros.
    Quick,
    /// Random, zeros, random.
    Secure,
}

impl Profile {
    /// The name under which the profile is requested.
    pub open spec fn spec_name(self) -> Seq<char> {
        match self {
            Profile::Quick => "quick"@,
            Profile::Secure => "secure"@,
        }
    }

    /// Reads a profile name; names other than `quick` and `secure` are refused.
    pub fn parse(name: &str) -> (r: Option<Profile>)
        ensures
            r == Some(Profile::Quick) <==> name@ == "quick"@,
            r == Some(Profile::Secure) <==> name@ == "secure"@,
            r.is_none() <==> (name@ != "quick"@ && name@ != "secure"@),
    {
        proof {
            reveal_strlit("quick");
            reveal_strlit("secure");
            assert("quick"@.len() != "secure"@.len());
        }
        if str_equals(name, "quick") {
            Some(Profile::Quick)
        } else if str_equals(name, "secure") {
            Some(Profile::Secure)
        } else {
            None
        }
    }

    /// The profile's name.
    pub fn name(&self) -> (r: String)
        ensures
            r@ == self.spec_name(),
    {
        match self {
            Profile::Quick => String::from_str("quick"),
            Profile::Secure => String::from_str("secure"),
        }
    }
}

/// The technique that performed an erasure.
#[derive(Clone, Copy, Debug, PartialEq, Eq, Structural)]
pub enum Method {
    /// NVMe format with cryptographic erase.
    NvmeFormatCrypto,
    /// ATA security erase through a transient password.
    HdparmSecurityErase,
    /// Software overwrite under the given profile.
    Overwrite(Profile),
}

impl Method {
    pub open spec fn is_hardware(self) -> bool {
        !(self is Overwrite)
    }

    /// Whether the method is a hardware erase, so that no overwrite follows.
    pub fn uses_hardware(&self) -> (r: bool)
        ensures
            r == self.is_hardware(),
    {
        match self {
            Method::Overwrite(_) => false,
            _ => true,
        }
    }

    /// The name recorded on certificates.
    pub open spec fn spec_name(self) -> Seq<char> {
        match self {
            Method::NvmeFormatCrypto => "nvme_format_crypto"@,
            Method::HdparmSecurityErase => "hdparm_security_erase"@,
            Method::Overwrite(p) => "overwrite_"@ + p.spec_name(),
        }
    }

    /// The name recorded on certificates.
    pub fn name(&self) -> (r: String)
        ensures
            r@ == self.spec_name(),
    {
        match self {
            Method::NvmeFormatCrypto => String::from_str("nvme_format_crypto"),
            Method::HdparmSecurityErase => String::from_str("hdparm_security_erase"),
            Method::Overwrite(p) => {
                let mut s = String::from_str("overwrite_");
                let n = p.name();
                s.append(n.as_str());
                s
            },
        }
    }
}

/// Which hardware erase, if any, is to be attempted on a target.
#[derive(Clone, Copy, Debug, PartialEq, Eq, Structural)]
pub enum HardwarePlan {
    /// No hardware command is issued.
    Skip,
    /// Issue an NVMe cryptographic format.
    NvmeFormat,
    /// Probe for ATA security support, and erase through it when present.
    AtaProbe,
}

/// The bytes `nvme`, which mark an NVMe-class device path.
pub open spec fn nvme_marker() -> Seq<u8> {
    seq![110u8, 118u8, 109u8, 101u8]
}

/// The bytes `Security:`, which an ATA identify report shows for a device
/// with the security feature set.
pub open spec fn ata_security_marker() -> Seq<u8> {
    seq![83u8, 101u8, 99u8, 117u8, 114u8, 105u8, 116u8, 121u8, 58u8]
}

/// The hardware plan for a target path and an authorization flag.
pub open spec fn spec_plan(path: Seq<u8>, authorized: bool) -> HardwarePlan {
    if !authorized {
        HardwarePlan::Skip
    } else if has_infix(path, nvme_marker()) {
        HardwarePlan::NvmeFormat
    } else {
        HardwarePlan::AtaProbe
    }
}

/// Chooses the hardware erase to attempt. Without authorization no raw-device
/// command is ever planned.
pub fn plan_hardware(target: &str, authorized: bool) -> (r: HardwarePlan)
    ensures
        r == spec_plan(target.spec_bytes(), authorized),
        !authorized ==> r == HardwarePlan::Skip,
{
    if !authorized {
        return HardwarePlan::Skip;
    }
    let marker: [u8; 4] = [110u8, 118u8, 109u8, 101u8];
    let m = marker.as_slice();
    assert(m@ =~= nvme_marker());
    if contains_bytes(target.as_bytes(), m) {
        HardwarePlan::NvmeFormat
    } else {
        HardwarePlan::AtaProbe
    }
}

/// Whether an ATA identify report announces the security feature set.
pub fn ata_security_supported(report: &str) -> (r: bool)
    ensures
        r == has_infix(report.spec_bytes(), ata_security_marker()),
{
    let marker: [u8; 9] = [83u8, 101u8, 99u8, 117u8, 114u8, 105u8, 116u8, 121u8, 58u8];
    let m = marker.as_slice();
    assert(m@ =~= ata_security_marker());
    contains_bytes(report.as_bytes(), m)
}

/// Whether the ATA security erase went through: the identify probe ran and
/// announced the security feature set, and both the set-password and the
/// erase commands succeeded.
pub fn ata_erase_succeeded(probe_ok: bool, report: &str, set_ok: bool, erase_ok: bool) -> (r: bool)
    ensures
        r == (probe_ok && has_infix(report.spec_bytes(), ata_security_marker()) && set_ok && erase_ok),
{
    probe_ok && ata_security_supported(report) && set_ok && erase_ok
}

/// The method that erased the target: the planned hardware method when its
/// command succeeded, else the software overwrite of the profile.
pub open spec fn spec_method(plan: HardwarePlan, succeeded: bool, profile: Profile) -> Method {
    match plan {
        HardwarePlan::NvmeFormat if succeeded => Method::NvmeFormatCrypto,
        HardwarePlan::AtaProbe if succeeded => Method::HdparmSecurityErase,
        _ => Method::Overwrite(profile),
    }
}

/// Settles the erase method once the planned hardware command has run (or
/// was skipped). A failed command falls back to overwriting, never aborting.
pub fn select_method(plan: HardwarePlan, succeeded: bool, profile: Profile) -> (r: Method)
    ensures
        r == spec_method(plan, succeeded, profile),
{
    match plan {
        HardwarePlan::NvmeFormat if succeeded => Method::NvmeFormatCrypto,
        HardwarePlan::AtaProbe if succeeded => Method::HdparmSecurityErase,
        _ => Method::Overwrite(profile),
    }
}

/// Without authorization the method is never a hardware one, whatever the
/// target path holds and whatever any command reported.
pub proof fn lemma_unauthorized_never_hardware(path: Seq<u8>, succeeded: bool, profile: Profile)
    ensures
        spec_method(spec_plan(path, false), succeeded, profile) == Method::Overwrite(profile),
        !spec_method(spec_plan(path, false), succeeded, profile).is_hardware(),
{
}

} // verus!
