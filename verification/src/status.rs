//! Classification of lookup-tool output. The tool infers whether the
//! provider is active by resolving a well-known domain through the OS
//! resolver and looking for either provider address in the answer; it never
//! reads the managed file for this.

use vstd::prelude::*;

use crate::search::contains_seq;
use crate::search::contains_str;

verus! {

/// First provider nameserver address.
pub fn dns_server_1_addr() -> (r: &'static str)
    ensures
        r@ == "94.140.14.14"@,
{
    "94.140.14.14"
}

/// Second provider nameserver address.
pub fn dns_server_2_addr() -> (r: &'static str)
    ensures
        r@ == "94.149.15.15"@,
{
    "94.149.15.15"
}

/// Lookup output points at the provider: it mentions either address.
pub open spec fn spec_contains_provider_addr(output: Seq<char>) -> bool {
    contains_seq(output, "94.140.14.14"@) || contains_seq(output, "94.149.15.15"@)
}

/// Whether the lookup output names either provider nameserver address.
pub fn contains_server_1_or_2_config(output: String) -> (r: bool)
    ensures
        r == spec_contains_provider_addr(output@),
{
    contains_str(output.as_str(), dns_server_1_addr()) || contains_str(
        output.as_str(),
        dns_server_2_addr(),
    )
}

/// The outcome of a status run.
#[derive(Clone, Copy, PartialEq, Eq, Structural, Debug)]
pub enum StatusReport {
    /// The lookup answer mentioned a provider address.
    Activated,
    /// The lookup answer mentioned neither provider address.
    Deactivated,
    /// The lookup output was not decodable as text; no outcome is reported.
    OutputNotText,
}

pub open spec fn spec_classify_status(decoded: Option<Seq<char>>) -> StatusReport {
    match decoded {
        Some(output) => if spec_contains_provider_addr(output) {
            StatusReport::Activated
        } else {
            StatusReport::Deactivated
        },
        None => StatusReport::OutputNotText,
    }
}

/// Classifies a status run. `decoded` is the lookup tool's standard output
/// where it decoded as text, and `None` where it did not.
pub fn classify_status(decoded: Option<String>) -> (r: StatusReport)
    ensures
        r == spec_classify_status(decoded.deep_view()),
{
    match decoded {
        Some(output) => {
            if contains_server_1_or_2_config(output) {
                StatusReport::Activated
            } else {
                StatusReport::Deactivated
            }
        },
        None => StatusReport::OutputNotText,
    }
}

/// The line printed for an outcome: a status line for each of the two
/// states, and none at all when the output was not text, where the error
/// stream gets a message in place of a status line.
pub fn status_line(r: &StatusReport) -> (m: Option<&'static str>)
    ensures
        match r {
            StatusReport::Activated => m matches Some(s) && s@ == "ADGUARD DNS is activated"@,
            StatusReport::Deactivated => m matches Some(s) && s@ == "ADGUARD DNS is deactivated"@,
            StatusReport::OutputNotText => m is None,
        },
{
    match r {
        StatusReport::Activated => Some("ADGUARD DNS is activated"),
        StatusReport::Deactivated => Some("ADGUARD DNS is deactivated"),
        StatusReport::OutputNotText => None,
    }
}

/// The message written to the error stream when the lookup output is not
/// decodable as text.
pub fn lookup_failed_message() -> (r: &'static str)
    ensures
        r@ == "nslookup is not installed or could not lookup wikipedia.org"@,
{
    "nslookup is not installed or could not lookup wikipedia.org"
}

} // verus!
