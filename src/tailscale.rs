//! The resolved identity, the ways resolving it fails, and the steps from a
//! finished tool run to one or the other.
use vstd::prelude::*;

use crate::addresses::{
    canonical_addresses,
    is_canonical_form,
    lemma_canonical_form_idempotent,
    lemma_canonical_form_unique,
    strictly_ascending,
};
use crate::ip::{ip_of_text, IpValue};
use crate::report::{
    json_error_text_of,
    decode_json,
    is_json_document,
    json_of,
    report_entry,
    report_from_json,
    status_entry,
    StatusReport,
};
use crate::text::{
    chosen_details,
    failure_details,
    normalize_dns_name,
    normalized_dns_name,
    stream_text,
    trim_spec,
};

verus! {

/// This machine's identity on the Tailscale network.
#[derive(Debug)]
pub struct TailscaleInfo {
    /// Its addresses, in canonical order, each once; never empty.
    pub ips: Vec<IpValue>,
    /// Its DNS name without the root dot, if it has a non-empty one.
    pub dns_name: Option<String>,
}

/// Why the identity could not be resolved.
#[derive(Debug)]
pub enum TailscaleError {
    /// The `tailscale` binary is not on the search path.
    ToolNotFound,
    /// The process could not be started, for the given system reason.
    SpawnFailed(String),
    /// The tool exited with a failure status; holds the details it gave.
    ToolFailed(String),
    /// The output is no status report; holds what was wrong with it.
    Decode(String),
    /// The report has no `Self` entry.
    MissingSelfNode,
    /// The `Self` entry lists no addresses.
    NoAddressesFound,
}

impl TailscaleError {
    /// The text that `message` returns.
    pub open spec fn message_spec(&self) -> Seq<char> {
        match self {
            TailscaleError::ToolNotFound => "Could not find the `tailscale` binary in PATH. Install Tailscale or run miniserve without --tailscale."@,
            TailscaleError::SpawnFailed(d) => "Failed to execute `tailscale status --json`: "@ + d@,
            TailscaleError::ToolFailed(d) => "`tailscale status --json` failed: "@ + d@,
            TailscaleError::Decode(d) => "Failed to parse `tailscale status --json` output: "@ + d@,
            TailscaleError::MissingSelfNode => "`tailscale status --json` output did not include `Self` node information"@,
            TailscaleError::NoAddressesFound => "No Tailscale IPs found for this machine. Verify that Tailscale is connected."@,
        }
    }

    /// The message shown to the user for this error.
    pub fn message(&self) -> (r: String)
        ensures
            r@ == self.message_spec(),
    {
        match self {
            TailscaleError::ToolNotFound => String::from_str(
                "Could not find the `tailscale` binary in PATH. Install Tailscale or run miniserve without --tailscale.",
            ),
            TailscaleError::SpawnFailed(d) => String::from_str(
                "Failed to execute `tailscale status --json`: ",
            ).concat(d.as_str()),
            TailscaleError::ToolFailed(d) => String::from_str(
                "`tailscale status --json` failed: ",
            ).concat(d.as_str()),
            TailscaleError::Decode(d) => String::from_str(
                "Failed to parse `tailscale status --json` output: ",
            ).concat(d.as_str()),
            TailscaleError::MissingSelfNode => String::from_str(
                "`tailscale status --json` output did not include `Self` node information",
            ),
            TailscaleError::NoAddressesFound => String::from_str(
                "No Tailscale IPs found for this machine. Verify that Tailscale is connected.",
            ),
        }
    }
}

/// `info` is the identity that a self entry with addresses `ips` and DNS
/// name `dns_name` resolves to.
pub open spec fn resolves_to(ips: Seq<IpValue>, dns_name: Option<Seq<char>>, info: TailscaleInfo) -> bool {
    &&& is_canonical_form(ips, info.ips@)
    &&& info.dns_name.deep_view() == normalized_dns_name(dns_name)
}

/// Resolving one self entry twice gives the same identity both times: its
/// addresses and its DNS name are fixed by the entry.
pub proof fn lemma_resolution_deterministic(
    ips: Seq<IpValue>,
    dns_name: Option<Seq<char>>,
    a: TailscaleInfo,
    b: TailscaleInfo,
)
    requires
        resolves_to(ips, dns_name, a),
        resolves_to(ips, dns_name, b),
    ensures
        a.ips@ == b.ips@,
        a.dns_name.deep_view() == b.dns_name.deep_view(),
{
    lemma_canonical_form_unique(a.ips@, b.ips@);
}

/// Resolving the addresses of a resolved identity again leaves them as
/// they are.
pub proof fn lemma_resolved_addresses_stable(
    ips: Seq<IpValue>,
    dns_name: Option<Seq<char>>,
    once: TailscaleInfo,
    twice: TailscaleInfo,
)
    requires
        resolves_to(ips, dns_name, once),
        resolves_to(once.ips@, once.dns_name.deep_view(), twice),
    ensures
        twice.ips@ == once.ips@,
{
    lemma_canonical_form_idempotent(ips, once.ips@, twice.ips@);
}

/// What holds of every identity that a report resolves to.
pub open spec fn is_resolved_identity(info: TailscaleInfo) -> bool {
    &&& info.ips@.len() > 0
    &&& strictly_ascending(info.ips@)
}

/// The addresses that address texts read as, when every one reads as one.
pub open spec fn addresses_of(texts: Seq<Seq<char>>) -> Option<Seq<IpValue>> {
    if forall|k: int| 0 <= k < texts.len() ==> (ip_of_text(#[trigger] texts[k]) is Some) {
        Some(texts.map_values(|t: Seq<char>| ip_of_text(t)->Some_0))
    } else {
        None
    }
}

/// The result owed for a self entry with addresses `ips` and DNS name
/// `dns_name`.
pub open spec fn address_outcome(
    ips: Seq<IpValue>,
    dns_name: Option<Seq<char>>,
    r: Result<TailscaleInfo, TailscaleError>,
) -> bool {
    if ips.len() == 0 {
        r == Err::<TailscaleInfo, TailscaleError>(TailscaleError::NoAddressesFound)
    } else {
        &&& r is Ok
        &&& resolves_to(ips, dns_name, r->Ok_0)
        &&& is_resolved_identity(r->Ok_0)
        &&& r->Ok_0.ips@.len() == ips.to_set().len()
    }
}

/// The result owed for a status document's self entry: an error names the
/// part of a document without the status shape, `Ok(None)` is a document
/// without a `Self` entry.
pub open spec fn entry_outcome(
    entry: Result<Option<(Seq<Seq<char>>, Option<Seq<char>>)>, Seq<char>>,
    r: Result<TailscaleInfo, TailscaleError>,
) -> bool {
    match entry {
        Err(e) => r matches Err(TailscaleError::Decode(d)) && d@ == e,
        Ok(None) => r == Err::<TailscaleInfo, TailscaleError>(TailscaleError::MissingSelfNode),
        Ok(Some((texts, dns_name))) => match addresses_of(texts) {
            None => r matches Err(TailscaleError::Decode(d)) && d@
                == "`TailscaleIPs` holds a text that is no IP address"@,
            Some(ips) => address_outcome(ips, dns_name, r),
        },
    }
}

/// The result owed for the bytes `raw` of a status report: serde_json's
/// error for bytes that are no JSON document, else the result owed for the
/// self entry of the document they hold.
pub open spec fn parse_outcome(raw: Seq<u8>, r: Result<TailscaleInfo, TailscaleError>) -> bool {
    if is_json_document(raw) {
        entry_outcome(status_entry(json_of(raw)), r)
    } else {
        r matches Err(TailscaleError::Decode(d)) && d@ == json_error_text_of(raw)
    }
}

/// Two results owed for the same bytes agree: both succeed with the same
/// addresses and DNS name, or both fail with the same kind of error and
/// the same message.
pub proof fn lemma_parse_deterministic(
    raw: Seq<u8>,
    r1: Result<TailscaleInfo, TailscaleError>,
    r2: Result<TailscaleInfo, TailscaleError>,
)
    requires
        parse_outcome(raw, r1),
        parse_outcome(raw, r2),
    ensures
        r1 is Ok <==> r2 is Ok,
        r1 is Ok ==> r1->Ok_0.ips@ == r2->Ok_0.ips@
            && r1->Ok_0.dns_name.deep_view() == r2->Ok_0.dns_name.deep_view(),
        r1 is Err ==> (r1->Err_0 is Decode <==> r2->Err_0 is Decode),
        r1 is Err ==> r1->Err_0.message_spec() == r2->Err_0.message_spec(),
{
    if is_json_document(raw) {
        if let Ok(Some((texts, dns_name))) = status_entry(json_of(raw)) {
            if let Some(ips) = addresses_of(texts) {
                if ips.len() > 0 {
                    lemma_resolution_deterministic(ips, dns_name, r1->Ok_0, r2->Ok_0);
                }
            }
        }
    }
}

/// Reads every address text; `None` when one of them is no IP address.
pub fn read_addresses(texts: &Vec<String>) -> (r: Option<Vec<IpValue>>)
    ensures
        match addresses_of(texts.deep_view()) {
            None => r is None,
            Some(ips) => r is Some && r->Some_0@ == ips,
        },
{
    let ghost tv = texts.deep_view();
    let mut out: Vec<IpValue> = Vec::new();
    let mut i: usize = 0;
    while i < texts.len()
        invariant
            tv == texts.deep_view(),
            i <= tv.len(),
            forall|k: int| 0 <= k < i ==> (ip_of_text(#[trigger] tv[k]) is Some),
            out@ =~= tv.take(i as int).map_values(|t: Seq<char>| ip_of_text(t)->Some_0),
        decreases tv.len() - i,
    {
        assert(texts[i as int]@ == tv[i as int]);
        match IpValue::parse(texts[i].as_str()) {
            None => {
                assert(!(ip_of_text(tv[i as int]) is Some));
                return None;
            },
            Some(ip) => {
                out.push(ip);
                assert(tv.take(i + 1) =~= tv.take(i as int).push(tv[i as int]));
            },
        }
        i = i + 1;
    }
    assert(tv.take(i as int) =~= tv);
    Some(out)
}

/// Resolves a self entry from its addresses and its reported DNS name.
pub fn resolve_entry(ips: Vec<IpValue>, dns_name: Option<String>) -> (r: Result<
    TailscaleInfo,
    TailscaleError,
>)
    ensures
        address_outcome(ips@, dns_name.deep_view(), r),
{
    if ips.len() == 0 {
        return Err(TailscaleError::NoAddressesFound);
    }
    let canonical = canonical_addresses(&ips);
    proof {
        assert(ips@.to_set().contains(ips@[0]));
    }
    let dns_name = normalize_dns_name(dns_name);
    Ok(TailscaleInfo { ips: canonical, dns_name })
}

/// Validates a decoded report: reads its addresses and normalises its self
/// entry.
pub fn validate_status(report: StatusReport) -> (r: Result<TailscaleInfo, TailscaleError>)
    ensures
        entry_outcome(Ok(report_entry(report)), r),
{
    match report.self_node {
        None => Err(TailscaleError::MissingSelfNode),
        Some(node) => match read_addresses(&node.ips) {
            None => Err(
                TailscaleError::Decode(
                    String::from_str("`TailscaleIPs` holds a text that is no IP address"),
                ),
            ),
            Some(ips) => resolve_entry(ips, node.dns_name),
        },
    }
}

/// Decodes the JSON output of `tailscale status --json` and resolves the
/// identity it reports.
pub fn parse_tailscale_status_json(raw_json: &[u8]) -> (r: Result<TailscaleInfo, TailscaleError>)
    ensures
        parse_outcome(raw_json@, r),
{
    match decode_json(raw_json) {
        Err(e) => Err(TailscaleError::Decode(e)),
        Ok(doc) => match report_from_json(&doc) {
            Err(d) => Err(TailscaleError::Decode(d)),
            Ok(report) => validate_status(report),
        },
    }
}

/// The error for a tool process that could not be started.
pub fn spawn_failure(not_found: bool, reason: String) -> (r: TailscaleError)
    ensures
        not_found ==> r == TailscaleError::ToolNotFound,
        !not_found ==> r == TailscaleError::SpawnFailed(reason),
{
    if not_found {
        TailscaleError::ToolNotFound
    } else {
        TailscaleError::SpawnFailed(reason)
    }
}

/// Resolves the identity from a finished run of `tailscale status --json`:
/// its success flag and the bytes of its two streams.
pub fn interpret_status_output(success: bool, stdout: &[u8], stderr: &[u8]) -> (r: Result<
    TailscaleInfo,
    TailscaleError,
>)
    ensures
        !success ==> (r matches Err(TailscaleError::ToolFailed(d)) && d@ == chosen_details(
            trim_spec(stream_text(stderr@)),
            trim_spec(stream_text(stdout@)),
        )),
        success ==> parse_outcome(stdout@, r),
{
    if !success {
        Err(TailscaleError::ToolFailed(failure_details(stderr, stdout)))
    } else {
        parse_tailscale_status_json(stdout)
    }
}

} // verus!
