//! The audit record of a launch that proceeds with downgraded attestation:
//! the bytes each record of the hash chain commits to.
use crate::text::{decimal, decimal_string, join, join_strs, str_views};
use vstd::prelude::*;

verus! {

/// The bytes committed to the audit chain for a downgrade: the event type,
/// the downgraded layers joined with `,`, the session and the time in
/// milliseconds since the Unix epoch, separated by `|`.
pub open spec fn downgrade_payload(layers: Seq<Seq<char>>, session_id: Seq<char>, timestamp_unix_ms: u64) -> Seq<char> {
    "LayerAttestationDowngraded|"@ + join(layers, ","@) + "|"@ + session_id + "|"@ + decimal(
        timestamp_unix_ms as nat,
    )
}

/// Builds the bytes committed to the audit chain for a downgrade.
pub fn attestation_event_payload(downgraded_layers: &[&str], session_id: &str, timestamp_unix_ms: u64) -> (r: String)
    ensures
        r@ == downgrade_payload(str_views(downgraded_layers@), session_id@, timestamp_unix_ms),
{
    let mut r = String::from_str("LayerAttestationDowngraded|");
    let layers = join_strs(downgraded_layers, ",");
    r.append(layers.as_str());
    r.append("|");
    r.append(session_id);
    r.append("|");
    let ts = decimal_string(timestamp_unix_ms);
    r.append(ts.as_str());
    r
}

} // verus!
