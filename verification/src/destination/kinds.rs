pub mod desktop_notification;
pub mod discord;
pub mod file;
pub mod rust_receiver;
pub mod telegram;

use vstd::prelude::*;
use chrono::TimeZone;

verus! {

/// The largest timestamp magnitude, in milliseconds, that the local-time
/// rendering is relied on for: roughly 253 millennia either side of the
/// epoch.  chrono represents datetimes out to about 262 millennia and its
/// RFC 3339 writer aborts when the machine's zone offset pushes a datetime
/// beyond that, so this bound keeps a margin of millennia — far more than
/// any zone offset — between what is rendered and where chrono gives up.
pub const MAX_RENDERABLE_TIMESTAMP_MILLIS: i64 = 8_000_000_000_000_000;

/// Relies on chrono: `Local.timestamp_millis_opt` and `to_rfc3339_opts`
/// write a unix timestamp as text in the machine's local time zone.  The
/// text depends on that time zone, so nothing is promised of it.  The
/// bound on the timestamp is owed to chrono: its RFC 3339 writer aborts on
/// datetimes that the zone offset pushes out of its representable range,
/// and the bound stays millennia away from that range's ends.
#[verifier::external_body]
pub(crate) fn local_rfc3339_millis(unix_timestamp_millis: i64) -> Option<String>
    requires
        -MAX_RENDERABLE_TIMESTAMP_MILLIS <= unix_timestamp_millis
            <= MAX_RENDERABLE_TIMESTAMP_MILLIS,
{
    chrono::Local.timestamp_millis_opt(unix_timestamp_millis).single().map(
        |t| t.to_rfc3339_opts(chrono::SecondsFormat::Millis, true),
    )
}

/// The timestamp's local-time rendering where chrono can be relied on for
/// one, and a fixed placeholder for the few timestamps millennia out of
/// range.
pub(crate) fn render_local_timestamp(unix_timestamp_millis: i64) -> String {
    if -MAX_RENDERABLE_TIMESTAMP_MILLIS <= unix_timestamp_millis && unix_timestamp_millis
        <= MAX_RENDERABLE_TIMESTAMP_MILLIS {
        match local_rfc3339_millis(unix_timestamp_millis) {
            Some(t) => t,
            None => ("invalid timestamp").to_owned(),
        }
    } else {
        ("invalid timestamp").to_owned()
    }
}

} // verus!
