use vstd::prelude::*;
use crate::feed::{collect_records, feed_records, records_view, FeedMessage, VehicleRecord};

verus! {

/// The last second of the year 9999, in seconds since the Unix epoch (UTC).
pub const LAST_SECOND_OF_9999: u64 = 253402300799;

/// The calendar form `YYYY-MM-DDTHH:MM:SS` of an instant given in seconds
/// since the Unix epoch, in UTC, as chrono writes it.
pub uninterp spec fn utc_iso_seconds(secs: int) -> Seq<char>;

/// Relies on chrono's `DateTime::<Utc>::from_timestamp(secs, 0)` followed by
/// `format("%Y-%m-%dT%H:%M:%S")`: the text depends on the seconds alone, and
/// `from_timestamp` returns `None` only for days outside chrono's date range,
/// which holds every instant from the epoch to the end of the year 9999.
#[verifier::external_body]
fn format_utc_seconds(secs: i64) -> (r: Option<String>)
    ensures
        r matches Some(s) ==> s@ == utc_iso_seconds(secs as int),
        0 <= secs <= LAST_SECOND_OF_9999 ==> r is Some,
{
    match chrono::DateTime::from_timestamp(secs, 0) {
        Some(d) => Some(d.format("%Y-%m-%dT%H:%M:%S").to_string()),
        None => None,
    }
}

/// Why no snapshot can be written for a feed.
#[derive(Clone, Copy, Debug, PartialEq, Eq, Structural)]
pub enum SnapshotError {
    /// The feed's header carries no timestamp.
    MissingTimestamp,
    /// The header's timestamp lies outside the calendar range that can be named.
    TimestampOutOfRange,
}

/// The extension of a snapshot file.
pub open spec fn json_extension() -> Seq<char> {
    seq!['.', 'j', 's', 'o', 'n']
}

/// The name of the snapshot file of a feed whose header timestamp is `secs`.
pub open spec fn snapshot_name(secs: int) -> Seq<char> {
    utc_iso_seconds(secs) + json_extension()
}

/// The file name for a calendar stamp: the stamp followed by `.json`.
pub fn file_name_from_stamp(stamp: String) -> (r: String)
    ensures
        r@ == stamp@ + json_extension(),
{
    proof {
        reveal_strlit(".json");
    }
    stamp.concat(".json")
}

/// The snapshot file name for a header timestamp.
pub fn snapshot_file_name(timestamp: Option<u64>) -> (r: Result<String, SnapshotError>)
    ensures
        timestamp is None <==> r == Err::<String, SnapshotError>(SnapshotError::MissingTimestamp),
        r matches Ok(n) ==> timestamp matches Some(t) && n@ == snapshot_name(t as int),
        timestamp matches Some(t) ==> (t <= LAST_SECOND_OF_9999 ==> r is Ok),
        timestamp matches Some(t) ==> (t > i64::MAX ==> r == Err::<String, SnapshotError>(
            SnapshotError::TimestampOutOfRange,
        )),
{
    let secs = match timestamp {
        Some(t) => t,
        None => return Err(SnapshotError::MissingTimestamp),
    };
    if secs > i64::MAX as u64 {
        return Err(SnapshotError::TimestampOutOfRange);
    }
    match format_utc_seconds(secs as i64) {
        Some(stamp) => Ok(file_name_from_stamp(stamp)),
        None => Err(SnapshotError::TimestampOutOfRange),
    }
}

/// What one tick of the file mode writes: the file's name and its records.
#[derive(Clone, Debug, PartialEq)]
pub struct Snapshot {
    pub file_name: String,
    pub records: Vec<VehicleRecord>,
}

/// The snapshot of a decoded feed: the file is named from the header's
/// timestamp, and holds the records of the entities that have every field.
pub fn build_snapshot(message: &FeedMessage) -> (r: Result<Snapshot, SnapshotError>)
    ensures
        message.timestamp is None <==> r == Err::<Snapshot, SnapshotError>(
            SnapshotError::MissingTimestamp,
        ),
        message.timestamp matches Some(t) ==> (t <= LAST_SECOND_OF_9999 ==> r is Ok),
        message.timestamp matches Some(t) ==> (t > i64::MAX ==> r == Err::<
            Snapshot,
            SnapshotError,
        >(SnapshotError::TimestampOutOfRange)),
        r matches Ok(s) ==> message.timestamp matches Some(t) && s.file_name@ == snapshot_name(
            t as int,
        ) && records_view(s.records@) == feed_records(message.entities@),
{
    let file_name = match snapshot_file_name(message.timestamp) {
        Ok(n) => n,
        Err(e) => return Err(e),
    };
    let records = collect_records(&message.entities);
    Ok(Snapshot { file_name, records })
}

} // verus!
