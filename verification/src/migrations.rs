use vstd::prelude::*;

use crate::error::{error_text, Error};
use crate::text::owned;

verus! {

/// Arguments of the migration that accumulates rain.
pub struct Mig12001Args {
    /// Timestamp of the first record to be fixed
    pub start_timestamp: i64,
}

/// Arguments of the migration to PostgreSQL.
pub struct Mig9000Args {
    /// Continue on error
    pub ignore_errors: bool,
}

/// A missing daily rain reading counts as zero.
pub open spec fn rain_or_zero(day: Option<i32>) -> int {
    match day {
        Some(x) => x as int,
        None => 0,
    }
}

/// The rain that fell between two readings of the daily rain counter: the
/// growth of the counter, or, when the counter went down because it was
/// reset, its new value.
pub open spec fn rain_increment(last_day: Option<i32>, current_day: Option<i32>) -> int {
    let delta = rain_or_zero(current_day) - rain_or_zero(last_day);
    if delta < 0 {
        rain_or_zero(current_day)
    } else {
        delta
    }
}

/// Accumulated rain after each reading of `days`, starting from `acc` after
/// a reading `last_day`: the value after reading `k`.
pub open spec fn rain_acc_at(acc: int, last_day: Option<i32>, days: Seq<Option<i32>>, k: int) -> int
    decreases k,
{
    if k <= 0 {
        acc + rain_increment(last_day, days[0])
    } else {
        rain_acc_at(acc, last_day, days, k - 1) + rain_increment(days[k - 1], days[k])
    }
}

/// Every accumulated value after the readings of `days` fits in an `i64`.
pub open spec fn rain_acc_fits(acc: int, last_day: Option<i32>, days: Seq<Option<i32>>) -> bool {
    forall|k: int|
        0 <= k < days.len() ==> i64::MIN <= #[trigger] rain_acc_at(acc, last_day, days, k)
            <= i64::MAX
}

/// The accumulated rain of the first record of a migration: a record whose
/// accumulated rain is zero is taken as not migrated yet and starts with its
/// daily rain; any other record is kept.  Returns the value to store, if
/// the record changes.
pub fn rain_acc_start(acc: i64, rain_day: Option<i32>) -> (r: Option<i64>)
    ensures
        acc == 0 ==> r == Some(rain_or_zero(rain_day) as i64),
        acc != 0 ==> r is None,
{
    if acc == 0 {
        match rain_day {
            Some(x) => Some(x as i64),
            None => Some(0),
        }
    } else {
        None
    }
}

/// The accumulated rain after a reading `current_day` that follows the
/// reading `last_day` with accumulated rain `acc`.
pub fn rain_acc_next(acc: i64, last_day: Option<i32>, current_day: Option<i32>) -> (r: i64)
    requires
        i64::MIN <= acc + rain_increment(last_day, current_day) <= i64::MAX,
    ensures
        r == acc + rain_increment(last_day, current_day),
{
    let cur: i64 = match current_day {
        Some(x) => x as i64,
        None => 0,
    };
    let last: i64 = match last_day {
        Some(x) => x as i64,
        None => 0,
    };
    let delta = cur - last;
    if delta < 0 {
        acc + cur
    } else {
        acc + delta
    }
}

/// Accumulates the rain over a batch of daily rain readings that follow a
/// record with accumulated rain `acc` and reading `last_day`.
pub fn accumulate_rain(acc: i64, last_day: Option<i32>, days: &Vec<Option<i32>>) -> (r: Vec<i64>)
    requires
        rain_acc_fits(acc as int, last_day, days@),
    ensures
        r.len() == days.len(),
        forall|k: int| 0 <= k < days.len() ==> #[trigger] r@[k] == rain_acc_at(acc as int, last_day, days@, k),
{
    let mut r: Vec<i64> = Vec::new();
    let mut cur_acc = acc;
    let mut prev = last_day;
    let mut i: usize = 0;
    while i < days.len()
        invariant
            0 <= i <= days.len(),
            r.len() == i,
            rain_acc_fits(acc as int, last_day, days@),
            forall|k: int| 0 <= k < i ==> #[trigger] r@[k] == rain_acc_at(acc as int, last_day, days@, k),
            i == 0 ==> cur_acc == acc && prev == last_day,
            i > 0 ==> cur_acc == rain_acc_at(acc as int, last_day, days@, i - 1) && prev == days@[i - 1],
        decreases days.len() - i,
    {
        proof {
            assert(i64::MIN <= rain_acc_at(acc as int, last_day, days@, i as int) <= i64::MAX);
        }
        let day = days[i];
        let next = rain_acc_next(cur_acc, prev, day);
        r.push(next);
        cur_acc = next;
        prev = day;
        i = i + 1;
    }
    r
}

/// Each accumulated value is the one before it (the starting value for the
/// first) plus the rain since the immediately preceding reading, a missing
/// reading counting as zero: the growth of the daily counter, or its new
/// value where the counter went down because it was reset.
pub proof fn law_rain_accumulates_step_by_step(
    acc: int,
    last_day: Option<i32>,
    days: Seq<Option<i32>>,
    k: int,
)
    requires
        0 <= k < days.len(),
    ensures
        ({
            let prev = if k == 0 { last_day } else { days[k - 1] };
            let before = match prev {
                Some(x) => x as int,
                None => 0,
            };
            let now = match days[k] {
                Some(x) => x as int,
                None => 0,
            };
            let previous_acc = if k == 0 { acc } else { rain_acc_at(acc, last_day, days, k - 1) };
            rain_acc_at(acc, last_day, days, k) == previous_acc + (if now >= before {
                now - before
            } else {
                now
            })
        }),
{
}

/// With rain readings that are never negative, the accumulated rain never
/// decreases: every value is at least the one before it, and the first is at
/// least the starting value.
pub proof fn law_accumulated_rain_never_decreases(
    acc: int,
    last_day: Option<i32>,
    days: Seq<Option<i32>>,
    k: int,
)
    requires
        rain_or_zero(last_day) >= 0,
        forall|j: int| 0 <= j < days.len() ==> rain_or_zero(#[trigger] days[j]) >= 0,
        0 <= k < days.len(),
    ensures
        rain_acc_at(acc, last_day, days, k) >= acc,
        k > 0 ==> rain_acc_at(acc, last_day, days, k) >= rain_acc_at(acc, last_day, days, k - 1),
    decreases k,
{
    if k > 0 {
        law_accumulated_rain_never_decreases(acc, last_day, days, k - 1);
        assert(rain_or_zero(days[k]) >= 0);
    } else {
        assert(rain_or_zero(days[0]) >= 0);
    }
}

/// The kind of a configured source.
#[derive(Clone, Copy, Debug, PartialEq, Eq)]
pub enum SourceKind {
    Debug,
    SunnyIsland,
    SunnyBoyStorage,
    SunspecSolar,
    SunnyBoySpeedwire,
    KeContact,
    DachsMsrS,
    LambdaHeatPump,
    SmaMeter,
    SmlMeter,
    Bresser6in1,
}

/// The PostgreSQL table a source's series is migrated into.
#[derive(Clone, Copy, Debug, PartialEq, Eq)]
pub enum SeriesTable {
    Battery,
    SimpleMeter,
    Generator,
    Heatpump,
    BidirectionalMeter,
    Weather,
}

/// The table for each kind of source; a debug source has no series.
pub open spec fn table_of(kind: SourceKind) -> Option<SeriesTable> {
    match kind {
        SourceKind::Debug => None,
        SourceKind::SunnyIsland => Some(SeriesTable::Battery),
        SourceKind::SunnyBoyStorage => Some(SeriesTable::Battery),
        SourceKind::SunspecSolar => Some(SeriesTable::SimpleMeter),
        SourceKind::SunnyBoySpeedwire => Some(SeriesTable::SimpleMeter),
        SourceKind::KeContact => Some(SeriesTable::SimpleMeter),
        SourceKind::DachsMsrS => Some(SeriesTable::Generator),
        SourceKind::LambdaHeatPump => Some(SeriesTable::Heatpump),
        SourceKind::SmaMeter => Some(SeriesTable::BidirectionalMeter),
        SourceKind::SmlMeter => Some(SeriesTable::BidirectionalMeter),
        SourceKind::Bresser6in1 => Some(SeriesTable::Weather),
    }
}

/// Chooses the table a source's series is migrated into.
pub fn series_table(kind: SourceKind) -> (r: Option<SeriesTable>)
    ensures
        r == table_of(kind),
{
    match kind {
        SourceKind::Debug => None,
        SourceKind::SunnyIsland => Some(SeriesTable::Battery),
        SourceKind::SunnyBoyStorage => Some(SeriesTable::Battery),
        SourceKind::SunspecSolar => Some(SeriesTable::SimpleMeter),
        SourceKind::SunnyBoySpeedwire => Some(SeriesTable::SimpleMeter),
        SourceKind::KeContact => Some(SeriesTable::SimpleMeter),
        SourceKind::DachsMsrS => Some(SeriesTable::Generator),
        SourceKind::LambdaHeatPump => Some(SeriesTable::Heatpump),
        SourceKind::SmaMeter => Some(SeriesTable::BidirectionalMeter),
        SourceKind::SmlMeter => Some(SeriesTable::BidirectionalMeter),
        SourceKind::Bresser6in1 => Some(SeriesTable::Weather),
    }
}

/// Each table takes the series of one kind of device: batteries (the two
/// battery inverters), simple meters (the solar inverters and the wallbox),
/// the combined heat and power unit, the heat pump, bidirectional meters
/// (the SMA and the SML grid meter) and the weather station; a debug source
/// is not migrated.
pub proof fn law_tables_by_device(kind: SourceKind)
    ensures
        table_of(kind) == Some(SeriesTable::Battery) <==> (kind == SourceKind::SunnyIsland || kind
            == SourceKind::SunnyBoyStorage),
        table_of(kind) == Some(SeriesTable::SimpleMeter) <==> (kind == SourceKind::SunspecSolar
            || kind == SourceKind::SunnyBoySpeedwire || kind == SourceKind::KeContact),
        table_of(kind) == Some(SeriesTable::Generator) <==> kind == SourceKind::DachsMsrS,
        table_of(kind) == Some(SeriesTable::Heatpump) <==> kind == SourceKind::LambdaHeatPump,
        table_of(kind) == Some(SeriesTable::BidirectionalMeter) <==> (kind == SourceKind::SmaMeter
            || kind == SourceKind::SmlMeter),
        table_of(kind) == Some(SeriesTable::Weather) <==> kind == SourceKind::Bresser6in1,
        table_of(kind) is None <==> kind == SourceKind::Debug,
{
}

/// The migration to PostgreSQL needs the InfluxDB settings to read from.
pub fn check_influx_settings(present: bool) -> (r: Result<(), String>)
    ensures
        present <==> r is Ok,
        r matches Err(e) ==> e@ == "Missing 'influx' settings in config file"@,
{
    if present {
        Ok(())
    } else {
        Err(owned("Missing 'influx' settings in config file"))
    }
}

/// The report of a series whose migration failed; the migration goes on
/// with the next source.
pub fn series_failure_message(name: &str, error: &str) -> (r: String)
    ensures
        r@ == "Migration of series '"@ + name@ + "' finished with error: "@ + error@,
{
    let mut m = owned("Migration of series '");
    m.append(name);
    m.append("' finished with error: ");
    m.append(error);
    m
}

/// Length of a day in seconds: the width of a migration batch.
pub open spec fn day_secs() -> int {
    86400
}

/// Number of full-day batches from `from` up to `to`.
pub open spec fn full_windows(from: u64, to: u64) -> int {
    if from <= to {
        (to - from) / day_secs()
    } else {
        0
    }
}

/// The time windows a charge migration processes: one per full day from
/// `from` on, then the remainder up to `to`.
pub open spec fn batch_windows_of(from: u64, to: u64) -> Seq<(u64, u64)> {
    let m = full_windows(from, to);
    Seq::new(
        (m + 1) as nat,
        |k: int|
            if k < m {
                ((from + k * day_secs()) as u64, (from + (k + 1) * day_secs()) as u64)
            } else {
                ((from + m * day_secs()) as u64, to)
            },
    )
}

/// Splits the time from `from` to `to` (seconds) into batches of one day,
/// followed by the rest.
pub fn batch_windows(from: u64, to: u64) -> (r: Vec<(u64, u64)>)
    ensures
        r@ == batch_windows_of(from, to),
{
    let ghost m = full_windows(from, to);
    let mut r: Vec<(u64, u64)> = Vec::new();
    let mut past = from;
    let mut k: u64 = 0;
    while past <= to && to - past >= 86400
        invariant
            0 <= k <= m,
            past == from + k * day_secs(),
            past <= to || (k == 0 && from > to),
            m == full_windows(from, to),
            r.len() == k,
            forall|j: int| 0 <= j < k ==> #[trigger] r@[j] == batch_windows_of(from, to)[j],
        decreases to - past + 1,
    {
        proof {
            assert(k + 1 <= m) by (nonlinear_arith)
                requires
                    past == from + k * 86400,
                    to - past >= 86400,
                    m == (to - from) / 86400,
            ;
        }
        r.push((past, past + 86400));
        past = past + 86400;
        k = k + 1;
    }
    proof {
        if from <= to {
            assert(k == m) by (nonlinear_arith)
                requires
                    past == from + k * 86400,
                    past <= to,
                    to - past < 86400,
                    m == (to - from) / 86400,
            ;
        }
    }
    r.push((past, to));
    assert(r@ =~= batch_windows_of(from, to));
    r
}

/// The batches of a charge migration cover the time from `from` to `to`
/// without gaps or overlaps: the first starts at `from`, each starts where
/// the one before ended, the last ends at `to`, and all but the last span
/// exactly one day.
pub proof fn law_batches_are_contiguous(from: u64, to: u64)
    ensures
        batch_windows_of(from, to).len() >= 1,
        batch_windows_of(from, to)[0].0 == from,
        batch_windows_of(from, to).last().1 == to,
        forall|k: int|
            0 <= k < batch_windows_of(from, to).len() - 1 ==> (#[trigger] batch_windows_of(
                from,
                to,
            )[k]).1 == batch_windows_of(from, to)[k + 1].0,
        forall|k: int|
            0 <= k < batch_windows_of(from, to).len() - 1 ==> (#[trigger] batch_windows_of(
                from,
                to,
            )[k]).1 - batch_windows_of(from, to)[k].0 == day_secs(),
{
    let m = full_windows(from, to);
    if from <= to {
        assert(m * 86400 <= to - from) by (nonlinear_arith)
            requires
                m == (to - from) / 86400,
                from <= to,
        ;
        assert(m >= 0) by (nonlinear_arith)
            requires
                m == (to - from) / 86400,
                from <= to,
        ;
        assert forall|k: int| 0 <= k <= m implies 0 <= #[trigger] (k * 86400) <= to - from by {
            assert(0 <= k * 86400 <= m * 86400) by (nonlinear_arith)
                requires
                    0 <= k <= m,
            ;
        }
    }
}

/// How a migration goes on after inserting a batch of records.
pub enum BatchVerdict {
    /// All records were inserted.
    Complete,
    /// Records were lost, but errors are ignored: report and go on.
    Skipped(String),
    /// Records were lost: stop with this error.
    Aborted(String),
}

/// Decides how a migration goes on after inserting `count` records gave
/// `res`: the number of inserted records, or an error.
pub fn check_result(res: Result<usize, Error>, count: usize, continue_on_err: bool) -> (r:
    BatchVerdict)
    ensures
        res matches Ok(n) && n == count ==> r is Complete,
        res matches Ok(n) && n != count ==> (continue_on_err ==> (r matches BatchVerdict::Skipped(
            e,
        ) && e@ == "Could not insert all records"@)),
        res matches Ok(n) && n != count ==> (!continue_on_err ==> (r matches BatchVerdict::Aborted(
            e,
        ) && e@ == "Could not insert all records"@)),
        res matches Err(err) ==> (continue_on_err ==> (r matches BatchVerdict::Skipped(e) && e@
            == error_text(err))),
        res matches Err(err) ==> (!continue_on_err ==> (r matches BatchVerdict::Aborted(e) && e@
            == error_text(err))),
{
    match res {
        Ok(insert_count) => {
            if count != insert_count {
                let e = owned("Could not insert all records");
                if continue_on_err {
                    BatchVerdict::Skipped(e)
                } else {
                    BatchVerdict::Aborted(e)
                }
            } else {
                BatchVerdict::Complete
            }
        },
        Err(err) => {
            let e = err.to_string();
            if continue_on_err {
                BatchVerdict::Skipped(e)
            } else {
                BatchVerdict::Aborted(e)
            }
        },
    }
}

} // verus!
