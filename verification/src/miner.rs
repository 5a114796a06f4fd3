use vstd::prelude::*;
use vstd::arithmetic::div_mod::{lemma_fundamental_div_mod, lemma_mod_multiples_basic};
use vstd::string::StringExecFns;

use crate::text::{owned, str_equal};

verus! {

/// What one round of a miner task ended with.
#[derive(Debug)]
pub enum MinerResult {
    Running,
    Failed(String),
    Canceled,
}

/// What an aligned sleep ended with: the time of waking up, in seconds
/// since the epoch, or cancellation.
#[derive(Debug)]
pub enum MinerState {
    Running(u64),
    Canceled,
}

/// Seconds to sleep from `now` until the next multiple of `interval`.
pub fn sleep_duration(interval: u64, now: u64) -> (r: u64)
    requires
        interval > 0,
    ensures
        r == interval - now % interval,
        0 < r <= interval,
        (now + r) % (interval as int) == 0,
{
    proof {
        lemma_fundamental_div_mod(now as int, interval as int);
        let q = now as int / interval as int;
        assert(now + (interval - now % interval) == (q + 1) * interval) by (nonlinear_arith)
            requires
                now == interval * q + now % interval,
        ;
        lemma_mod_multiples_basic(q + 1, interval as int);
    }
    interval - (now % interval)
}

/// The message of a failed aligned sleep.
pub open spec fn sleep_failure_text(miner_type: Seq<char>, name: Seq<char>, e: Seq<char>) -> Seq<
    char,
> {
    "sleep_aligned failed in "@ + miner_type + ":"@ + name + ": "@ + e
}

/// Decides how a miner goes on after its aligned sleep: with the wake-up
/// time, or by ending its round as canceled or failed.
pub fn after_sleep(slept: Result<MinerState, String>, miner_type: &str, name: &str) -> (r: Result<
    u64,
    MinerResult,
>)
    ensures
        slept matches Err(e) ==> (r matches Err(MinerResult::Failed(m)) && m@ == sleep_failure_text(
            miner_type@,
            name@,
            e@,
        )),
        slept matches Ok(MinerState::Canceled) ==> (r matches Err(MinerResult::Canceled)),
        slept matches Ok(MinerState::Running(now)) ==> r == Ok::<u64, MinerResult>(now),
{
    match slept {
        Err(e) => {
            let mut m = owned("sleep_aligned failed in ");
            m.append(miner_type);
            m.append(":");
            m.append(name);
            m.append(": ");
            m.append(e.as_str());
            Err(MinerResult::Failed(m))
        },
        Ok(MinerState::Canceled) => Err(MinerResult::Canceled),
        Ok(MinerState::Running(now)) => Ok(now),
    }
}

/// Whether a finished miner task stops the miner: a task that could not be
/// joined or that failed does; a running or canceled one does not.
pub fn miner_task_failed(joined: &Result<MinerResult, String>) -> (r: bool)
    ensures
        r <==> (joined is Err || (joined matches Ok(MinerResult::Failed(_)))),
{
    match joined {
        Err(_) => true,
        Ok(MinerResult::Failed(_)) => true,
        Ok(_) => false,
    }
}

/// How often a reading from a device is retried, and before which retry
/// the device is reset.
#[derive(Clone, Copy, Debug)]
pub struct RetryPolicy {
    pub retries: u8,
    pub reset_before: Option<u8>,
}

/// What to do after a reading.
#[derive(Clone, Copy, Debug, PartialEq, Eq)]
pub enum RetryAction {
    Done,
    Retry { reset: bool },
    GiveUp,
}

/// The action after the reading that follows `retry` retries (the first
/// reading is followed by retry number 1).
pub open spec fn retry_action(p: RetryPolicy, retry: int, failed: bool) -> RetryAction {
    if !failed {
        RetryAction::Done
    } else if 1 <= retry <= p.retries {
        RetryAction::Retry { reset: p.reset_before == Some(retry as u8) }
    } else {
        RetryAction::GiveUp
    }
}

/// Number of readings made when the readings fail as `failed` says
/// (`failed[k]` for reading `k + 1`), counting from reading `done`.
pub open spec fn readings(p: RetryPolicy, failed: Seq<bool>, done: int) -> int
    decreases failed.len() - done,
{
    if done < 1 || done >= failed.len() {
        done
    } else {
        match retry_action(p, done, failed[done - 1]) {
            RetryAction::Retry { .. } => readings(p, failed, done + 1),
            _ => done,
        }
    }
}

impl RetryPolicy {
    /// Electricity meters on a serial line: three retries, the device is
    /// reset before the second.
    pub fn sml_meter() -> (r: RetryPolicy)
        ensures
            r.retries == 3,
            r.reset_before == Some(2u8),
    {
        RetryPolicy { retries: 3, reset_before: Some(2) }
    }

    /// Weather stations on USB: three retries, the device is reset before
    /// the second.
    pub fn bresser6in1() -> (r: RetryPolicy)
        ensures
            r.retries == 3,
            r.reset_before == Some(2u8),
    {
        RetryPolicy { retries: 3, reset_before: Some(2) }
    }

    /// The weather station miner: two retries, the device is reset before
    /// the second.
    pub fn weather() -> (r: RetryPolicy)
        ensures
            r.retries == 2,
            r.reset_before == Some(2u8),
    {
        RetryPolicy { retries: 2, reset_before: Some(2) }
    }

    /// Decides what follows a reading: done when it succeeded, another
    /// reading (after a reset where due) while retries are left, else give
    /// up.  `retry` is the number of the retry that would come next.
    pub fn next_action(&self, retry: u8, failed: bool) -> (r: RetryAction)
        ensures
            r == retry_action(*self, retry as int, failed),
    {
        if !failed {
            RetryAction::Done
        } else if 1 <= retry && retry <= self.retries {
            let reset = match self.reset_before {
                Some(k) => k == retry,
                None => false,
            };
            RetryAction::Retry { reset }
        } else {
            RetryAction::GiveUp
        }
    }
}

proof fn lemma_readings_bounded(p: RetryPolicy, failed: Seq<bool>, done: int)
    requires
        1 <= done <= p.retries + 1,
    ensures
        readings(p, failed, done) <= p.retries + 1,
    decreases failed.len() - done,
{
    if done < failed.len() {
        if let RetryAction::Retry { .. } = retry_action(p, done, failed[done - 1]) {
            lemma_readings_bounded(p, failed, done + 1);
        }
    }
}

/// A device is read at most `retries + 1` times in one round, however the
/// readings fail.
pub proof fn law_readings_are_bounded(p: RetryPolicy, failed: Seq<bool>)
    ensures
        readings(p, failed, 1) <= p.retries + 1,
{
    lemma_readings_bounded(p, failed, 1);
}

/// The device is reset before one retry at most.
pub proof fn law_reset_at_most_once(p: RetryPolicy, i: int, j: int)
    requires
        retry_action(p, i, true) == (RetryAction::Retry { reset: true }),
        retry_action(p, j, true) == (RetryAction::Retry { reset: true }),
    ensures
        i == j,
{
}

/// One data point of a solar inverter's day data: a timestamp and the
/// energy counter.
#[derive(Clone, Copy, Debug, PartialEq, Eq)]
pub struct TimestampedInt {
    pub timestamp: u32,
    pub value: u32,
}

/// The value an inverter reports for a missing reading.
pub open spec fn is_sma_nan(value: u32) -> bool {
    value == 0xFFFF_FFFFu32
}

/// A day data point is stored unless it repeats the newest stored record
/// or carries no reading.
pub open spec fn keep_point(p: TimestampedInt, last_timestamp: i64) -> bool {
    p.timestamp as int != last_timestamp as int && !is_sma_nan(p.value)
}

/// The day data points that are new and carry a reading, in their order.
pub fn filter_day_data(points: Vec<TimestampedInt>, last_timestamp: i64) -> (r: Vec<
    TimestampedInt,
>)
    ensures
        r@ == points@.filter(|p: TimestampedInt| keep_point(p, last_timestamp)),
{
    let ghost pred = |p: TimestampedInt| keep_point(p, last_timestamp);
    let mut r: Vec<TimestampedInt> = Vec::new();
    let mut i: usize = 0;
    while i < points.len()
        invariant
            0 <= i <= points.len(),
            pred == (|p: TimestampedInt| keep_point(p, last_timestamp)),
            r@ == points@.take(i as int).filter(pred),
        decreases points.len() - i,
    {
        reveal_with_fuel(Seq::<_>::filter, 1);
        let p = points[i];
        if (p.timestamp as i64) != last_timestamp && p.value != 0xFFFF_FFFFu32 {
            r.push(p);
        }
        assert(points@.take(i + 1).drop_last() =~= points@.take(i as int));
        i = i + 1;
    }
    assert(points@.take(points.len() as int) =~= points@);
    r
}

/// Which kind of battery inverter a storage miner talks to.
#[derive(Clone, Copy, Debug, PartialEq, Eq)]
pub enum StorageKind {
    SunnyIsland,
    SunnyBoyStorage,
}

/// Selects the battery inverter kind by its configuration name.
pub fn storage_kind(kind: &str) -> (r: Result<StorageKind, String>)
    ensures
        kind@ == "sunny_island"@ ==> r == Ok::<StorageKind, String>(StorageKind::SunnyIsland),
        kind@ == "sunny_boy_storage"@ ==> r == Ok::<StorageKind, String>(
            StorageKind::SunnyBoyStorage,
        ),
        kind@ != "sunny_island"@ && kind@ != "sunny_boy_storage"@ ==> (r matches Err(e) && e@
            == "ArgumentError: SunnyStorageClient type "@ + kind@ + " is invalid."@),
{
    proof {
        reveal_strlit("sunny_island");
        reveal_strlit("sunny_boy_storage");
        assert("sunny_island"@.len() != "sunny_boy_storage"@.len());
    }
    if str_equal(kind, "sunny_island") {
        Ok(StorageKind::SunnyIsland)
    } else if str_equal(kind, "sunny_boy_storage") {
        Ok(StorageKind::SunnyBoyStorage)
    } else {
        let mut e = owned("ArgumentError: SunnyStorageClient type ");
        e.append(kind);
        e.append(" is invalid.");
        Err(e)
    }
}

/// What became of a query for the newest stored record.
#[derive(Clone, Copy, Debug, PartialEq, Eq)]
pub enum LastRecord {
    /// A record was found.
    Found,
    /// The series holds no record yet.
    Nothing,
    /// The query failed.
    Failed,
}

/// An event in a miner's round after its aligned sleep.
#[derive(Clone, Copy, Debug, PartialEq, Eq)]
pub enum RoundEvent {
    /// The device was read (after its retries), successfully or not.
    DeviceRead { ok: bool },
    /// The newest stored record was queried.
    LastQueried(LastRecord),
    /// The new record was written, successfully or not.
    Written { ok: bool },
}

/// What a miner does next in its round.
#[derive(Clone, Copy, Debug, PartialEq, Eq)]
pub enum RoundStep {
    /// Query the newest stored record.
    QueryLast,
    /// Compute and write the new record: from the newest stored one, or,
    /// when there is none, with its default (zero power).
    Write { from_last: bool },
}

/// The step that follows an event in a miner's round, or `None` where the
/// round ends.
pub open spec fn round_step(event: RoundEvent) -> Option<RoundStep> {
    match event {
        RoundEvent::DeviceRead { ok } => if ok {
            Some(RoundStep::QueryLast)
        } else {
            None
        },
        RoundEvent::LastQueried(LastRecord::Found) => Some(RoundStep::Write { from_last: true }),
        RoundEvent::LastQueried(LastRecord::Nothing) => Some(RoundStep::Write { from_last: false }),
        RoundEvent::LastQueried(LastRecord::Failed) => None,
        RoundEvent::Written { .. } => None,
    }
}

/// Decides a miner's next step in its round.  A failed device read or a
/// failed query ends the round with nothing written; a missing stored
/// record gives the default record; after the write, failed or not, the
/// round ends.  A round that ends gives `Running`: the miner goes on with
/// its next round, and only its sleep cancels or fails it.
pub fn next_round_step(event: RoundEvent) -> (r: Result<RoundStep, MinerResult>)
    ensures
        r matches Ok(step) ==> round_step(event) == Some(step),
        r is Err ==> round_step(event) is None && (r matches Err(MinerResult::Running)),
{
    match event {
        RoundEvent::DeviceRead { ok } => if ok {
            Ok(RoundStep::QueryLast)
        } else {
            Err(MinerResult::Running)
        },
        RoundEvent::LastQueried(LastRecord::Found) => Ok(RoundStep::Write { from_last: true }),
        RoundEvent::LastQueried(LastRecord::Nothing) => Ok(RoundStep::Write { from_last: false }),
        RoundEvent::LastQueried(LastRecord::Failed) => Err(MinerResult::Running),
        RoundEvent::Written { .. } => Err(MinerResult::Running),
    }
}

/// A miner needs at least one enabled source.
pub fn check_miners_enabled(count: usize) -> (r: Result<(), String>)
    ensures
        count > 0 <==> r is Ok,
        r matches Err(e) ==> e@ == "No miners are enabled"@,
{
    if count == 0 {
        Err(owned("No miners are enabled"))
    } else {
        Ok(())
    }
}

/// Electricity meters on a serial line must not be polled more often than
/// every five seconds.
pub fn check_sml_poll_interval(interval_secs: u64) -> (r: Result<(), String>)
    ensures
        interval_secs >= 5 <==> r is Ok,
        r matches Err(e) ==> e@ == "SmlMeterMiner:poll_interval must be >= 5"@,
{
    if interval_secs < 5 {
        Err(owned("SmlMeterMiner:poll_interval must be >= 5"))
    } else {
        Ok(())
    }
}

/// Power, in watts, recorded for a combined heat and power unit: the unit
/// counts as running at its nominal 800 W when its runtime counter moved
/// since the last record, and idle when it did not or when there is no
/// record yet.
pub fn generator_power_w(runtime: i32, last_runtime: Option<i32>) -> (r: i32)
    ensures
        r == (if last_runtime matches Some(l) && l != runtime {
            800i32
        } else {
            0i32
        }),
{
    match last_runtime {
        Some(l) => if l != runtime {
            800
        } else {
            0
        },
        None => 0,
    }
}

} // verus!
