use vstd::prelude::*;
use vstd::string::StringExecFns;

use crate::text::{append_decimal, decimal, owned};

verus! {

/// The outcome of a query for a single record.
pub enum InfluxResult<T> {
    Nothing,
    Found(T),
    Failure(String),
}

/// Sort order of a query.
#[derive(Clone, Copy, Debug)]
pub enum InfluxOrder {
    Asc,
    Desc,
}

/// The keyword of an order.
pub open spec fn order_text(o: InfluxOrder) -> Seq<char> {
    match o {
        InfluxOrder::Asc => "ASC"@,
        InfluxOrder::Desc => "DESC"@,
    }
}

impl InfluxOrder {
    /// The keyword of the order, as it is displayed.
    pub fn as_str(&self) -> (r: &'static str)
        ensures
            r@ == order_text(*self),
    {
        match self {
            InfluxOrder::Asc => "ASC",
            InfluxOrder::Desc => "DESC",
        }
    }
}

/// `SELECT time, <fields> FROM <measurement>`
pub open spec fn select_text(fields: Seq<char>, measurement: Seq<char>) -> Seq<char> {
    "SELECT time, "@ + fields + " FROM "@ + measurement
}

/// The query for the newest record of a measurement.
pub open spec fn query_last_text(fields: Seq<char>, measurement: Seq<char>) -> Seq<char> {
    select_text(fields, measurement) + " ORDER BY DESC LIMIT 1"@
}

/// The query for the oldest record of a measurement.
pub open spec fn query_first_text(fields: Seq<char>, measurement: Seq<char>) -> Seq<char> {
    select_text(fields, measurement) + " ORDER BY ASC LIMIT 1"@
}

/// The query for the records of a measurement that match a condition.
pub open spec fn query_where_text(
    fields: Seq<char>,
    measurement: Seq<char>,
    condition: Seq<char>,
    limit: Option<u32>,
    order: InfluxOrder,
) -> Seq<char> {
    let q = select_text(fields, measurement) + " WHERE "@ + condition + " ORDER BY "@ + order_text(
        order,
    );
    match limit {
        Some(lim) => q + " LIMIT "@ + decimal(lim as nat),
        None => q,
    }
}

fn select(fields: &str, measurement: &str) -> (r: String)
    ensures
        r@ == select_text(fields@, measurement@),
{
    let mut q = owned("SELECT time, ");
    q.append(fields);
    q.append(" FROM ");
    q.append(measurement);
    q
}

/// Builds the query for the newest record of `measurement`, selecting
/// `fields` (a comma separated list).
pub fn query_last(fields: &str, measurement: &str) -> (r: String)
    ensures
        r@ == query_last_text(fields@, measurement@),
{
    let mut q = select(fields, measurement);
    q.append(" ORDER BY DESC LIMIT 1");
    q
}

/// Builds the query for the oldest record of `measurement`.
pub fn query_first(fields: &str, measurement: &str) -> (r: String)
    ensures
        r@ == query_first_text(fields@, measurement@),
{
    let mut q = select(fields, measurement);
    q.append(" ORDER BY ASC LIMIT 1");
    q
}

/// Builds the query for the records of `measurement` that satisfy
/// `condition`, in the given order and at most `limit` of them.
pub fn query_where(
    fields: &str,
    measurement: &str,
    condition: &str,
    limit: Option<u32>,
    order: InfluxOrder,
) -> (r: String)
    ensures
        r@ == query_where_text(fields@, measurement@, condition@, limit, order),
{
    let mut q = select(fields, measurement);
    q.append(" WHERE ");
    q.append(condition);
    q.append(" ORDER BY ");
    q.append(order.as_str());
    match limit {
        Some(lim) => {
            q.append(" LIMIT ");
            append_decimal(&mut q, lim as u64);
        },
        None => {},
    }
    q
}

/// Expects at most one item.
fn take_at_most_one<T>(items: Vec<T>, too_many: &str) -> (r: InfluxResult<T>)
    ensures
        items.len() > 1 ==> (r matches InfluxResult::Failure(e) && e@ == too_many@),
        items.len() == 0 ==> r is Nothing,
        items.len() == 1 ==> r == InfluxResult::Found(items@[0]),
{
    let mut items = items;
    if items.len() > 1 {
        return InfluxResult::Failure(owned(too_many));
    }
    match items.pop() {
        None => InfluxResult::Nothing,
        Some(x) => InfluxResult::Found(x),
    }
}

/// Expects at most one series in a query response.
pub fn only_series<S>(series: Vec<S>) -> (r: InfluxResult<S>)
    ensures
        series.len() > 1 ==> (r matches InfluxResult::Failure(e) && e@
            == "Received more than one series"@),
        series.len() == 0 ==> r is Nothing,
        series.len() == 1 ==> r == InfluxResult::Found(series@[0]),
{
    take_at_most_one(series, "Received more than one series")
}

/// Expects at most one value in a series.
pub fn only_value<T>(values: Vec<T>) -> (r: InfluxResult<T>)
    ensures
        values.len() > 1 ==> (r matches InfluxResult::Failure(e) && e@
            == "Received more than one value"@),
        values.len() == 0 ==> r is Nothing,
        values.len() == 1 ==> r == InfluxResult::Found(values@[0]),
{
    take_at_most_one(values, "Received more than one value")
}

/// Expects at most one record in a response made of series of values: more
/// than one series, or more than one value in the series, is an error.
pub fn single_record<T>(series: Vec<Vec<T>>) -> (r: InfluxResult<T>)
    ensures
        series.len() > 1 ==> (r matches InfluxResult::Failure(e) && e@
            == "Received more than one series"@),
        series.len() == 0 ==> r is Nothing,
        series.len() == 1 && series@[0].len() > 1 ==> (r matches InfluxResult::Failure(e) && e@
            == "Received more than one value"@),
        series.len() == 1 && series@[0].len() == 0 ==> r is Nothing,
        series.len() == 1 && series@[0].len() == 1 ==> r == InfluxResult::Found(series@[0]@[0]),
{
    match only_series(series) {
        InfluxResult::Nothing => InfluxResult::Nothing,
        InfluxResult::Failure(e) => InfluxResult::Failure(e),
        InfluxResult::Found(values) => only_value(values),
    }
}

/// `time < <now in nanoseconds>`
pub open spec fn time_before_text(now: nat) -> Seq<char> {
    "time < "@ + decimal(now * 1_000_000_000)
}

/// `time >= <past in ns> AND time < <now in ns>`
pub open spec fn time_between_text(past: nat, now: nat) -> Seq<char> {
    "time >= "@ + decimal(past * 1_000_000_000) + " AND time < "@ + decimal(now * 1_000_000_000)
}

/// The condition selecting the records before `now` (seconds since the
/// epoch); timestamps are compared in nanoseconds.
pub fn time_before(now: u64) -> (r: String)
    requires
        now * 1_000_000_000 <= u64::MAX,
    ensures
        r@ == time_before_text(now as nat),
{
    let mut q = owned("time < ");
    append_decimal(&mut q, now * 1_000_000_000);
    q
}

/// The condition selecting the records from `past` (inclusive) to `now`
/// (exclusive), both in seconds since the epoch.
pub fn time_between(past: u64, now: u64) -> (r: String)
    requires
        past * 1_000_000_000 <= u64::MAX,
        now * 1_000_000_000 <= u64::MAX,
    ensures
        r@ == time_between_text(past as nat, now as nat),
{
    let mut q = owned("time >= ");
    append_decimal(&mut q, past * 1_000_000_000);
    q.append(" AND time < ");
    append_decimal(&mut q, now * 1_000_000_000);
    q
}

} // verus!
