use empowerd::influx::{
    only_series, only_value, query_first, query_last, query_where, single_record, time_before,
    time_between, InfluxOrder, InfluxResult,
};

#[test]
fn query_texts() {
    assert_eq!(
        "SELECT time, energy, power FROM solar ORDER BY DESC LIMIT 1",
        query_last("energy, power", "solar")
    );
    assert_eq!(
        "SELECT time, energy, power FROM solar ORDER BY ASC LIMIT 1",
        query_first("energy, power", "solar")
    );
    assert_eq!(
        "SELECT time, charge FROM bat WHERE time < 5 ORDER BY DESC LIMIT 1000",
        query_where("charge", "bat", "time < 5", Some(1000), InfluxOrder::Desc)
    );
    assert_eq!(
        "SELECT time, charge FROM bat WHERE x ORDER BY ASC",
        query_where("charge", "bat", "x", None, InfluxOrder::Asc)
    );
    assert_eq!(
        "SELECT time, a FROM b WHERE c ORDER BY ASC LIMIT 0",
        query_where("a", "b", "c", Some(0), InfluxOrder::Asc)
    );
    assert_eq!("ASC", InfluxOrder::Asc.as_str());
    assert_eq!("DESC", InfluxOrder::Desc.as_str());
}

#[test]
fn time_conditions_are_in_nanoseconds() {
    assert_eq!("time < 1621753443000000000", time_before(1621753443));
    assert_eq!("time < 0", time_before(0));
    assert_eq!("time >= 86400000000000 AND time < 172800000000000", time_between(86400, 172800));
}

#[test]
fn single_records() {
    assert!(matches!(single_record::<i32>(vec![]), InfluxResult::Nothing));
    assert!(matches!(single_record::<i32>(vec![vec![]]), InfluxResult::Nothing));
    assert!(matches!(single_record(vec![vec![7]]), InfluxResult::Found(7)));
    match single_record(vec![vec![1, 2]]) {
        InfluxResult::Failure(e) => assert_eq!("Received more than one value", e),
        _ => panic!("wrong outcome"),
    }
    match single_record(vec![vec![1], vec![2]]) {
        InfluxResult::Failure(e) => assert_eq!("Received more than one series", e),
        _ => panic!("wrong outcome"),
    }
    assert!(matches!(only_series(vec!["s"]), InfluxResult::Found("s")));
    assert!(matches!(only_value::<u8>(vec![]), InfluxResult::Nothing));
}
