use empowerd::csvimport::{parse_record_timestamp, parse_reset_flag, parse_solar_record};
use empowerd::miner::TimestampedInt;

#[test]
fn solar_records() {
    assert_eq!(
        Ok(TimestampedInt { timestamp: 1577836500, value: 1234 }),
        parse_solar_record("31.12.2019 23:55:00", "1,234")
    );
    assert_eq!(
        Ok(TimestampedInt { timestamp: 0, value: 5 }),
        parse_solar_record("01.01.1970 00:00:00", "5")
    );
}

#[test]
fn solar_record_errors() {
    let e = parse_solar_record("31.12.2019 23:55:00", "12a").unwrap_err();
    assert_eq!(format!("Can't parse energy 12a, {}", "12a".parse::<u32>().unwrap_err()), e);
    let e = parse_solar_record("2019-12-31", "1").unwrap_err();
    assert!(e.starts_with("Can't parse timestamp 2019-12-31, "));
}

#[test]
fn record_timestamps() {
    assert_eq!(Ok(1577836500), parse_record_timestamp("31.12.2019 23:55:00"));
    assert_eq!(Ok(0), parse_record_timestamp("01.01.1970 00:00:00"));
    let e = parse_record_timestamp("31.12.2019").unwrap_err();
    assert!(e.starts_with("Can't parse timestamp 31.12.2019, "));
    assert!(e.len() > "Can't parse timestamp 31.12.2019, ".len());
}

#[test]
fn reset_flags() {
    assert!(parse_reset_flag("true"));
    assert!(!parse_reset_flag("false"));
    assert!(!parse_reset_flag("True"));
    assert!(!parse_reset_flag(""));
}

#[test]
fn solar_energy_numbers() {
    assert_eq!(
        Ok(TimestampedInt { timestamp: 0, value: 12 }),
        parse_solar_record("01.01.1970 00:00:00", "+1,2")
    );
    assert_eq!(
        Ok(TimestampedInt { timestamp: 0, value: 4294967295 }),
        parse_solar_record("01.01.1970 00:00:00", "4,294,967,295")
    );
    let e = parse_solar_record("01.01.1970 00:00:00", "4294967296").unwrap_err();
    assert_eq!(format!("Can't parse energy 4294967296, {}", "4294967296".parse::<u32>().unwrap_err()), e);
    let e = parse_solar_record("01.01.1970 00:00:00", "").unwrap_err();
    assert_eq!(format!("Can't parse energy , {}", "".parse::<u32>().unwrap_err()), e);
}
