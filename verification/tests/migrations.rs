use empowerd::error::Error;
use empowerd::migrations::{
    accumulate_rain, batch_windows, check_influx_settings, check_result, rain_acc_next,
    rain_acc_start, series_failure_message, series_table, BatchVerdict, SeriesTable, SourceKind,
};

#[test]
fn rain_accumulation() {
    assert_eq!(Some(300), rain_acc_start(0, Some(300)));
    assert_eq!(Some(0), rain_acc_start(0, None));
    assert_eq!(None, rain_acc_start(5, Some(300)));
    assert_eq!(1200, rain_acc_next(1000, Some(300), Some(500)));
    // The daily counter was reset: its new value is new rain.
    assert_eq!(1100, rain_acc_next(1000, Some(500), Some(100)));
    assert_eq!(1000, rain_acc_next(1000, None, None));
    let accs = accumulate_rain(1000, Some(300), &vec![Some(500), Some(500), Some(100), None, Some(50)]);
    assert_eq!(vec![1200, 1200, 1300, 1300, 1350], accs);
}

#[test]
fn rain_accumulation_near_the_limit() {
    let start = i64::MAX - 400;
    assert_eq!(vec![i64::MAX - 200, i64::MAX], accumulate_rain(start, Some(0), &vec![Some(200), Some(400)]));
    assert_eq!(i64::MIN + 5, rain_acc_next(i64::MIN, Some(10), Some(5)));
}

#[test]
fn charge_migration_batches() {
    assert_eq!(vec![(0, 86400), (86400, 100000)], batch_windows(0, 100000));
    assert_eq!(vec![(0, 86400), (86400, 172800), (172800, 172800)], batch_windows(0, 172800));
    assert_eq!(vec![(10, 5)], batch_windows(10, 5));
    assert_eq!(vec![(7, 7)], batch_windows(7, 7));
}

#[test]
fn batch_verdicts() {
    assert!(matches!(check_result(Ok(5), 5, false), BatchVerdict::Complete));
    match check_result(Ok(4), 5, true) {
        BatchVerdict::Skipped(e) => assert_eq!("Could not insert all records", e),
        _ => panic!("wrong verdict"),
    }
    match check_result(Ok(4), 5, false) {
        BatchVerdict::Aborted(e) => assert_eq!("Could not insert all records", e),
        _ => panic!("wrong verdict"),
    }
    match check_result(Err(Error::NotFound), 5, true) {
        BatchVerdict::Skipped(e) => assert_eq!("NotFound", e),
        _ => panic!("wrong verdict"),
    }
    match check_result(Err(Error::Temporary("t".to_string())), 5, false) {
        BatchVerdict::Aborted(e) => assert_eq!("Temporary(\"t\")", e),
        _ => panic!("wrong verdict"),
    }
}

#[test]
fn postgres_migration_choices() {
    assert_eq!(None, series_table(SourceKind::Debug));
    assert_eq!(Some(SeriesTable::Battery), series_table(SourceKind::SunnyIsland));
    assert_eq!(Some(SeriesTable::Battery), series_table(SourceKind::SunnyBoyStorage));
    assert_eq!(Some(SeriesTable::SimpleMeter), series_table(SourceKind::KeContact));
    assert_eq!(Some(SeriesTable::Generator), series_table(SourceKind::DachsMsrS));
    assert_eq!(Some(SeriesTable::Heatpump), series_table(SourceKind::LambdaHeatPump));
    assert_eq!(Some(SeriesTable::BidirectionalMeter), series_table(SourceKind::SmlMeter));
    assert_eq!(Some(SeriesTable::Weather), series_table(SourceKind::Bresser6in1));
    assert_eq!(Ok(()), check_influx_settings(true));
    assert_eq!(Err("Missing 'influx' settings in config file".to_string()), check_influx_settings(false));
    assert_eq!(
        "Migration of series 'meter' finished with error: timeout",
        series_failure_message("meter", "timeout")
    );
}
