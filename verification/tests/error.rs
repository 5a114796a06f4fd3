use empowerd::error::Error;

#[test]
fn error_text_is_debug_rendering() {
    assert_eq!("NotFound", Error::NotFound.to_string());
    assert_eq!("Temporary(\"db down\")", Error::Temporary("db down".to_string()).to_string());
    assert_eq!("InvalidInput(\"a \\\"b\\\"\")", Error::InvalidInput("a \"b\"".to_string()).to_string());
    assert_eq!(format!("{:?}", Error::Bug("x\ny".to_string())), Error::Bug("x\ny".to_string()).to_string());
}

#[test]
fn database_outcomes() {
    assert!(matches!(Error::from_database_outcome(true, String::new()), Error::NotFound));
    match Error::from_database_outcome(false, "timeout".to_string()) {
        Error::Temporary(s) => assert_eq!("timeout", s),
        _ => panic!("wrong variant"),
    }
}

#[test]
fn diesel_errors() {
    assert!(matches!(Error::from_diesel(diesel::result::Error::NotFound), Error::NotFound));
    match Error::from_diesel(diesel::result::Error::RollbackTransaction) {
        Error::Temporary(s) => assert_eq!(diesel::result::Error::RollbackTransaction.to_string(), s),
        _ => panic!("wrong variant"),
    }
}
