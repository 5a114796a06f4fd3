use empowerd::graphql::{
    remove_all_of, route, session_token, Appliance, LoadControl, LoginCheck, Mutation, Route,
    TriState,
};

const HASH: &str = "$argon2i$v=19$m=4096,t=3,p=1$c29tZXNhbHQ$iWh06vD8Fy27wf9npn6FXWiCX4K6pW6Ue1Bnzz07Z8A";

#[test]
fn new_objects() {
    let a = Appliance::new(3, "boiler".to_string());
    assert_eq!(3, a.id);
    assert_eq!(TriState::Auto, a.force_on_off);
    assert_eq!("boiler", a.name);
    let l = LoadControl::new("grid".to_string());
    assert!(!l.charge_mode);
    assert_eq!("grid", l.name);
}

#[test]
fn login_checks() {
    assert_eq!(LoginCheck::Accepted, Mutation::check_login("admin", "password", "admin", HASH));
    assert_eq!(LoginCheck::Rejected, Mutation::check_login("admin", "wrong", "admin", HASH));
    assert_eq!(LoginCheck::Rejected, Mutation::check_login("root", "password", "admin", HASH));
    assert_eq!(LoginCheck::VerifyFailed, Mutation::check_login("admin", "password", "admin", "garbage"));
    assert_eq!(None, LoginCheck::Accepted.error_message());
    assert_eq!(Some("Incorrect user or password!".to_string()), LoginCheck::Rejected.error_message());
}

#[test]
fn routes() {
    assert_eq!(Route::GraphiQL, route("GET", "/"));
    assert_eq!(Route::GraphQL, route("GET", "/graphql"));
    assert_eq!(Route::GraphQL, route("POST", "/graphql"));
    assert_eq!(Route::NotFound, route("POST", "/"));
    assert_eq!(Route::NotFound, route("GET", "/other"));
    assert_eq!(Route::NotFound, route("PUT", "/graphql"));
}

#[test]
fn session_tokens() {
    assert_eq!("abc", session_token(Some("Bearer abc")));
    assert_eq!("abc", session_token(Some("abc")));
    assert_eq!("", session_token(None));
    assert_eq!("xy", session_token(Some("Bearer xBearer y")));
    assert_eq!("BeareBearer x", remove_all_of("BeareBearer Bearer x", "Bearer ").replace("x", "Bearer x"));
    assert_eq!("Bearer ".replace("Bearer ", ""), remove_all_of("Bearer ", "Bearer "));
    assert_eq!("aaa".replace("aa", ""), remove_all_of("aaa", "aa"));
}
