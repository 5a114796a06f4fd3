use vstd::prelude::*;
use vstd::string::StringExecFns;
use vstd::string::StringSliceAdditionalSpecFns;

use crate::text::{owned, str_equal, string_from_chars};

verus! {

/// Whether an appliance is forced on, forced off or left to automatic
/// control.
#[derive(Clone, Copy, Debug, PartialEq, Eq)]
pub enum TriState {
    Off,
    On,
    Auto,
}

/// Reads an appliance.
pub struct Appliance {
    /// References the appliance.
    pub id: i32,
    /// If the appliance is forced on/off or in automatic mode.
    pub force_on_off: TriState,
    /// Name of the appliance.
    pub name: String,
}

impl Appliance {
    /// An appliance in automatic mode.
    pub fn new(id: i32, name: String) -> (r: Self)
        ensures
            r.id == id,
            r.force_on_off == TriState::Auto,
            r.name == name,
    {
        Self { id, force_on_off: TriState::Auto, name }
    }
}

/// Controls an appliance.
pub struct InputAppliance {
    /// References the appliance.
    pub id: i32,
    /// If the appliance is forced on/off or in automatic mode.
    pub force_on_off: TriState,
}

/// Reads the grid mode.
pub struct LoadControl {
    /// If the grid charge mode is enabled.
    pub charge_mode: bool,
    /// Displayed name.
    pub name: String,
}

impl LoadControl {
    /// A load control with grid charging disabled.
    pub fn new(name: String) -> (r: Self)
        ensures
            !r.charge_mode,
            r.name == name,
    {
        Self { charge_mode: false, name }
    }
}

/// Controls the grid mode.
pub struct InputLoadControl {
    /// If the grid charge mode is enabled.
    pub charge_mode: bool,
}

/// Root of the read-only API.
pub struct Query;

/// Root of the API that changes state.
pub struct Mutation;

/// What `argon2::verify_encoded` answers for an encoded hash and a
/// password: `Some(matches)`, or `None` when it fails.
pub uninterp spec fn argon2_verification(encoded: Seq<char>, password: Seq<u8>) -> Option<bool>;

/// Calls `argon2::verify_encoded`, which decodes the hash string, hashes the
/// password with the decoded parameters and salt and compares the result.
/// The answer is named [`argon2_verification`]; an error is mapped to
/// `None`.
#[verifier::external_body]
fn argon2_verify_encoded(encoded: &str, password: &[u8]) -> (r: Option<bool>)
    ensures
        r == argon2_verification(encoded@, password@),
{
    argon2::verify_encoded(encoded, password).ok()
}

/// The outcome of checking login credentials.
#[derive(Clone, Copy, Debug, PartialEq, Eq)]
pub enum LoginCheck {
    /// User name and password match.
    Accepted,
    /// Wrong user name or password.
    Rejected,
    /// The stored hash could not be used to verify the password.
    VerifyFailed,
}

/// The outcome of a login attempt with `username` and a password whose
/// verification against the stored hash gave `verification`.
pub open spec fn login_check(
    username: Seq<char>,
    expected_username: Seq<char>,
    verification: Option<bool>,
) -> LoginCheck {
    if username != expected_username {
        LoginCheck::Rejected
    } else {
        match verification {
            Some(true) => LoginCheck::Accepted,
            Some(false) => LoginCheck::Rejected,
            None => LoginCheck::VerifyFailed,
        }
    }
}

impl Mutation {
    /// Checks login credentials: the user name must be the configured one,
    /// and only then is the password verified against the stored argon2
    /// hash.
    pub fn check_login(username: &str, password: &str, expected_username: &str, hashed_pw: &str) -> (r:
        LoginCheck)
        ensures
            r == login_check(
                username@,
                expected_username@,
                argon2_verification(hashed_pw@, password.spec_bytes()),
            ),
    {
        if !str_equal(username, expected_username) {
            return LoginCheck::Rejected;
        }
        match argon2_verify_encoded(hashed_pw, password.as_bytes()) {
            Some(true) => LoginCheck::Accepted,
            Some(false) => LoginCheck::Rejected,
            None => LoginCheck::VerifyFailed,
        }
    }
}

impl LoginCheck {
    /// The error answered to a login that is not accepted.
    pub fn error_message(&self) -> (r: Option<String>)
        ensures
            *self == LoginCheck::Accepted ==> r is None,
            *self != LoginCheck::Accepted ==> (r matches Some(m) && m@
                == "Incorrect user or password!"@),
    {
        match self {
            LoginCheck::Accepted => None,
            _ => Some(owned("Incorrect user or password!")),
        }
    }
}

/// Where an HTTP request is served.
#[derive(Clone, Copy, Debug, PartialEq, Eq)]
pub enum Route {
    /// The interactive GraphiQL page.
    GraphiQL,
    /// The GraphQL endpoint.
    GraphQL,
    /// Nothing: answered with 404.
    NotFound,
}

/// The route of a request with the given method and path.
pub open spec fn route_of(method: Seq<char>, path: Seq<char>) -> Route {
    if method == "GET"@ && path == "/"@ {
        Route::GraphiQL
    } else if (method == "GET"@ || method == "POST"@) && path == "/graphql"@ {
        Route::GraphQL
    } else {
        Route::NotFound
    }
}

/// Routes a request by its method and path.
pub fn route(method: &str, path: &str) -> (r: Route)
    ensures
        r == route_of(method@, path@),
{
    let get = str_equal(method, "GET");
    if get && str_equal(path, "/") {
        Route::GraphiQL
    } else if (get || str_equal(method, "POST")) && str_equal(path, "/graphql") {
        Route::GraphQL
    } else {
        Route::NotFound
    }
}

/// `s` with every occurrence of `pat` removed, scanning from the left
/// without overlaps, as `str::replace(pat, "")` does.
pub open spec fn remove_all(s: Seq<char>, pat: Seq<char>) -> Seq<char>
    decreases s.len(),
{
    if pat.len() == 0 || s.len() == 0 {
        s
    } else if s.len() >= pat.len() && s.take(pat.len() as int) == pat {
        remove_all(s.skip(pat.len() as int), pat)
    } else {
        seq![s[0]] + remove_all(s.skip(1), pat)
    }
}

fn matches_at(s: &str, n: usize, i: usize, pat: &str, m: usize) -> (r: bool)
    requires
        n == s@.len(),
        m == pat@.len(),
        i <= n,
    ensures
        r == (n - i >= m && s@.skip(i as int).take(m as int) == pat@),
{
    if n - i < m {
        return false;
    }
    let mut k: usize = 0;
    while k < m
        invariant
            n == s@.len(),
            m == pat@.len(),
            i + m <= n,
            0 <= k <= m,
            forall|j: int| 0 <= j < k ==> s@[i + j] == pat@[j],
        decreases m - k,
    {
        if s.get_char(i + k) != pat.get_char(k) {
            assert(s@.skip(i as int).take(m as int)[k as int] != pat@[k as int]);
            return false;
        }
        k = k + 1;
    }
    assert(s@.skip(i as int).take(m as int) =~= pat@);
    true
}

/// Removes every occurrence of `pat` from `s`.
pub fn remove_all_of(s: &str, pat: &str) -> (r: String)
    ensures
        r@ == remove_all(s@, pat@),
{
    let n = s.unicode_len();
    let m = pat.unicode_len();
    if m == 0 {
        return owned(s);
    }
    let mut out: Vec<char> = Vec::new();
    let mut i: usize = 0;
    assert(s@.skip(0) =~= s@);
    assert(out@ + remove_all(s@, pat@) =~= remove_all(s@, pat@));
    while i < n
        invariant
            n == s@.len(),
            m == pat@.len(),
            m > 0,
            0 <= i <= n,
            out@ + remove_all(s@.skip(i as int), pat@) == remove_all(s@, pat@),
        decreases n - i,
    {
        let ghost rest = s@.skip(i as int);
        if matches_at(s, n, i, pat, m) {
            assert(rest.skip(m as int) =~= s@.skip(i + m));
            i = i + m;
        } else {
            let c = s.get_char(i);
            assert(rest.skip(1) =~= s@.skip(i + 1));
            assert(seq![rest[0]] + remove_all(rest.skip(1), pat@) == remove_all(rest, pat@));
            proof {
                assert(out@.push(c) + remove_all(rest.skip(1), pat@) =~= out@ + (seq![rest[0]]
                    + remove_all(rest.skip(1), pat@)));
            }
            out.push(c);
            i = i + 1;
        }
    }
    assert(s@.skip(n as int) =~= Seq::<char>::empty());
    assert(out@ + remove_all(s@.skip(n as int), pat@) =~= out@);
    string_from_chars(&out)
}

/// The session token of a request: the `Authorization` header (when it is
/// present and readable as text) with every `Bearer ` removed, or the empty
/// string.
pub fn session_token(authorization: Option<&str>) -> (r: String)
    ensures
        authorization matches Some(h) ==> r@ == remove_all(h@, "Bearer "@),
        authorization is None ==> r@ == Seq::<char>::empty(),
{
    match authorization {
        Some(h) => remove_all_of(h, "Bearer "),
        None => String::new(),
    }
}

} // verus!
