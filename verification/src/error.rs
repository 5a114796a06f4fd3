use vstd::prelude::*;
use vstd::string::StringExecFns;
use diesel::result::Error as DieselError;

verus! {

/// The error kinds of the library.
#[derive(Clone, Debug)]
pub enum Error {
    NotFound,
    Canceled(String),
    Bug(String),
    Temporary(String),
    System(String),
    InvalidInput(String),
}

#[verifier::external_type_specification]
#[verifier::external_body]
pub struct ExDieselError(DieselError);

/// What `format!("{:?}", s)` gives for a string slice: the text in double
/// quotes with its special characters escaped.
pub uninterp spec fn debug_quoted(s: Seq<char>) -> Seq<char>;

/// Formats a string slice with its `Debug` implementation.  The result is
/// named [`debug_quoted`]; the escaping rules of std are not restated here.
#[verifier::external_body]
fn debug_quote(s: &str) -> (r: String)
    ensures
        r@ == debug_quoted(s@),
{
    format!("{:?}", s)
}

/// Whether a diesel error is its `NotFound` variant (a missing row).
pub uninterp spec fn diesel_not_found(e: DieselError) -> bool;

/// What diesel's `Display` implementation renders for an error: for
/// `NotFound` the text `Record not found`, for a database error the
/// database's message, and so on for the other variants.
pub uninterp spec fn diesel_error_display(e: DieselError) -> Seq<char>;

/// Tells whether a diesel error is the `NotFound` variant, by matching on
/// it.  The answer is named [`diesel_not_found`].
#[verifier::external_body]
fn diesel_error_is_not_found(e: &DieselError) -> (r: bool)
    ensures
        r == diesel_not_found(*e),
{
    matches!(e, DieselError::NotFound)
}

/// Renders a diesel error with its `Display` implementation (through
/// `ToString::to_string`).  The text is named [`diesel_error_display`].
#[verifier::external_body]
fn diesel_error_text(e: &DieselError) -> (r: String)
    ensures
        r@ == diesel_error_display(*e),
{
    e.to_string()
}

/// The text of an error: its `Debug` rendering, a variant name followed by
/// the quoted message in brackets.
pub open spec fn error_text(e: Error) -> Seq<char> {
    match e {
        Error::NotFound => "NotFound"@,
        Error::Canceled(s) => "Canceled("@ + debug_quoted(s@) + ")"@,
        Error::Bug(s) => "Bug("@ + debug_quoted(s@) + ")"@,
        Error::Temporary(s) => "Temporary("@ + debug_quoted(s@) + ")"@,
        Error::System(s) => "System("@ + debug_quoted(s@) + ")"@,
        Error::InvalidInput(s) => "InvalidInput("@ + debug_quoted(s@) + ")"@,
    }
}

fn variant_text(prefix: &str, msg: &String) -> (r: String)
    ensures
        r@ == prefix@ + debug_quoted(msg@) + ")"@,
{
    let mut r = String::from_str(prefix);
    let q = debug_quote(msg.as_str());
    r.append(q.as_str());
    r.append(")");
    r
}

impl Error {
    /// The text of the error, as `to_string` gives it.
    pub fn to_string(&self) -> (r: String)
        ensures
            r@ == error_text(*self),
    {
        match self {
            Error::NotFound => {
                String::from_str("NotFound")
            },
            Error::Canceled(s) => variant_text("Canceled(", s),
            Error::Bug(s) => variant_text("Bug(", s),
            Error::Temporary(s) => variant_text("Temporary(", s),
            Error::System(s) => variant_text("System(", s),
            Error::InvalidInput(s) => variant_text("InvalidInput(", s),
        }
    }

    /// Maps what is known of a database error to an error of the library:
    /// a missing row is `NotFound`, anything else is `Temporary`, carrying
    /// the database's message.
    pub fn from_database_outcome(not_found: bool, text: String) -> (r: Error)
        ensures
            not_found ==> r == Error::NotFound,
            !not_found ==> r == Error::Temporary(text),
    {
        if not_found {
            Error::NotFound
        } else {
            Error::Temporary(text)
        }
    }

    /// Converts a diesel error: `NotFound` for diesel's `NotFound`, else
    /// `Temporary` with the error's display text.
    pub fn from_diesel(e: DieselError) -> (r: Error)
        ensures
            r is NotFound <==> diesel_not_found(e),
            !diesel_not_found(e) ==> (r matches Error::Temporary(t) && t@ == diesel_error_display(e)),
    {
        let not_found = diesel_error_is_not_found(&e);
        let text = diesel_error_text(&e);
        Error::from_database_outcome(not_found, text)
    }
}

} // verus!
