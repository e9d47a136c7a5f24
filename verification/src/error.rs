//! The errors of the backend: those answered to users, and those of the database layer.

use sqlx::postgres::PgDatabaseError as PgError;
use vstd::prelude::*;

verus! {

/// An error answered to a user of the account routes.
#[derive(Debug)]
pub enum UserError {
    InternalError,
    AuthError,
    OAuthError(&'static str),
    CreateUserError,
}

impl UserError {
    /// The text that the error shows.
    pub open spec fn spec_text(&self) -> Seq<char> {
        match self {
            UserError::InternalError => "An internal error occurred. Please try again later."@,
            UserError::AuthError => "Invalid credentials. Please log in again."@,
            UserError::OAuthError(detail) => "Something went wrong while authenticating: "@
                + detail@,
            UserError::CreateUserError => "An error occurred while creating account."@,
        }
    }

    /// The HTTP status that answers the error.
    pub open spec fn spec_status(&self) -> u16 {
        match self {
            UserError::InternalError => 500,
            UserError::AuthError => 401,
            UserError::OAuthError(_) => 502,
            UserError::CreateUserError => 500,
        }
    }

    /// The text that the error shows.
    pub fn to_string(&self) -> (text: String)
        ensures
            text@ == self.spec_text(),
            self is InternalError ==> text@ == "An internal error occurred. Please try again later."@,
            self is AuthError ==> text@ == "Invalid credentials. Please log in again."@,
            self matches UserError::OAuthError(detail) ==> text@
                == "Something went wrong while authenticating: "@ + detail@,
            self is CreateUserError ==> text@ == "An error occurred while creating account."@,
    {
        match self {
            UserError::InternalError => String::from_str(
                "An internal error occurred. Please try again later.",
            ),
            UserError::AuthError => String::from_str("Invalid credentials. Please log in again."),
            UserError::OAuthError(detail) => {
                let mut text = String::from_str("Something went wrong while authenticating: ");
                text.append(detail);
                text
            },
            UserError::CreateUserError => String::from_str(
                "An error occurred while creating account.",
            ),
        }
    }

    /// The HTTP status code that answers the error.
    pub fn status_code(&self) -> (code: u16)
        ensures
            code == self.spec_status(),
            self is InternalError ==> code == 500,
            self is AuthError ==> code == 401,
            self is OAuthError ==> code == 502,
            self is CreateUserError ==> code == 500,
    {
        match self {
            UserError::InternalError => 500,
            UserError::AuthError => 401,
            UserError::OAuthError(_) => 502,
            UserError::CreateUserError => 500,
        }
    }
}

/// The status answering a user error depends on its variant alone, never on an
/// authentication failure's detail: server failures (internal, account creation)
/// are 500, bad credentials 401, and a failing authentication provider 502.
pub proof fn law_status_depends_on_variant(detail: &'static str, other_detail: &'static str)
    ensures
        UserError::OAuthError(detail).spec_status() == 502,
        UserError::OAuthError(detail).spec_status() == UserError::OAuthError(other_detail).spec_status(),
        UserError::InternalError.spec_status() == 500,
        UserError::CreateUserError.spec_status() == 500,
        UserError::AuthError.spec_status() == 401,
{
}

/// An authentication failure's text is the fixed lead followed by its whole
/// detail: it ends with the detail and is longer than it by the lead's length.
pub proof fn law_oauth_text_holds_detail(detail: &'static str)
    ensures
        ({
            let text = UserError::OAuthError(detail).spec_text();
            let lead = "Something went wrong while authenticating: "@;
            &&& text.len() == lead.len() + detail@.len()
            &&& text.subrange(0, lead.len() as int) == lead
            &&& text.subrange(lead.len() as int, text.len() as int) == detail@
        }),
{
    let text = UserError::OAuthError(detail).spec_text();
    let lead = "Something went wrong while authenticating: "@;
    assert(text =~= lead + detail@);
    assert(text.subrange(0, lead.len() as int) =~= lead);
    assert(text.subrange(lead.len() as int, text.len() as int) =~= detail@);
}

#[verifier::external_type_specification]
#[verifier::external_body]
pub struct ExSqlxError(sqlx::Error);

#[verifier::external_type_specification]
#[verifier::external_body]
pub struct ExPgDatabaseError(PgError);

/// A failure at the database layer.
#[derive(Debug)]
pub enum DbError {
    /// Not found.
    NotFound,
    /// Conflict.
    Conflict,
    /// Connection error.
    ConnectionError,
    /// An error that Postgres reported.
    PgDatabaseError(Box<PgError>),
    /// Other error.
    Other(sqlx::Error),
}

/// What a driver error turned out to be, told apart by its variant and, for an
/// error that the database returned, by whether Postgres reported it.
#[derive(Debug)]
pub enum SqlxErrorCase {
    /// The query returned no row where one was expected.
    RowNotFound,
    /// Communicating with the database failed.
    Io,
    /// Postgres reported the error.
    Postgres(Box<PgError>),
    /// Another database returned the error.
    OtherDatabase(sqlx::Error),
    /// Any other driver error.
    Other(sqlx::Error),
}

/// The class of a driver error, and for a Postgres error its primary message.
/// The class is 0 when no row was found, 1 for an I/O failure, 2 for an error
/// that Postgres reported, 3 for an error that another database returned, 4 for
/// any other error. Both are fixed by the error's value: its variant and, for
/// `Error::Database`, the boxed database error (its runtime type, and for a
/// Postgres error the message it holds).
pub uninterp spec fn driver_error_class(error: sqlx::Error) -> (u8, Seq<char>);

/// The primary message of a Postgres error, which its `Display` writes.
pub uninterp spec fn pg_error_message(error: sqlx::postgres::PgDatabaseError) -> Seq<char>;

/// Tells the variants of `sqlx::Error` apart, and for `Error::Database` calls
/// `try_downcast::<PgDatabaseError>` on the boxed database error. Claimed: the case
/// is the one of `driver_error_class`, a Postgres error keeps the message that the
/// class records, and the error handed back in
/// `OtherDatabase` and `Other` is the one given (moved through unchanged, or
/// rebuilt as `Error::Database` around the same box that `try_downcast` hands back
/// on failure).
#[verifier::external_body]
fn classify_sqlx_error(error: sqlx::Error) -> (case: SqlxErrorCase)
    ensures
        (case is RowNotFound) == (driver_error_class(error).0 == 0),
        (case is Io) == (driver_error_class(error).0 == 1),
        (case is Postgres) == (driver_error_class(error).0 == 2),
        (case is OtherDatabase) == (driver_error_class(error).0 == 3),
        (case is Other) == (driver_error_class(error).0 == 4),
        case matches SqlxErrorCase::Postgres(postgres) ==> pg_error_message(*postgres)
            == driver_error_class(error).1,
        case matches SqlxErrorCase::OtherDatabase(kept) ==> kept == error,
        case matches SqlxErrorCase::Other(kept) ==> kept == error,
{
    match error {
        sqlx::Error::RowNotFound => SqlxErrorCase::RowNotFound,
        sqlx::Error::Io(_) => SqlxErrorCase::Io,
        sqlx::Error::Database(database) => match database.try_downcast::<PgError>() {
            Ok(postgres) => SqlxErrorCase::Postgres(postgres),
            Err(database) => SqlxErrorCase::OtherDatabase(sqlx::Error::Database(database)),
        },
        other => SqlxErrorCase::Other(other),
    }
}

/// The text that `Display` gives a `sqlx::Error` (`format!("{}", error)`). Nothing
/// is claimed of it: some variants print the text of a wrapped error, such as an
/// operating-system message, which need not be the same on every machine.
#[verifier::external_body]
fn sqlx_error_text(error: &sqlx::Error) -> (text: String) {
    format!("{}", error)
}

/// The text that `Display` gives a `PgDatabaseError`: it writes the error's
/// primary message (`format!("{}", error)`).
#[verifier::external_body]
fn pg_error_text(error: &PgError) -> (text: String)
    ensures
        text@ == pg_error_message(*error),
{
    format!("{}", error)
}

impl DbError {
    /// The failure that a classified driver error stands for.
    pub open spec fn spec_from_case(case: SqlxErrorCase) -> DbError {
        match case {
            SqlxErrorCase::RowNotFound => DbError::NotFound,
            SqlxErrorCase::Io => DbError::ConnectionError,
            SqlxErrorCase::Postgres(postgres) => DbError::PgDatabaseError(postgres),
            SqlxErrorCase::OtherDatabase(error) => DbError::Other(error),
            SqlxErrorCase::Other(error) => DbError::Other(error),
        }
    }

    /// Maps a classified driver error to a database-layer failure.
    pub fn from_case(case: SqlxErrorCase) -> (error: DbError)
        ensures
            error == DbError::spec_from_case(case),
    {
        match case {
            SqlxErrorCase::RowNotFound => DbError::NotFound,
            SqlxErrorCase::Io => DbError::ConnectionError,
            SqlxErrorCase::Postgres(postgres) => DbError::PgDatabaseError(postgres),
            SqlxErrorCase::OtherDatabase(error) => DbError::Other(error),
            SqlxErrorCase::Other(error) => DbError::Other(error),
        }
    }

    /// Converts a driver error: no row is `NotFound`, an I/O failure is
    /// `ConnectionError`, an error that Postgres reported is kept as
    /// `PgDatabaseError`, and anything else is kept, unchanged, as `Other`.
    /// Which of these applies is the driver error's class (`driver_error_class`).
    pub fn from(error: sqlx::Error) -> (converted: DbError)
        ensures
            (converted is NotFound) == (driver_error_class(error).0 == 0),
            (converted is ConnectionError) == (driver_error_class(error).0 == 1),
            (converted is PgDatabaseError) == (driver_error_class(error).0 == 2),
            converted matches DbError::PgDatabaseError(postgres) ==> pg_error_message(*postgres)
                == driver_error_class(error).1,
            driver_error_class(error).0 == 3 || driver_error_class(error).0 == 4 ==> (converted
                matches DbError::Other(kept) && kept == error),
            !(converted is Conflict),
            converted matches DbError::Other(kept) ==> kept == error,
    {
        let case = classify_sqlx_error(error);
        DbError::from_case(case)
    }

    /// Whether the failure is `NotFound`.
    pub fn is_not_found(&self) -> (found: bool)
        ensures
            found == (self is NotFound),
    {
        match self {
            DbError::NotFound => true,
            _ => false,
        }
    }

    /// The text that the failure shows. For a Postgres error it is `postgres error: `
    /// followed by the error's message; for `Other` it is the driver error's own
    /// text, of which nothing is claimed.
    pub fn to_string(&self) -> (text: String)
        ensures
            self is NotFound ==> text@ == "entity not found"@,
            self is Conflict ==> text@ == "entity already exists"@,
            self is ConnectionError ==> text@ == "could not connect to database"@,
            self matches DbError::PgDatabaseError(postgres) ==> text@ == "postgres error: "@
                + pg_error_message(**postgres),
    {
        match self {
            DbError::NotFound => String::from_str("entity not found"),
            DbError::Conflict => String::from_str("entity already exists"),
            DbError::ConnectionError => String::from_str("could not connect to database"),
            DbError::PgDatabaseError(postgres) => {
                let mut text = String::from_str("postgres error: ");
                let detail = pg_error_text(postgres);
                text.append(detail.as_str());
                text
            },
            DbError::Other(error) => sqlx_error_text(error),
        }
    }
}

} // verus!
