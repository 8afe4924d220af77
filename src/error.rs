use vstd::prelude::*;
use vstd::string::*;

verus! {

#[verifier::external_type_specification]
#[verifier::external_body]
pub struct ExUrlError(url::ParseError);

/// Why a URL could not be read as the library needs it.
#[derive(Debug)]
pub enum UrlParseError {
    /// The URL parsed but lacks a path segment the caller needs.
    MissingSegment,
    /// The URL did not parse.
    Parse(url::ParseError),
}

/// Failures of the record store.
#[derive(Debug, Clone, PartialEq, Eq, Structural)]
pub enum DatabaseError {
    /// No record with the key asked for.
    NotFound,
    /// A record with the same natural key already exists.
    Conflict,
}

/// Every error an entry point of the library can report.
#[derive(Debug)]
pub enum Error {
    /// A call to the code host failed; the text says how.
    ApiError(String),
    /// A payload could not be read or written as JSON.
    JsonError(String),
    DatabaseError(DatabaseError),
    /// The chat platform answered with `ok: false`.
    SlackError(String),
    /// The code host sent something the library has no behaviour for.
    GithubError(String),
    ServerError(String),
    UrlParseError(UrlParseError),
    TemplateError(String),
    NotFoundError,
}

/// The answer to a failed request: an HTTP status and a JSON body.
#[derive(Debug)]
pub struct ErrorResponse {
    pub status: u16,
    pub body: String,
}

/// The status of each kind of failure: absent records 404, a conflicting
/// record 409, malformed input 400, an event with no designed behaviour 422,
/// a failure of the code host or the chat platform 502, and the rest 500.
pub open spec fn error_status(e: Error) -> u16 {
    match e {
        Error::NotFoundError => 404,
        Error::DatabaseError(DatabaseError::NotFound) => 404,
        Error::DatabaseError(DatabaseError::Conflict) => 409,
        Error::UrlParseError(_) => 400,
        Error::JsonError(_) => 400,
        Error::GithubError(_) => 422,
        Error::SlackError(_) => 502,
        Error::ApiError(_) => 502,
        Error::ServerError(_) => 500,
        Error::TemplateError(_) => 500,
    }
}

pub open spec fn error_message(e: Error) -> Seq<char> {
    match e {
        Error::ApiError(m) => "Api request error: "@ + m@,
        Error::JsonError(m) => "Json error: "@ + m@,
        Error::DatabaseError(DatabaseError::NotFound) => "Record not found"@,
        Error::DatabaseError(DatabaseError::Conflict) => "Record already exists"@,
        Error::SlackError(m) => "Slack Error: "@ + m@,
        Error::GithubError(m) => "Github Error: "@ + m@,
        Error::UrlParseError(_) => "Mallformed url"@,
        Error::NotFoundError => "Record not found"@,
        Error::ServerError(_) => "Something went wrong"@,
        Error::TemplateError(_) => "Something went wrong"@,
    }
}

impl Error {
    /// The message shown to the caller of a failed request.
    pub fn message(&self) -> (r: String)
        ensures
            r@ == error_message(*self),
    {
        let mut r: String;
        match self {
            Error::ApiError(e) => {
                r = String::from_str("Api request error: ");
                r.append(e.as_str());
            },
            Error::JsonError(e) => {
                r = String::from_str("Json error: ");
                r.append(e.as_str());
            },
            Error::DatabaseError(DatabaseError::NotFound) => {
                r = String::from_str("Record not found");
            },
            Error::DatabaseError(DatabaseError::Conflict) => {
                r = String::from_str("Record already exists");
            },
            Error::SlackError(e) => {
                r = String::from_str("Slack Error: ");
                r.append(e.as_str());
            },
            Error::GithubError(e) => {
                r = String::from_str("Github Error: ");
                r.append(e.as_str());
            },
            Error::UrlParseError(_) => {
                r = String::from_str("Mallformed url");
            },
            Error::NotFoundError => {
                r = String::from_str("Record not found");
            },
            Error::ServerError(_) | Error::TemplateError(_) => {
                r = String::from_str("Something went wrong");
            },
        }
        r
    }

    pub fn status(&self) -> (r: u16)
        ensures
            r == error_status(*self),
    {
        match self {
            Error::NotFoundError => 404,
            Error::DatabaseError(DatabaseError::NotFound) => 404,
            Error::DatabaseError(DatabaseError::Conflict) => 409,
            Error::UrlParseError(_) => 400,
            Error::JsonError(_) => 400,
            Error::GithubError(_) => 422,
            Error::SlackError(_) => 502,
            Error::ApiError(_) => 502,
            Error::ServerError(_) => 500,
            Error::TemplateError(_) => 500,
        }
    }

    /// The failed request's answer: the kind's status and
    /// `{ "error": "<message>" }`.
    pub fn response(&self) -> (r: ErrorResponse)
        ensures
            r.status == error_status(*self),
            400 <= r.status < 600,
            r.body@ == "{ \"error\": \""@ + crate::text::json_escaped(error_message(*self)) + "\" }"@,
    {
        let message = self.message();
        let mut body = String::from_str("{ \"error\": \"");
        crate::text::push_json_escaped(&mut body, message.as_str());
        body.append("\" }");
        ErrorResponse { status: self.status(), body }
    }
}

} // verus!
