//! What goes back to the client: the output of a run laid out line by line,
//! and failures rendered inside the same page as successful output.

use vstd::prelude::*;
use vstd::string::{StringExecFns, StringSliceAdditionalSpecFns};

verus! {

/// The classes of failure, each with its HTTP status.
#[derive(Clone, Copy, Debug, PartialEq, Eq, Structural)]
pub enum Status {
    BadRequest,
    Unauthorized,
    NotFound,
    Internal,
}

impl Status {
    /// The HTTP status code of the class.
    pub open spec fn spec_code(self) -> u16 {
        match self {
            Status::BadRequest => 400,
            Status::Unauthorized => 401,
            Status::NotFound => 404,
            Status::Internal => 500,
        }
    }

    /// The HTTP status code of the class.
    pub fn code(self) -> (code: u16)
        ensures
            code == self.spec_code(),
    {
        match self {
            Status::BadRequest => 400,
            Status::Unauthorized => 401,
            Status::NotFound => 404,
            Status::Internal => 500,
        }
    }
}

/// A failure as the client sees it: a status and a complete body.
pub struct HttpError {
    pub status: Status,
    pub body: String,
}

/// The page that reports `message`: the page's opening, a warning paragraph
/// with the message, and the closing of the page.
pub open spec fn error_page(template: Seq<char>, message: Seq<char>) -> Seq<char> {
    template + "<p class=\"warning\">"@ + message + "</p> </div> </body> </html>"@
}

/// The message of a failure that has no better one.
pub open spec fn generic_message() -> Seq<char> {
    "Something went wrong!"@
}

/// What closes a page of output.
pub fn page_ending() -> (ending: &'static str)
    ensures
        ending@ == "</div> </body> </html>"@,
{
    "</div> </body> </html>"
}

/// A failure whose body is `message` as it stands.
pub fn plain_error(message: &str, status: Status) -> (e: HttpError)
    ensures
        e.status == status,
        e.body@ == message@,
{
    HttpError { status, body: String::from_str(message) }
}

/// A failure whose body is the page that reports `message`.
pub fn templated_error(template: &str, message: &str, status: Status) -> (e: HttpError)
    ensures
        e.status == status,
        e.body@ == error_page(template@, message@),
{
    let mut body = String::from_str(template);
    body.append("<p class=\"warning\">");
    body.append(message);
    body.append("</p> </div> </body> </html>");
    HttpError { status, body }
}

/// The answer to a path that no route matches: status 404, and the path
/// itself as the body, outside any page.
pub fn unmatched_route(path: &str) -> (e: HttpError)
    ensures
        e.status == Status::NotFound,
        e.body@ == path@,
{
    plain_error(path, Status::NotFound)
}

/// The message of every failure to start an executable. It is the same
/// whatever was asked for.
pub open spec fn spawn_failure_text() -> Seq<char> {
    "Unable to spawn executable"@
}

/// The message of every failure to start an executable.
pub fn spawn_failure_message() -> (text: &'static str)
    ensures
        text@ == spawn_failure_text(),
{
    "Unable to spawn executable"
}

/// What the client is sent where the executable could not be started: an
/// internal error whose body is the page that reports the fixed message.
pub fn spawn_failure(template: &str) -> (e: HttpError)
    ensures
        e.status == Status::Internal,
        e.body@ == error_page(template@, spawn_failure_text()),
{
    templated_error(template, spawn_failure_message(), Status::Internal)
}

/// Values that stand for "it worked, here is the result" or "it did not",
/// turned into a result whose failure is ready to be sent.
pub trait IntoHttpError<T>: Sized {
    /// The result, where there is one.
    spec fn outcome(self) -> Option<T>;

    /// Keeps the result; a failure becomes `message` with `status`.
    fn http_error(self, message: &str, status: Status) -> (r: Result<T, HttpError>)
        ensures
            match self.outcome() {
                Some(v) => r == Ok::<T, HttpError>(v),
                None => r matches Err(e) && e.status == status && e.body@ == message@,
            },
    ;

    /// Keeps the result; a failure becomes the page that reports `message`.
    fn templated_error(self, template: &str, message: &str, status: Status) -> (r: Result<
        T,
        HttpError,
    >)
        ensures
            match self.outcome() {
                Some(v) => r == Ok::<T, HttpError>(v),
                None => r matches Err(e) && e.status == status && e.body@ == error_page(
                    template@,
                    message@,
                ),
            },
    ;

    /// Keeps the result; a failure becomes the page for an internal error
    /// with the generic message.
    fn generic_error(self, template: &str) -> (r: Result<T, HttpError>)
        ensures
            match self.outcome() {
                Some(v) => r == Ok::<T, HttpError>(v),
                None => r matches Err(e) && e.status == Status::Internal && e.body@ == error_page(
                    template@,
                    generic_message(),
                ),
            },
    ;
}

impl<T> IntoHttpError<T> for Option<T> {
    open spec fn outcome(self) -> Option<T> {
        self
    }

    fn http_error(self, message: &str, status: Status) -> (r: Result<T, HttpError>) {
        match self {
            Some(v) => Ok(v),
            None => Err(plain_error(message, status)),
        }
    }

    fn templated_error(self, template: &str, message: &str, status: Status) -> (r: Result<
        T,
        HttpError,
    >) {
        match self {
            Some(v) => Ok(v),
            None => Err(templated_error(template, message, status)),
        }
    }

    fn generic_error(self, template: &str) -> (r: Result<T, HttpError>) {
        self.templated_error(template, "Something went wrong!", Status::Internal)
    }
}

impl<T, E> IntoHttpError<T> for Result<T, E> {
    open spec fn outcome(self) -> Option<T> {
        match self {
            Ok(v) => Some(v),
            Err(_) => None,
        }
    }

    fn http_error(self, message: &str, status: Status) -> (r: Result<T, HttpError>) {
        match self {
            Ok(v) => Ok(v),
            Err(_) => Err(plain_error(message, status)),
        }
    }

    fn templated_error(self, template: &str, message: &str, status: Status) -> (r: Result<
        T,
        HttpError,
    >) {
        match self {
            Ok(v) => Ok(v),
            Err(_) => Err(templated_error(template, message, status)),
        }
    }

    fn generic_error(self, template: &str) -> (r: Result<T, HttpError>) {
        self.templated_error(template, "Something went wrong!", Status::Internal)
    }
}

} // verus!
