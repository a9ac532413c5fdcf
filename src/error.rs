use vstd::prelude::*;
use vstd::string::StringExecFns;

verus! {

/// Status code of a success-class response.
pub const STATUS_OK: u16 = 200;

/// Status code of a failure-class response.
pub const STATUS_INTERNAL_SERVER_ERROR: u16 = 500;

/// Body of the failure response built from a host error message.
pub open spec fn internal_error_body(message: Seq<char>) -> Seq<char> {
    "Internal Server Error: "@ + message
}

/// A host-level failure: the component could not be loaded, linked or
/// instantiated, or its invocation trapped. Holds the full causal message.
pub struct AppError {
    message: String,
}

/// The externally visible response: a status code and a textual body.
pub struct Response {
    pub status: u16,
    pub body: String,
}

impl View for AppError {
    type V = Seq<char>;

    closed spec fn view(&self) -> Seq<char> {
        self.message@
    }
}

impl AppError {
    /// The error's message.
    pub fn message(&self) -> (r: &str)
        ensures
            r@ == self@,
    {
        self.message.as_str()
    }

    /// The failure-class response for this error: status 500 with the
    /// message behind a fixed prefix.
    pub fn into_response(self) -> (r: Response)
        ensures
            r.status == STATUS_INTERNAL_SERVER_ERROR,
            r.body@ == internal_error_body(self@),
    {
        let prefix = String::from_str("Internal Server Error: ");
        let body = prefix.concat(self.message.as_str());
        Response { status: STATUS_INTERNAL_SERVER_ERROR, body }
    }
}

impl From<String> for AppError {
    fn from(message: String) -> (r: AppError)
        ensures
            r@ == message@,
    {
        AppError { message }
    }
}

impl vstd::std_specs::convert::FromSpecImpl<String> for AppError {
    open spec fn obeys_from_spec() -> bool {
        true
    }

    closed spec fn from_spec(message: String) -> AppError {
        AppError { message }
    }
}

} // verus!
