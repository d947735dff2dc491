//! The errors a runtime may report.

use vstd::prelude::*;

verus! {

/// Declares `std::io::Error`, the error the operating system reports when a
/// thread cannot be spawned, so that it may be carried by [`Error::Thread`].
#[verifier::external_type_specification]
#[verifier::external_body]
pub struct ExIoError(std::io::Error);

/// Kinds of error that might happen.
#[derive(Debug)]
pub enum Error {
    /// Something went wrong when building a worker from a context; holds the reason.
    Context(String),
    /// Something went wrong when spawning a thread.
    Thread(std::io::Error),
    /// Other kinds of error; holds their description.
    Other(String),
}

impl Error {
    /// Returns a new [`Error::Context`] from `reason`.
    pub fn context(reason: &str) -> (e: Self)
        ensures
            e matches Error::Context(r) && r@ == reason@,
    {
        Error::Context(String::from_str(reason))
    }

    /// Returns a new [`Error::Thread`].
    pub fn thread(err: std::io::Error) -> (e: Self)
        ensures
            e == Error::Thread(err),
    {
        Error::Thread(err)
    }

    /// Returns a new [`Error::Other`] from the description of some error.
    pub fn other(description: &str) -> (e: Self)
        ensures
            e matches Error::Other(d) && d@ == description@,
    {
        Error::Other(String::from_str(description))
    }

    /// Returns the human readable message of the error.
    pub fn message(&self) -> (m: String)
        ensures
            match self {
                Error::Context(reason) => m@ == "Invalid context "@ + reason@,
                Error::Thread(err) => exists|text: String|
                    #[trigger] vstd::string::to_string_from_display_ensures::<std::io::Error>(err, text)
                        && m@ == "Failed to run worker thread: "@ + text@,
                Error::Other(description) => m@ == "Failed launch worker: "@ + description@,
            },
    {
        match self {
            Error::Context(reason) => String::from_str("Invalid context ").concat(reason.as_str()),
            Error::Thread(err) => {
                let text = err.to_string();
                String::from_str("Failed to run worker thread: ").concat(text.as_str())
            },
            Error::Other(description) => String::from_str("Failed launch worker: ").concat(
                description.as_str(),
            ),
        }
    }
}

} // verus!
