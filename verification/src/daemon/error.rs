//! Errors of the daemon: a text that grows by context, and how the error is
//! answered.
use crate::text::joined3;
use vstd::prelude::*;

verus! {

/// How an error is reported to the client.
#[derive(Debug, Clone, Copy, PartialEq, Eq, Structural)]
pub enum ErrorClass {
    /// A failure without further meaning.
    Plain,
    /// The snapshot left the device in a state that cannot be continued.
    Terminal,
    /// The request itself was not acceptable.
    Invalid,
}

/// An error with its whole chain of causes written out.
#[derive(Debug)]
pub struct DaemonError {
    pub class: ErrorClass,
    pub message: String,
}

/// The model of an error.
#[verifier::ext_equal]
pub struct ErrorView {
    pub class: ErrorClass,
    pub message: Seq<char>,
}

impl View for DaemonError {
    type V = ErrorView;

    open spec fn view(&self) -> ErrorView {
        ErrorView { class: self.class, message: self.message@ }
    }
}

/// The error without further meaning that says `message`.
pub open spec fn plain_error(message: Seq<char>) -> ErrorView {
    ErrorView { class: ErrorClass::Plain, message }
}

/// The error `error` after `context` was put in front of it.
pub open spec fn in_context(context: Seq<char>, error: ErrorView) -> ErrorView {
    ErrorView { class: error.class, message: context + ": "@ + error.message }
}

impl DaemonError {
    /// An error without a cause.
    pub fn plain(message: String) -> (r: DaemonError)
        ensures
            r@ == plain_error(message@),
            r.class is Plain,
            r.message@ == message@,
    {
        DaemonError { class: ErrorClass::Plain, message }
    }

    /// The same error seen from a caller that says what it was doing. The
    /// class of the cause is kept.
    pub fn context(self, context: &str) -> (r: DaemonError)
        ensures
            r@ == in_context(context@, self@),
            r.class == self.class,
            r.message@ == context@ + ": "@ + self.message@,
    {
        DaemonError { class: self.class, message: joined3(context, ": ", self.message.as_str()) }
    }
}

} // verus!
