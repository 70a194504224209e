//! Why a configuration was rejected or a dependency could not be set up.
use crate::text::joined3;
use vstd::prelude::*;

verus! {

/// A failure, told in one text.
#[derive(Debug)]
pub struct Failure {
    message: String,
}

impl View for Failure {
    type V = Seq<char>;

    closed spec fn view(&self) -> Seq<char> {
        self.message@
    }
}

/// The text of a failure after `context` was put in front of it.
pub open spec fn in_context(context: Seq<char>, message: Seq<char>) -> Seq<char> {
    context + ": "@ + message
}

impl Failure {
    /// A failure without a cause.
    pub fn new(message: String) -> (r: Failure)
        ensures
            r@ == message@,
    {
        Failure { message }
    }

    /// The text of this failure.
    pub fn message(&self) -> (r: String)
        ensures
            r@ == self@,
    {
        self.message.clone()
    }

    /// The same failure seen from a caller that says what it was doing.
    pub fn context(self, context: &str) -> (r: Failure)
        ensures
            r@ == in_context(context@, self@),
            r@ == context@ + ": "@ + self@,
    {
        Failure { message: joined3(context, ": ", self.message.as_str()) }
    }
}

} // verus!
