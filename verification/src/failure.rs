//! What is told about an operation that failed.
use vstd::prelude::*;
use vstd::string::*;

verus! {

/// A failed operation: what was attempted and, where another part of the
/// system refused it, that part's own words.
#[derive(Debug)]
pub struct Failure {
    pub context: String,
    pub cause: Option<String>,
}

/// The characters of a [`Failure`].
#[verifier::ext_equal]
pub struct FailureView {
    pub context: Seq<char>,
    pub cause: Option<Seq<char>>,
}

impl View for Failure {
    type V = FailureView;

    open spec fn view(&self) -> FailureView {
        FailureView { context: self.context@, cause: self.cause.deep_view() }
    }
}

impl DeepView for Failure {
    type V = FailureView;

    open spec fn deep_view(&self) -> FailureView {
        self@
    }
}

/// A failure with nothing behind it.
pub open spec fn plain_failure(context: Seq<char>) -> FailureView {
    FailureView { context, cause: None }
}

/// A failure that `cause` explains.
pub open spec fn caused_failure(context: Seq<char>, cause: Seq<char>) -> FailureView {
    FailureView { context, cause: Some(cause) }
}

/// The one-line text of a failure: what was attempted, then why it failed.
pub open spec fn failure_text(f: FailureView) -> Seq<char> {
    match f.cause {
        Some(cause) => f.context + ": "@ + cause,
        None => f.context,
    }
}

impl Failure {
    /// A failure with nothing behind it.
    pub fn plain(context: String) -> (r: Failure)
        ensures
            r@ == plain_failure(context@),
    {
        Failure { context, cause: None }
    }

    /// A failure that `cause` explains.
    pub fn caused(context: String, cause: String) -> (r: Failure)
        ensures
            r@ == caused_failure(context@, cause@),
    {
        Failure { context, cause: Some(cause) }
    }

    /// A copy with the same texts.
    pub fn duplicate(&self) -> (r: Failure)
        ensures
            r@ == self@,
    {
        Failure {
            context: self.context.clone(),
            cause: match &self.cause {
                Some(cause) => Some(cause.clone()),
                None => None,
            },
        }
    }

    /// The one-line text of the failure.
    pub fn text(&self) -> (r: String)
        ensures
            r@ == failure_text(self@),
    {
        match &self.cause {
            Some(cause) => self.context.clone().concat(": ").concat(cause.as_str()),
            None => self.context.clone(),
        }
    }
}

/// A failure is told as what was attempted, followed by a colon and the cause
/// where there is one.
pub proof fn law_failure_is_told_with_its_cause(context: Seq<char>, cause: Seq<char>)
    ensures
        failure_text(FailureView { context, cause: None }) == context,
        failure_text(FailureView { context, cause: Some(cause) }) == context + ": "@ + cause,
        plain_failure(context) == (FailureView { context, cause: None }),
        caused_failure(context, cause) == (FailureView { context, cause: Some(cause) }),
{
}

} // verus!
