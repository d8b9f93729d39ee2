//! Classified errors: a closed taxonomy of failure kinds, an immutable error
//! value carrying a kind, a message and an optional wrapped cause, and a
//! builder that is the only way to obtain such a value.

use vstd::prelude::*;

verus! {

/// Domain-specific reasons scoped to the business kind.
#[derive(Clone, Copy, Debug, PartialEq, Eq, Structural)]
pub enum BizKind {
    /// The presented credential is empty, malformed, expired or wrongly signed.
    TokenInvalid,
    /// An identity was required but absent from the request-scoped context.
    ClaimsNotFound,
    /// A requested record does not exist.
    DataNotFound,
    /// A credential field failed structural validation.
    CredentialMalformed,
}

/// Top-level classification of a failure. The sub-kind is nested inside the
/// variant it belongs to, so a sub-kind can never be paired with a foreign
/// kind.
#[derive(Clone, Copy, Debug, PartialEq, Eq, Structural)]
pub enum Kind {
    /// Caller-attributable failure, with its domain-specific reason.
    BizError(BizKind),
    /// An environment or dependency this process needs is unavailable.
    InfraError,
    /// An unclassified internal fault.
    ServerError,
}

/// An immutable classified error: kind, human-readable message, and an
/// optional wrapped cause retained for internal diagnostics only.
#[derive(Debug)]
pub struct ServiceError {
    kind: Kind,
    message: String,
    cause: Option<Box<ServiceError>>,
}

/// The mathematical content of a `ServiceError`.
pub struct ErrorView {
    pub kind: Kind,
    pub message: Seq<char>,
    pub cause: Option<Box<ServiceError>>,
}

impl View for ServiceError {
    type V = ErrorView;

    closed spec fn view(&self) -> ErrorView {
        ErrorView { kind: self.kind, message: self.message@, cause: self.cause }
    }
}

/// A partially built classified error. It is not observable outside this
/// module: the only way to a usable error is `done`.
pub struct ServiceErrorBuilder {
    kind: Option<Kind>,
    message: String,
    cause: Option<Box<ServiceError>>,
}

/// The mathematical content of a `ServiceErrorBuilder`.
pub struct BuilderView {
    pub kind: Option<Kind>,
    pub message: Seq<char>,
    pub cause: Option<Box<ServiceError>>,
}

impl View for ServiceErrorBuilder {
    type V = BuilderView;

    closed spec fn view(&self) -> BuilderView {
        BuilderView { kind: self.kind, message: self.message@, cause: self.cause }
    }
}

impl ServiceError {
    /// Start building a classified error: no kind, empty message, no cause.
    pub fn build() -> (b: ServiceErrorBuilder)
        ensures
            b@.kind is None,
            b@.message =~= Seq::<char>::empty(),
            b@.cause is None,
    {
        ServiceErrorBuilder { kind: None, message: String::new(), cause: None }
    }

    /// The top-level classification of this error.
    pub fn kind(&self) -> (k: Kind)
        ensures
            k == self@.kind,
    {
        self.kind
    }

    /// The human-readable, non-sensitive message.
    pub fn message(&self) -> (m: &str)
        ensures
            m@ == self@.message,
    {
        self.message.as_str()
    }

    /// The wrapped cause, if any; for internal diagnostics only and never
    /// part of a response body.
    pub fn cause(&self) -> (c: Option<&ServiceError>)
        ensures
            c is Some <==> self@.cause is Some,
            c matches Some(e) ==> self@.cause matches Some(b) && *e == *b,
    {
        match &self.cause {
            Some(b) => Some(&**b),
            None => None,
        }
    }
}

impl ServiceErrorBuilder {
    /// Attach the required top-level kind (and, nested in it, the sub-kind).
    pub fn belong(self, kind: Kind) -> (b: Self)
        ensures
            b@.kind == Some(kind),
            b@.message == self@.message,
            b@.cause == self@.cause,
    {
        ServiceErrorBuilder { kind: Some(kind), message: self.message, cause: self.cause }
    }

    /// Attach a human-readable message.
    pub fn message(self, message: &str) -> (b: Self)
        ensures
            b@.kind == self@.kind,
            b@.message == message@,
            b@.cause == self@.cause,
    {
        ServiceErrorBuilder {
            kind: self.kind,
            message: message.to_owned(),
            cause: self.cause,
        }
    }

    /// Attach an underlying cause, wrapped opaquely. A lower-level failure
    /// must itself be classified before it is chained here, so no
    /// unclassified error ever crosses a layer boundary.
    pub fn because(self, cause: ServiceError) -> (b: Self)
        ensures
            b@.kind == self@.kind,
            b@.message == self@.message,
            b@.cause matches Some(c) && *c == cause,
    {
        ServiceErrorBuilder {
            kind: self.kind,
            message: self.message,
            cause: Some(Box::new(cause)),
        }
    }

    /// Finalize the error. A kind must have been attached: a kind-less error
    /// is a construction-time fault, never a value.
    pub fn done(self) -> (e: ServiceError)
        requires
            self@.kind is Some,
        ensures
            Some(e@.kind) == self@.kind,
            e@.message == self@.message,
            e@.cause == self@.cause,
    {
        ServiceError {
            kind: match self.kind {
                Some(k) => k,
                None => Kind::ServerError,
            },
            message: self.message,
            cause: self.cause,
        }
    }
}

} // verus!
