use vstd::prelude::*;

use crate::error::{compose_class, spec_class, Error, ErrorView};
use crate::kind::ErrorKind;
use crate::value::{Details, ValueView};

verus! {

/// The mathematical shape of an `ErrorBuilder`.
pub struct ErrorBuilderView {
    pub kind: ErrorKind,
    pub code: Option<u16>,
    pub name: Seq<char>,
    pub message: Option<Seq<char>>,
    pub details: Map<Seq<char>, ValueView>,
}

/// What `build` produces from a builder: each override takes precedence over
/// the kind's default, the class is composed from the side, the kind name and
/// the site name, and the details are whatever the builder holds, an empty
/// map when never set.
pub open spec fn spec_build(b: ErrorBuilderView) -> ErrorView {
    ErrorView {
        code: match b.code {
            Some(c) => c,
            None => b.kind.1,
        },
        class: spec_class(b.kind, b.name),
        message: match b.message {
            Some(m) => m,
            None => b.kind.2@,
        },
        details: b.details,
    }
}

/// A fluent constructor for `Error`: a required kind and site name, plus
/// optional overrides for code, message and details.
#[derive(Debug)]
pub struct ErrorBuilder {
    kind: ErrorKind,
    code: Option<u16>,
    name: String,
    message: Option<String>,
    details: Details,
}

impl View for ErrorBuilder {
    type V = ErrorBuilderView;

    closed spec fn view(&self) -> ErrorBuilderView {
        ErrorBuilderView {
            kind: self.kind,
            code: self.code,
            name: self.name@,
            message: match self.message {
                Some(m) => Some(m@),
                None => None,
            },
            details: self.details@,
        }
    }
}

impl ErrorBuilder {
    /// Starts a builder for the given kind and site name; no override is set.
    pub fn new(kind: ErrorKind, name: &str) -> (r: ErrorBuilder)
        ensures
            r@ == (ErrorBuilderView {
                kind,
                code: None,
                name: name@,
                message: None,
                details: Map::empty(),
            }),
    {
        ErrorBuilder {
            kind,
            name: name.to_owned(),
            code: None,
            message: None,
            details: Details::new(),
        }
    }

    /// Sets the code override; a later call replaces an earlier one.
    pub fn with_code(self, code: u16) -> (r: ErrorBuilder)
        ensures
            r@ == (ErrorBuilderView { code: Some(code), ..self@ }),
    {
        ErrorBuilder { code: Some(code), ..self }
    }

    /// Sets the message override; a later call replaces an earlier one.
    pub fn with_message(self, message: String) -> (r: ErrorBuilder)
        ensures
            r@ == (ErrorBuilderView { message: Some(message@), ..self@ }),
    {
        ErrorBuilder { message: Some(message), ..self }
    }

    /// Sets the details; a later call fully replaces an earlier map, it does
    /// not merge the two.
    pub fn with_details(self, details: Details) -> (r: ErrorBuilder)
        ensures
            r@ == (ErrorBuilderView { details: details@, ..self@ }),
    {
        ErrorBuilder { details, ..self }
    }

    /// Builds the error: overrides take precedence, unset fields fall back to
    /// the kind's defaults. Building always succeeds.
    pub fn build(self) -> (r: Error)
        ensures
            r@ == spec_build(self@),
    {
        let ErrorBuilder { kind, code, name, message, details } = self;
        let resolved_code = match code {
            Some(c) => c,
            None => kind.code(),
        };
        let class = compose_class(kind, name.as_str());
        let resolved_message = match message {
            Some(m) => m,
            None => kind.description().to_owned(),
        };
        Error::new(resolved_code, class, resolved_message, details)
    }
}

impl Clone for ErrorBuilder {
    /// Copies the builder; the copy stands for the same construction state.
    fn clone(&self) -> (r: Self)
        ensures
            r@ == self@,
    {
        ErrorBuilder {
            kind: self.kind,
            code: self.code,
            name: self.name.clone(),
            message: match &self.message {
                Some(m) => Some(m.clone()),
                None => None,
            },
            details: self.details.clone(),
        }
    }
}

impl Default for ErrorBuilder {
    /// The fallback builder: the internal-server-error kind under the site
    /// name `UnknownError`, with no override set.
    fn default() -> (r: Self)
        ensures
            r@.kind.0@ == "InternalServerError"@,
            r@.kind.1 == 500,
            r@.kind.2@ == "Internal Server Error"@,
            r@.code is None,
            r@.message is None,
            r@.name == "UnknownError"@,
            r@.details == Map::<Seq<char>, ValueView>::empty(),
    {
        ErrorBuilder::new(
            ErrorKind("InternalServerError", 500, "Internal Server Error"),
            "UnknownError",
        )
    }
}

} // verus!
