use vstd::prelude::*;
use vstd::string::StringExecFns;

use crate::builder::ErrorBuilder;
use crate::error::{compose_class, decimal_string, spec_class, spec_decimal, Error, ErrorView};
use crate::kind::ErrorKind;
use crate::value::{Details, ValueView};

verus! {

/// The definition-time binding of a per-site error type: the kind it is
/// bound to, the type's own name, and the default code and message that a
/// fresh instance resolves to. The defaults may differ from the kind's own,
/// so that several site types with different defaults can share one kind.
#[derive(Debug, Clone, Copy)]
pub struct ErrorTypeDef {
    /// The kind the site type is bound to.
    pub kind: ErrorKind,
    /// The name of the site type.
    pub name: &'static str,
    /// The default code of the site type.
    pub default_code: u16,
    /// The default message of the site type.
    pub default_message: &'static str,
}

impl ErrorTypeDef {
    /// Binds a site type to a kind, inheriting the kind's own code and
    /// description as the defaults.
    pub fn of_kind(kind: ErrorKind, name: &'static str) -> (r: ErrorTypeDef)
        ensures
            r == (ErrorTypeDef { kind, name, default_code: kind.1, default_message: kind.2 }),
    {
        ErrorTypeDef { kind, name, default_code: kind.code(), default_message: kind.description() }
    }

    /// Binds a site type to a kind, overriding the default code and keeping
    /// the kind's description.
    pub fn with_code(kind: ErrorKind, name: &'static str, code: u16) -> (r: ErrorTypeDef)
        ensures
            r == (ErrorTypeDef { kind, name, default_code: code, default_message: kind.2 }),
    {
        ErrorTypeDef { kind, name, default_code: code, default_message: kind.description() }
    }

    /// Binds a site type to a kind, overriding both the default code and the
    /// default message.
    pub fn with_code_and_message(
        kind: ErrorKind,
        name: &'static str,
        code: u16,
        message: &'static str,
    ) -> (r: ErrorTypeDef)
        ensures
            r == (ErrorTypeDef { kind, name, default_code: code, default_message: message }),
    {
        ErrorTypeDef { kind, name, default_code: code, default_message: message }
    }
}

/// The mathematical shape of a `SiteError`.
pub struct SiteErrorView {
    pub def: ErrorTypeDef,
    pub code: Option<u16>,
    pub message: Option<Seq<char>>,
    pub details: Option<Map<Seq<char>, ValueView>>,
}

/// The resolved code of a site error: its override, or else its definition's
/// default.
pub open spec fn spec_site_code(s: SiteErrorView) -> u16 {
    match s.code {
        Some(c) => c,
        None => s.def.default_code,
    }
}

/// The resolved message of a site error: its override, or else its
/// definition's default.
pub open spec fn spec_site_message(s: SiteErrorView) -> Seq<char> {
    match s.message {
        Some(m) => m,
        None => s.def.default_message@,
    }
}

/// The resolved details of a site error: its override, or else an empty map.
pub open spec fn spec_site_details(s: SiteErrorView) -> Map<Seq<char>, ValueView> {
    match s.details {
        Some(d) => d,
        None => Map::empty(),
    }
}

/// The textual rendering of a site error: `class (code): message`.
pub open spec fn spec_site_render(s: SiteErrorView) -> Seq<char> {
    spec_class(s.def.kind, s.def.name@) + " ("@ + spec_decimal(spec_site_code(s) as nat) + "): "@
        + spec_site_message(s)
}

/// An instance of a per-site error type: the definition it was minted from,
/// plus optional overrides for code, message and details, exactly as in the
/// fluent builder.
#[derive(Debug)]
pub struct SiteError {
    def: ErrorTypeDef,
    code: Option<u16>,
    message: Option<String>,
    details: Option<Details>,
}

impl View for SiteError {
    type V = SiteErrorView;

    closed spec fn view(&self) -> SiteErrorView {
        SiteErrorView {
            def: self.def,
            code: self.code,
            message: match self.message {
                Some(m) => Some(m@),
                None => None,
            },
            details: match self.details {
                Some(d) => Some(d@),
                None => None,
            },
        }
    }
}

impl SiteError {
    /// A fresh instance of the site type, with no override set.
    pub fn new(def: ErrorTypeDef) -> (r: SiteError)
        ensures
            r@ == (SiteErrorView { def, code: None, message: None, details: None }),
    {
        SiteError { def, code: None, message: None, details: None }
    }

    /// The kind the site type is bound to.
    pub fn kind(&self) -> (r: ErrorKind)
        ensures
            r == self@.def.kind,
    {
        self.def.kind
    }

    /// The resolved code: the override, or else the definition's default.
    pub fn code(&self) -> (r: u16)
        ensures
            r == spec_site_code(self@),
    {
        match self.code {
            Some(c) => c,
            None => self.def.default_code,
        }
    }

    /// Sets the code override; a later call replaces an earlier one.
    pub fn with_code(self, code: u16) -> (r: SiteError)
        ensures
            r@ == (SiteErrorView { code: Some(code), ..self@ }),
    {
        SiteError { code: Some(code), ..self }
    }

    /// The resolved message: the override, or else the definition's default.
    pub fn message(&self) -> (r: String)
        ensures
            r@ == spec_site_message(self@),
    {
        match &self.message {
            Some(m) => m.clone(),
            None => self.def.default_message.to_owned(),
        }
    }

    /// Sets the message override; a later call replaces an earlier one.
    pub fn with_message(self, message: String) -> (r: SiteError)
        ensures
            r@ == (SiteErrorView { message: Some(message@), ..self@ }),
    {
        SiteError { message: Some(message), ..self }
    }

    /// The resolved details: a copy of the override, or else an empty map.
    pub fn details(&self) -> (r: Details)
        ensures
            r@ == spec_site_details(self@),
    {
        match &self.details {
            Some(d) => d.clone(),
            None => Details::new(),
        }
    }

    /// Sets the details; a later call fully replaces an earlier map.
    pub fn with_details(self, details: Details) -> (r: SiteError)
        ensures
            r@ == (SiteErrorView { details: Some(details@), ..self@ }),
    {
        SiteError { details: Some(details), ..self }
    }

    /// The class path of the site type: side, kind name and type name.
    pub fn class(&self) -> (r: String)
        ensures
            r@ == spec_class(self@.def.kind, self@.def.name@),
    {
        compose_class(self.def.kind, self.def.name)
    }

    /// Renders the site error as `class (code): message`.
    pub fn render(&self) -> (r: String)
        ensures
            r@ == spec_site_render(self@),
    {
        let mut s = self.class();
        s.append(" (");
        let c = decimal_string(self.code());
        s.append(c.as_str());
        s.append("): ");
        let m = self.message();
        s.append(m.as_str());
        s
    }

    /// Converts into the canonical error, seeding a builder with the bound
    /// kind and the type's name and copying over the resolved code, message
    /// and details.
    pub fn to_error(self) -> (r: Error)
        ensures
            r@ == (ErrorView {
                code: spec_site_code(self@),
                class: spec_class(self@.def.kind, self@.def.name@),
                message: spec_site_message(self@),
                details: spec_site_details(self@),
            }),
    {
        let code = self.code();
        let message = self.message();
        let details = self.details();
        ErrorBuilder::new(self.def.kind, self.def.name)
            .with_code(code)
            .with_message(message)
            .with_details(details)
            .build()
    }
}

impl Clone for SiteError {
    /// Copies the instance; the copy stands for the same overrides on the
    /// same definition.
    fn clone(&self) -> (r: Self)
        ensures
            r@ == self@,
    {
        SiteError {
            def: self.def,
            code: self.code,
            message: match &self.message {
                Some(m) => Some(m.clone()),
                None => None,
            },
            details: match &self.details {
                Some(d) => Some(d.clone()),
                None => None,
            },
        }
    }
}

} // verus!
