use vstd::prelude::*;

verus! {

/// A categorized error kind: an identifying name, a numeric status code, and
/// a default human-readable description. Kinds are immutable values compared
/// by their fields; many call sites may share one kind.
#[derive(Debug, Clone, Copy)]
pub struct ErrorKind(
    /// The unique identifier (name) of the kind.
    pub &'static str,
    /// The numeric status code of the kind.
    pub u16,
    /// The default human-readable description of the kind.
    pub &'static str,
);

/// The side that a numeric code classifies to: codes up to 499 are client
/// errors, codes of 500 and above are server errors. This is the single
/// classification rule used wherever class strings are composed.
pub open spec fn spec_side(code: u16) -> Seq<char> {
    if code <= 499 {
        "Client"@
    } else {
        "Server"@
    }
}

impl ErrorKind {
    /// Returns the name of the kind.
    pub fn name(&self) -> (r: &'static str)
        ensures
            r == self.0,
    {
        self.0
    }

    /// Returns the numeric code of the kind.
    pub fn code(&self) -> (r: u16)
        ensures
            r == self.1,
    {
        self.1
    }

    /// Returns the default description of the kind.
    pub fn description(&self) -> (r: &'static str)
        ensures
            r == self.2,
    {
        self.2
    }

    /// Returns the side the kind's code classifies to: `"Client"` for codes
    /// up to 499, `"Server"` for codes of 500 and above.
    pub fn side(&self) -> (r: &'static str)
        ensures
            r@ == spec_side(self.1),
    {
        if self.1 <= 499 {
            "Client"
        } else {
            "Server"
        }
    }
}

impl PartialEq for ErrorKind {
    /// Kinds have no identity beyond their fields: two kinds are equal when
    /// their names, codes and descriptions are. The names and descriptions
    /// are compared as owned text.
    fn eq(&self, other: &Self) -> (r: bool) {
        self.1 == other.1 && self.0.to_owned() == other.0.to_owned() && self.2.to_owned()
            == other.2.to_owned()
    }
}

impl vstd::std_specs::cmp::PartialEqSpecImpl for ErrorKind {
    open spec fn obeys_eq_spec() -> bool {
        true
    }

    open spec fn eq_spec(&self, other: &ErrorKind) -> bool {
        self.0@ == other.0@ && self.1 == other.1 && self.2@ == other.2@
    }
}

impl Default for ErrorKind {
    /// The fallback kind: an internal server error with code 500.
    fn default() -> (r: Self)
        ensures
            r.0@ == "InternalServerError"@,
            r.1 == 500,
            r.2@ == "Internal Server Error"@,
    {
        ErrorKind("InternalServerError", 500, "Internal Server Error")
    }
}

} // verus!
