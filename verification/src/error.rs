use vstd::prelude::*;
use vstd::string::StringExecFns;

use crate::kind::{spec_side, ErrorKind};
use crate::value::{Details, ValueView};

verus! {

/// The mathematical shape of an `Error`.
pub struct ErrorView {
    pub code: u16,
    pub class: Seq<char>,
    pub message: Seq<char>,
    pub details: Map<Seq<char>, ValueView>,
}

/// The canonical class path of an error: side, kind name and site name,
/// joined by `::`.
pub open spec fn spec_class(kind: ErrorKind, site: Seq<char>) -> Seq<char> {
    spec_side(kind.1) + "::"@ + kind.0@ + "::"@ + site
}

/// The decimal digit character standing for `d`.
pub open spec fn spec_digit(d: nat) -> char {
    if d == 0 {
        '0'
    } else if d == 1 {
        '1'
    } else if d == 2 {
        '2'
    } else if d == 3 {
        '3'
    } else if d == 4 {
        '4'
    } else if d == 5 {
        '5'
    } else if d == 6 {
        '6'
    } else if d == 7 {
        '7'
    } else if d == 8 {
        '8'
    } else {
        '9'
    }
}

/// The decimal rendering of `n`, most significant digit first.
pub open spec fn spec_decimal(n: nat) -> Seq<char>
    decreases n,
{
    if n < 10 {
        seq![spec_digit(n)]
    } else {
        spec_decimal(n / 10) + seq![spec_digit(n % 10)]
    }
}

/// The textual rendering of an error: `class (code) - message`.
pub open spec fn spec_render(e: ErrorView) -> Seq<char> {
    e.class + " ("@ + spec_decimal(e.code as nat) + ") - "@ + e.message
}

fn digit_str(d: u16) -> (r: &'static str)
    requires
        d < 10,
    ensures
        r@ == seq![spec_digit(d as nat)],
{
    proof {
        reveal_strlit("0");
        reveal_strlit("1");
        reveal_strlit("2");
        reveal_strlit("3");
        reveal_strlit("4");
        reveal_strlit("5");
        reveal_strlit("6");
        reveal_strlit("7");
        reveal_strlit("8");
        reveal_strlit("9");
        assert("0"@ =~= seq!['0']);
        assert("1"@ =~= seq!['1']);
        assert("2"@ =~= seq!['2']);
        assert("3"@ =~= seq!['3']);
        assert("4"@ =~= seq!['4']);
        assert("5"@ =~= seq!['5']);
        assert("6"@ =~= seq!['6']);
        assert("7"@ =~= seq!['7']);
        assert("8"@ =~= seq!['8']);
        assert("9"@ =~= seq!['9']);
    }
    match d {
        0 => "0",
        1 => "1",
        2 => "2",
        3 => "3",
        4 => "4",
        5 => "5",
        6 => "6",
        7 => "7",
        8 => "8",
        _ => "9",
    }
}

/// Renders `n` in decimal.
pub fn decimal_string(n: u16) -> (r: String)
    ensures
        r@ == spec_decimal(n as nat),
    decreases n,
{
    if n < 10 {
        digit_str(n).to_owned()
    } else {
        let mut r = decimal_string(n / 10);
        r.append(digit_str(n % 10));
        r
    }
}

/// Composes the canonical class path of `kind` at the call site `site`.
pub fn compose_class(kind: ErrorKind, site: &str) -> (r: String)
    ensures
        r@ == spec_class(kind, site@),
{
    let mut s = kind.side().to_owned();
    s.append("::");
    s.append(kind.name());
    s.append("::");
    s.append(site);
    s
}

/// The canonical error record: a numeric code, a class path following the
/// `Side::Kind::Site` convention, a human-readable message, and a map of
/// contextual details. Immutable once built.
#[derive(Debug)]
pub struct Error {
    code: u16,
    class: String,
    message: String,
    details: Details,
}

impl View for Error {
    type V = ErrorView;

    closed spec fn view(&self) -> ErrorView {
        ErrorView {
            code: self.code,
            class: self.class@,
            message: self.message@,
            details: self.details@,
        }
    }
}

impl Error {
    /// Creates an error from its parts. The class string is taken as given;
    /// the `Side::Kind::Site` convention is the builder's concern.
    pub fn new(code: u16, class: String, message: String, details: Details) -> (r: Error)
        ensures
            r@ == (ErrorView { code, class: class@, message: message@, details: details@ }),
    {
        Error { code, class, message, details }
    }

    /// Returns the numeric code.
    pub fn code(&self) -> (r: u16)
        ensures
            r == self@.code,
    {
        self.code
    }

    /// Returns the class path.
    pub fn class(&self) -> (r: String)
        ensures
            r@ == self@.class,
    {
        self.class.clone()
    }

    /// Returns the message.
    pub fn message(&self) -> (r: String)
        ensures
            r@ == self@.message,
    {
        self.message.clone()
    }

    /// Returns a copy of the details map; the stored map cannot be reached,
    /// let alone changed, through the copy.
    pub fn details(&self) -> (r: Details)
        ensures
            r@ == self@.details,
    {
        self.details.clone()
    }

    /// Renders the error as `class (code) - message`.
    pub fn render(&self) -> (r: String)
        ensures
            r@ == spec_render(self@),
    {
        let mut s = self.class.clone();
        s.append(" (");
        let c = decimal_string(self.code);
        s.append(c.as_str());
        s.append(") - ");
        s.append(self.message.as_str());
        s
    }

    /// The boundary record of this error: class, message and details. The
    /// code is left out, to be conveyed by the surrounding transport.
    pub fn to_record(&self) -> (r: ErrorRecord)
        ensures
            r@ == spec_to_record(self@),
    {
        ErrorRecord {
            class: self.class.clone(),
            message: self.message.clone(),
            details: self.details.clone(),
        }
    }

    /// Rebuilds an error from a boundary record and a separately conveyed
    /// code.
    pub fn from_record(record: ErrorRecord, code: u16) -> (r: Error)
        ensures
            r@ == spec_from_record(record@, code),
    {
        Error { code, class: record.class, message: record.message, details: record.details }
    }
}

impl Clone for Error {
    /// Copies the error; the copy stands for the same record.
    fn clone(&self) -> (r: Self)
        ensures
            r@ == self@,
    {
        Error {
            code: self.code,
            class: self.class.clone(),
            message: self.message.clone(),
            details: self.details.clone(),
        }
    }
}

/// The serializable boundary shape of an error: class, message and details.
/// The numeric code is deliberately excluded; a transport carries it
/// positionally.
#[derive(Debug)]
pub struct ErrorRecord {
    /// The class path of the error.
    pub class: String,
    /// The message of the error.
    pub message: String,
    /// The details map of the error.
    pub details: Details,
}

/// The mathematical shape of an `ErrorRecord`.
pub struct ErrorRecordView {
    pub class: Seq<char>,
    pub message: Seq<char>,
    pub details: Map<Seq<char>, ValueView>,
}

impl View for ErrorRecord {
    type V = ErrorRecordView;

    open spec fn view(&self) -> ErrorRecordView {
        ErrorRecordView { class: self.class@, message: self.message@, details: self.details@ }
    }
}

/// The boundary record that an error serializes to: its class, message and
/// details, without the code.
pub open spec fn spec_to_record(e: ErrorView) -> ErrorRecordView {
    ErrorRecordView { class: e.class, message: e.message, details: e.details }
}

/// The error that a boundary record, together with the code the transport
/// carried, deserializes to.
pub open spec fn spec_from_record(r: ErrorRecordView, code: u16) -> ErrorView {
    ErrorView { code, class: r.class, message: r.message, details: r.details }
}

} // verus!
