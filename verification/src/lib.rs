//! Structural metadata of JPEG files: the start and end markers of the
//! container are checked and the leading application segments are decoded
//! into a record, up to the start of the compressed scan.

use vstd::prelude::*;
use vstd::std_specs::convert::FromSpecImpl;
use vstd::string::*;

pub mod cursor;
pub mod jpeg;
pub mod laws;
pub mod text;

verus! {

/// The class of a decoding failure.
#[derive(Debug, Clone, Copy, PartialEq, Eq, Structural)]
pub enum DecodeErrorKind {
    /// The source is not framed by the start and end markers of a JPEG file.
    InvalidFormat,
    /// A segment holds a value that its layout does not allow.
    BadData,
    /// The source ended inside a marker or a segment, could not be read,
    /// or holds a segment that is recognised but not decoded.
    Other,
}

impl DecodeErrorKind {
    /// The name of the class as it is written in a rendered failure.
    pub open spec fn spec_name(self) -> Seq<char> {
        match self {
            DecodeErrorKind::InvalidFormat => "InvalidFormat"@,
            DecodeErrorKind::BadData => "BadData"@,
            DecodeErrorKind::Other => "Other"@,
        }
    }

    /// The name of the class.
    pub fn name(&self) -> (s: &'static str)
        ensures
            s@ == self.spec_name(),
    {
        match self {
            DecodeErrorKind::InvalidFormat => "InvalidFormat",
            DecodeErrorKind::BadData => "BadData",
            DecodeErrorKind::Other => "Other",
        }
    }
}

/// What a [`DecodeError`] holds, as plain values.
pub struct ErrorView {
    pub kind: DecodeErrorKind,
    pub reason: Seq<char>,
}

/// A terminal decoding failure: its class and a readable reason.
#[derive(Debug)]
pub struct DecodeError {
    kind: DecodeErrorKind,
    reason: String,
}

impl View for DecodeError {
    type V = ErrorView;

    closed spec fn view(&self) -> ErrorView {
        ErrorView { kind: self.kind, reason: self.reason@ }
    }
}

/// The text of a rendered failure with the given class and reason.
pub open spec fn rendered(e: ErrorView) -> Seq<char> {
    "DecodeError { kind: "@ + e.kind.spec_name() + ", reason: "@ + e.reason + " }"@
}

impl DecodeError {
    /// A failure of the given class with the given reason.
    pub fn new(kind: DecodeErrorKind, reason: String) -> (e: DecodeError)
        ensures
            e@ == (ErrorView { kind, reason: reason@ }),
    {
        DecodeError { kind, reason }
    }

    /// The class of this failure.
    pub fn kind(&self) -> (k: DecodeErrorKind)
        ensures
            k == self@.kind,
    {
        self.kind
    }

    /// The reason of this failure.
    pub fn reason(&self) -> (r: &str)
        ensures
            r@ == self@.reason,
    {
        self.reason.as_str()
    }

    /// The failure as one line of text: the class, then the reason.
    pub fn to_string(&self) -> (s: String)
        ensures
            s@ == rendered(self@),
    {
        let mut s = String::from_str("DecodeError { kind: ");
        s.append(self.kind.name());
        s.append(", reason: ");
        s.append(self.reason.as_str());
        s.append(" }");
        s
    }
}

/// `std::io::Error`, carried through as an opaque value.
#[verifier::external_type_specification]
#[verifier::external_body]
pub struct ExIoError(std::io::Error);

impl From<std::io::Error> for DecodeError {
    /// A failure of the underlying source is of class `Other`; its reason
    /// is the text that the I/O error renders through `Display`.
    fn from(err: std::io::Error) -> (e: DecodeError)
        ensures
            e@.kind == DecodeErrorKind::Other,
            exists|message: String|
                to_string_from_display_ensures::<std::io::Error>(&err, message) && e@.reason
                    == message@,
    {
        let message = err.to_string();
        DecodeError::new(DecodeErrorKind::Other, message)
    }
}

impl FromSpecImpl<std::io::Error> for DecodeError {
    open spec fn obeys_from_spec() -> bool {
        false
    }

    open spec fn from_spec(v: std::io::Error) -> DecodeError {
        arbitrary()
    }
}

impl From<std::str::Utf8Error> for DecodeError {
    /// Malformed text is of class `BadData`; its reason is the text of the
    /// UTF-8 error.
    fn from(err: std::str::Utf8Error) -> (e: DecodeError)
        ensures
            e@ == (ErrorView {
                kind: DecodeErrorKind::BadData,
                reason: text::utf8_error_text(err),
            }),
    {
        DecodeError::new(DecodeErrorKind::BadData, text::utf8_error_message(&err))
    }
}

impl FromSpecImpl<std::str::Utf8Error> for DecodeError {
    open spec fn obeys_from_spec() -> bool {
        false
    }

    open spec fn from_spec(v: std::str::Utf8Error) -> DecodeError {
        arbitrary()
    }
}

} // verus!
