use crate::tag::Tag;
use vstd::prelude::*;
use vstd::string::*;

verus! {

/// What is wrong with a field that is present.
#[derive(Clone, Copy, Debug, PartialEq, Eq, Structural)]
pub enum Flaw {
    /// A sexagesimal field does not hold exactly three rationals.
    WrongCount,
    /// A sexagesimal field does not hold rationals at all.
    WrongType,
    /// A text field does not hold text.
    NotText,
    /// A text field holds an empty list of strings.
    NoText,
    /// A rational has the denominator zero and stands for no number.
    ZeroDenominator,
    /// An angle lies beyond what its axis allows.
    OutOfRange,
}

impl Flaw {
    /// The words that describe the flaw.
    pub open spec fn description_text(self) -> Seq<char> {
        match self {
            Flaw::WrongCount => "expected 3 rationals"@,
            Flaw::WrongType => "invalid field type"@,
            Flaw::NotText => "field is not a string"@,
            Flaw::NoText => "field holds no string"@,
            Flaw::ZeroDenominator => "rational with zero denominator"@,
            Flaw::OutOfRange => "angle out of range"@,
        }
    }

    /// The words that describe the flaw.
    pub fn description(self) -> (text: &'static str)
        ensures
            text@ == self.description_text(),
    {
        match self {
            Flaw::WrongCount => "expected 3 rationals",
            Flaw::WrongType => "invalid field type",
            Flaw::NotText => "field is not a string",
            Flaw::NoText => "field holds no string",
            Flaw::ZeroDenominator => "rational with zero denominator",
            Flaw::OutOfRange => "angle out of range",
        }
    }
}

/// Why a photo yields no feature.
#[derive(Clone, Debug, PartialEq, Eq)]
pub enum Error {
    /// The photo, or its path, could not be read; the text says why.
    Access(String),
    /// The bytes hold no metadata container that can be decoded; the text says why.
    Decode(String),
    /// A required field is absent.
    FieldMissing(Tag),
    /// A field is present but has the wrong shape.
    InvalidField(Tag, Flaw),
    /// The bytes of a text field are not valid UTF-8.
    TextEncoding,
}

/// An error with its texts as sequences of characters.
pub enum ErrorView {
    Access(Seq<char>),
    Decode(Seq<char>),
    FieldMissing(Tag),
    InvalidField(Tag, Flaw),
    TextEncoding,
}

impl View for Error {
    type V = ErrorView;

    open spec fn view(&self) -> ErrorView {
        match self {
            Error::Access(reason) => ErrorView::Access(reason@),
            Error::Decode(reason) => ErrorView::Decode(reason@),
            Error::FieldMissing(tag) => ErrorView::FieldMissing(*tag),
            Error::InvalidField(tag, flaw) => ErrorView::InvalidField(*tag, *flaw),
            Error::TextEncoding => ErrorView::TextEncoding,
        }
    }
}

impl ErrorView {
    /// The line that tells a person what went wrong.
    pub open spec fn message(self) -> Seq<char> {
        match self {
            ErrorView::Access(reason) => reason,
            ErrorView::Decode(reason) => reason,
            ErrorView::FieldMissing(tag) => "missing field: "@ + tag.name_text(),
            ErrorView::InvalidField(tag, flaw) => "invalid field "@ + tag.name_text() + ": "@
                + flaw.description_text(),
            ErrorView::TextEncoding => "field text is not valid UTF-8"@,
        }
    }
}

impl Error {
    /// The line that tells a person what went wrong.
    pub fn message(&self) -> (text: String)
        ensures
            text@ == self@.message(),
    {
        match self {
            Error::Access(reason) => reason.clone(),
            Error::Decode(reason) => reason.clone(),
            Error::FieldMissing(tag) => String::from_str("missing field: ").concat(tag.name()),
            Error::InvalidField(tag, flaw) => String::from_str("invalid field ").concat(
                tag.name(),
            ).concat(": ").concat(flaw.description()),
            Error::TextEncoding => String::from_str("field text is not valid UTF-8"),
        }
    }
}

} // verus!
