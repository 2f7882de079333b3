//! The three ways an operation can fail.

use vstd::prelude::*;
use vstd::string::*;

verus! {

/// Why a response body could not be turned into the expected resource.
#[derive(Debug, Clone, PartialEq, Eq)]
pub enum ParseError {
    /// The body is not JSON text. Holds the parser's description of the fault.
    Syntax(String),
    /// The body is JSON, but not an object.
    NotAnObject,
    /// A required member is absent. Holds its key.
    MissingField(String),
    /// A member holds a value of the wrong kind. Holds its key.
    InvalidField(String),
}

/// [`ParseError`] with its texts as sequences of characters.
pub enum ParseErrorView {
    Syntax(Seq<char>),
    NotAnObject,
    MissingField(Seq<char>),
    InvalidField(Seq<char>),
}

impl View for ParseError {
    type V = ParseErrorView;

    open spec fn view(&self) -> ParseErrorView {
        match self {
            ParseError::Syntax(d) => ParseErrorView::Syntax(d@),
            ParseError::NotAnObject => ParseErrorView::NotAnObject,
            ParseError::MissingField(k) => ParseErrorView::MissingField(k@),
            ParseError::InvalidField(k) => ParseErrorView::InvalidField(k@),
        }
    }
}

impl ParseErrorView {
    /// The message shown for this fault.
    pub open spec fn message(self) -> Seq<char> {
        match self {
            ParseErrorView::Syntax(d) => d,
            ParseErrorView::NotAnObject => "expected a JSON object"@,
            ParseErrorView::MissingField(k) => "missing field `"@ + k + "`"@,
            ParseErrorView::InvalidField(k) => "invalid value for field `"@ + k + "`"@,
        }
    }
}

impl ParseError {
    /// The message shown for this fault.
    pub fn to_string(&self) -> (text: String)
        ensures
            text@ == self@.message(),
    {
        match self {
            ParseError::Syntax(d) => d.clone(),
            ParseError::NotAnObject => String::from_str("expected a JSON object"),
            ParseError::MissingField(k) => {
                String::from_str("missing field `").concat(k.as_str()).concat("`")
            },
            ParseError::InvalidField(k) => {
                String::from_str("invalid value for field `").concat(k.as_str()).concat("`")
            },
        }
    }
}

/// What every operation of the client returns on failure.
#[derive(Debug, Clone, PartialEq, Eq)]
pub enum BillplzError {
    /// The transport could not complete the call. Holds its description.
    Http(String),
    /// The API answered with a structured error, kept as it came.
    Api { error_type: String, message: String },
    /// The body did not have the shape of the expected resource.
    Parse(ParseError),
}

/// [`BillplzError`] with its texts as sequences of characters.
pub enum BillplzErrorView {
    Http(Seq<char>),
    Api { error_type: Seq<char>, message: Seq<char> },
    Parse(ParseErrorView),
}

impl View for BillplzError {
    type V = BillplzErrorView;

    open spec fn view(&self) -> BillplzErrorView {
        match self {
            BillplzError::Http(d) => BillplzErrorView::Http(d@),
            BillplzError::Api { error_type, message } => BillplzErrorView::Api {
                error_type: error_type@,
                message: message@,
            },
            BillplzError::Parse(e) => BillplzErrorView::Parse(e@),
        }
    }
}

/// The result of an operation as mathematical values.
pub open spec fn result_view<T: DeepView>(r: Result<T, BillplzError>) -> Result<
    T::V,
    BillplzErrorView,
> {
    match r {
        Ok(x) => Ok(x.deep_view()),
        Err(e) => Err(e@),
    }
}

impl BillplzErrorView {
    /// The message shown for this error.
    pub open spec fn message(self) -> Seq<char> {
        match self {
            BillplzErrorView::Http(d) => "HTTP error: "@ + d,
            BillplzErrorView::Api { error_type, message } => "API error ("@ + error_type + "): "@
                + message,
            BillplzErrorView::Parse(e) => "JSON parse error: "@ + e.message(),
        }
    }
}

impl BillplzError {
    /// The message shown for this error.
    pub fn to_string(&self) -> (text: String)
        ensures
            text@ == self@.message(),
    {
        match self {
            BillplzError::Http(d) => String::from_str("HTTP error: ").concat(d.as_str()),
            BillplzError::Api { error_type, message } => {
                String::from_str("API error (").concat(error_type.as_str()).concat("): ").concat(
                    message.as_str(),
                )
            },
            BillplzError::Parse(e) => {
                let inner = e.to_string();
                String::from_str("JSON parse error: ").concat(inner.as_str())
            },
        }
    }
}

} // verus!
