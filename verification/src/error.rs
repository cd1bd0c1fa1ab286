//! The error type every stage of the load pipeline reports through.

use vstd::prelude::*;
use vstd::string::StringExecFns;

verus! {

/// Ghost mirror of `Error`.
#[verifier::ext_equal]
pub enum ErrorV {
    Config { message: Seq<char> },
    JsonSchema { message: Seq<char> },
    UnknownFunction { name: Seq<char> },
    UnknownMetric { name: Seq<char> },
    UnknownModel { name: Seq<char> },
    UnknownTool { name: Seq<char> },
    InvalidTemplatePath,
}

/// What can go wrong while loading a configuration: a malformed or
/// inconsistent document, a schema file that could not be compiled, a lookup
/// by a name nobody declared, or a template path that cannot serve as a
/// template name.
#[derive(Debug)]
pub enum Error {
    Config { message: String },
    JsonSchema { message: String },
    UnknownFunction { name: String },
    UnknownMetric { name: String },
    UnknownModel { name: String },
    UnknownTool { name: String },
    /// Reserved for template paths that cannot be used as a template
    /// addressing key; paths here are UTF-8 strings already, so no load
    /// path of this crate reports it.
    InvalidTemplatePath,
}

impl DeepView for Error {
    type V = ErrorV;

    open spec fn deep_view(&self) -> ErrorV {
        match self {
            Error::Config { message } => ErrorV::Config { message: message@ },
            Error::JsonSchema { message } => ErrorV::JsonSchema { message: message@ },
            Error::UnknownFunction { name } => ErrorV::UnknownFunction { name: name@ },
            Error::UnknownMetric { name } => ErrorV::UnknownMetric { name: name@ },
            Error::UnknownModel { name } => ErrorV::UnknownModel { name: name@ },
            Error::UnknownTool { name } => ErrorV::UnknownTool { name: name@ },
            Error::InvalidTemplatePath => ErrorV::InvalidTemplatePath,
        }
    }
}

impl PartialEq for Error {
    fn eq(&self, other: &Error) -> (r: bool) {
        match (self, other) {
            (Error::Config { message: a }, Error::Config { message: b }) => *a == *b,
            (Error::JsonSchema { message: a }, Error::JsonSchema { message: b }) => *a == *b,
            (Error::UnknownFunction { name: a }, Error::UnknownFunction { name: b }) => *a == *b,
            (Error::UnknownMetric { name: a }, Error::UnknownMetric { name: b }) => *a == *b,
            (Error::UnknownModel { name: a }, Error::UnknownModel { name: b }) => *a == *b,
            (Error::UnknownTool { name: a }, Error::UnknownTool { name: b }) => *a == *b,
            (Error::InvalidTemplatePath, Error::InvalidTemplatePath) => true,
            _ => false,
        }
    }
}

impl vstd::std_specs::cmp::PartialEqSpecImpl for Error {
    open spec fn obeys_eq_spec() -> bool {
        true
    }

    open spec fn eq_spec(&self, other: &Error) -> bool {
        self.deep_view() == other.deep_view()
    }
}

/// The one-line rendering of an error.
pub open spec fn spec_message(e: ErrorV) -> Seq<char> {
    match e {
        ErrorV::Config { message } => message,
        ErrorV::JsonSchema { message } => message,
        ErrorV::UnknownFunction { name } => "Unknown function: "@ + name,
        ErrorV::UnknownMetric { name } => "Unknown metric: "@ + name,
        ErrorV::UnknownModel { name } => "Unknown model: "@ + name,
        ErrorV::UnknownTool { name } => "Unknown tool: "@ + name,
        ErrorV::InvalidTemplatePath => "Template path is not a valid template name"@,
    }
}

impl Error {
    /// Render the error as the message the gateway prints when it refuses
    /// to start.
    pub fn to_message(&self) -> (m: String)
        ensures
            m@ == spec_message(self.deep_view()),
    {
        match self {
            Error::Config { message } => message.clone(),
            Error::JsonSchema { message } => message.clone(),
            Error::UnknownFunction { name } => {
                let mut m = "Unknown function: ".to_owned();
                m.append(name.as_str());
                m
            },
            Error::UnknownMetric { name } => {
                let mut m = "Unknown metric: ".to_owned();
                m.append(name.as_str());
                m
            },
            Error::UnknownModel { name } => {
                let mut m = "Unknown model: ".to_owned();
                m.append(name.as_str());
                m
            },
            Error::UnknownTool { name } => {
                let mut m = "Unknown tool: ".to_owned();
                m.append(name.as_str());
                m
            },
            Error::InvalidTemplatePath => {
                "Template path is not a valid template name".to_owned()
            },
        }
    }
}

} // verus!
