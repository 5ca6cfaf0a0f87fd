//! The error that every fallible step of the library ends in.

use crate::compiler::{CompilerError, CompilerErrorView};
use crate::text::push_text;
use crate::util::{env_error_message, EnvError};
use vstd::prelude::*;
use vstd::std_specs::convert::FromSpecImpl;

verus! {

/// Why a resource could not be written or compiled.
#[derive(Debug)]
pub enum ResError {
    /// A file could not be read, stored or resolved; the text is the
    /// system's message.
    Io(String),
    /// The resource compiler could not be found or failed.
    Compiler(CompilerError),
    /// An environment variable of the build is not set.
    EnvVarNotFound(EnvError),
    /// A value is not fit for a resource definition.
    Custom(&'static str),
}

/// A [`ResError`] as sequences of characters.
pub ghost enum ResErrorView {
    Io(Seq<char>),
    Compiler(CompilerErrorView),
    EnvVarNotFound(Seq<char>),
    Custom(Seq<char>),
}

impl View for ResError {
    type V = ResErrorView;

    open spec fn view(&self) -> ResErrorView {
        match self {
            ResError::Io(m) => ResErrorView::Io(m@),
            ResError::Compiler(e) => ResErrorView::Compiler(e@),
            ResError::EnvVarNotFound(e) => ResErrorView::EnvVarNotFound(e@),
            ResError::Custom(m) => ResErrorView::Custom(m@),
        }
    }
}

impl ResErrorView {
    /// The message that reports the error.
    pub open spec fn message(self) -> Seq<char> {
        match self {
            ResErrorView::Io(m) => m,
            ResErrorView::Compiler(e) => e.message(),
            ResErrorView::EnvVarNotFound(var) => env_error_message(var),
            ResErrorView::Custom(m) => m,
        }
    }
}

impl ResError {
    /// The error's message for the user.
    pub fn message(&self) -> (r: String)
        ensures
            r@ == self@.message(),
    {
        match self {
            ResError::Io(m) => m.clone(),
            ResError::Compiler(e) => e.message(),
            ResError::EnvVarNotFound(e) => e.message(),
            ResError::Custom(m) => {
                let mut out = String::new();
                push_text(&mut out, m);
                out
            },
        }
    }
}

impl FromSpecImpl<CompilerError> for ResError {
    open spec fn obeys_from_spec() -> bool {
        true
    }

    open spec fn from_spec(error: CompilerError) -> ResError {
        ResError::Compiler(error)
    }
}

impl From<CompilerError> for ResError {
    fn from(error: CompilerError) -> (r: ResError) {
        ResError::Compiler(error)
    }
}

impl FromSpecImpl<EnvError> for ResError {
    open spec fn obeys_from_spec() -> bool {
        true
    }

    open spec fn from_spec(error: EnvError) -> ResError {
        ResError::EnvVarNotFound(error)
    }
}

impl From<EnvError> for ResError {
    fn from(error: EnvError) -> (r: ResError) {
        ResError::EnvVarNotFound(error)
    }
}

} // verus!
