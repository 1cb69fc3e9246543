//! Why a rewrite was refused.

use vstd::prelude::*;

verus! {

/// The two ways in which the input can be unfit for the rewrite. Each carries
/// the parser's message.
#[derive(Debug, PartialEq, Eq)]
pub enum TransformError {
    /// The annotated item is not one function definition.
    NotAFunction { message: String },
    /// The handler is not one path expression.
    InvalidHandler { message: String },
}

pub enum TransformErrorView {
    NotAFunction { message: Seq<char> },
    InvalidHandler { message: Seq<char> },
}

impl View for TransformError {
    type V = TransformErrorView;

    open spec fn view(&self) -> TransformErrorView {
        match *self {
            TransformError::NotAFunction { message } => TransformErrorView::NotAFunction {
                message: message@,
            },
            TransformError::InvalidHandler { message } => TransformErrorView::InvalidHandler {
                message: message@,
            },
        }
    }
}

impl TransformErrorView {
    pub open spec fn message(self) -> Seq<char> {
        match self {
            TransformErrorView::NotAFunction { message } => message,
            TransformErrorView::InvalidHandler { message } => message,
        }
    }
}

impl TransformError {
    /// The parser's message.
    pub fn message(&self) -> (message: String)
        ensures
            message@ == self@.message(),
    {
        match self {
            TransformError::NotAFunction { message } => message.clone(),
            TransformError::InvalidHandler { message } => message.clone(),
        }
    }
}

} // verus!
