//! Routes the error results of a function through a handler, by rewriting the
//! function's definition.
//!
//! A function definition is held as the token text of its parts. The rewrite
//! keeps the definition's visibility and signature as its shell, moves the
//! definition itself into a private helper inside it, and ends the new body
//! with a dispatch on the helper's result: a success is handed back unchanged,
//! an error goes through the handler.
//!
//! ```text
//! fn task(v: i32) -> Result<i32, Error> { body }
//! ```
//!
//! becomes, for the handler `recover`,
//!
//! ```text
//! fn task(v: i32) -> Result<i32, Error> {
//!     fn _task(v: i32) -> Result<i32, Error> { body }
//!     match _task(v) { Ok(v) => Ok(v), Err(e) => recover(e) }
//! }
//! ```

use vstd::prelude::*;
use crate::error::{TransformError, TransformErrorView};
use crate::parse::{outcome, parse_function, parse_handler, parsed_function, parsed_handler};
use crate::rewrite::{rewritten, rewritten_pieces, transform};
use crate::text::line;

pub mod error;
pub mod function;
pub mod laws;
pub mod meaning;
pub mod parse;
pub mod render;
pub mod rewrite;
pub mod syntax;
pub mod text;

verus! {

/// The source text that takes the place of `item` under the handler `attr`:
/// the item has to be a function definition, then the handler a path, and the
/// text is that of the rewritten definition.
pub open spec fn expansion(attr: Seq<char>, item: Seq<char>) -> Result<
    Seq<char>,
    TransformErrorView,
> {
    match parsed_function(item) {
        Err(error) => Err(error),
        Ok(function) => match parsed_handler(attr) {
            Err(error) => Err(error),
            Ok(handler) => Ok(line(rewritten_pieces(rewritten(function, handler)))),
        },
    }
}

/// Rewrites the function definition `item` so that an error it returns goes
/// through the handler named by `attr` before it reaches the caller.
pub fn err_handler(attr: &str, item: &str) -> (output: Result<String, TransformError>)
    ensures
        outcome(output) == expansion(attr@, item@),
{
    ast_gen(attr, item)
}

/// Reads `input` and `attr`, rewrites, and prints the rewritten definition.
pub fn ast_gen(attr: &str, input: &str) -> (output: Result<String, TransformError>)
    ensures
        outcome(output) == expansion(attr@, input@),
{
    let function = match parse_function(input) {
        Ok(function) => function,
        Err(error) => {
            return Err(error);
        },
    };
    let handler = match parse_handler(attr) {
        Ok(handler) => handler,
        Err(error) => {
            return Err(error);
        },
    };
    Ok(transform(&function, &handler).render())
}

} // verus!
