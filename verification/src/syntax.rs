//! What `syn` makes of source text.
//!
//! Nothing here is proved. Each function below hands one text to one parser of
//! `syn` and gives back what the parser found, printed as token text again by
//! `proc-macro2`. Each has a name for its result, so that the contracts of the
//! verified functions can say exactly what they do with it.
//!
//! `proc-macro2` lexes and prints either by itself or, inside a macro
//! expansion, through the compiler, and the two do not print alike. Which of
//! them works is a switch of the whole process. Each function below therefore
//! begins with `proc_macro2::fallback::force`, which sets the switch to
//! `proc-macro2` itself: what a text gives then depends on the text alone. The
//! switch stays as it was set; only `proc_macro2::fallback::unforce`, called
//! from another thread inside a macro expansion while one of these functions
//! runs, could undo it.
//!
//! The parsers of `syn` descend into the source by recursion, and need stack in
//! proportion to its nesting.

use proc_macro2::fallback::force;
use proc_macro2::TokenStream;
use quote::ToTokens;
use syn::{parse_str, AttrStyle, ExprPath, FnArg, ItemFn, Pat, Signature};
use vstd::prelude::*;
use crate::function::{Attribute, AttributeView, Parameter, ParameterView};

verus! {

/// A function item, one level deep: the signature is still one text.
pub struct ItemParts {
    pub attributes: Vec<Attribute>,
    pub visibility: String,
    pub signature: String,
    pub statements: String,
}

/// A signature, one level deep: each parameter is still one text.
pub struct SignatureParts {
    pub is_const: bool,
    pub is_async: bool,
    pub is_unsafe: bool,
    pub abi: String,
    pub name: String,
    pub generics: String,
    pub inputs: Vec<String>,
    pub trailing_comma: bool,
    pub variadic: String,
    pub output: String,
    pub where_clause: String,
}

pub struct ItemPartsView {
    pub attributes: Seq<AttributeView>,
    pub visibility: Seq<char>,
    pub signature: Seq<char>,
    pub statements: Seq<char>,
}

pub struct SignaturePartsView {
    pub is_const: bool,
    pub is_async: bool,
    pub is_unsafe: bool,
    pub abi: Seq<char>,
    pub name: Seq<char>,
    pub generics: Seq<char>,
    pub inputs: Seq<Seq<char>>,
    pub trailing_comma: bool,
    pub variadic: Seq<char>,
    pub output: Seq<char>,
    pub where_clause: Seq<char>,
}

impl View for ItemParts {
    type V = ItemPartsView;

    open spec fn view(&self) -> ItemPartsView {
        ItemPartsView {
            attributes: self.attributes@.map_values(|a: Attribute| a@),
            visibility: self.visibility@,
            signature: self.signature@,
            statements: self.statements@,
        }
    }
}

impl View for SignatureParts {
    type V = SignaturePartsView;

    open spec fn view(&self) -> SignaturePartsView {
        SignaturePartsView {
            is_const: self.is_const,
            is_async: self.is_async,
            is_unsafe: self.is_unsafe,
            abi: self.abi@,
            name: self.name@,
            generics: self.generics@,
            inputs: self.inputs.deep_view(),
            trailing_comma: self.trailing_comma,
            variadic: self.variadic@,
            output: self.output@,
            where_clause: self.where_clause@,
        }
    }
}

/// The parts of `source` read as one function item, or the parser's message
/// where it is none.
pub uninterp spec fn item_syntax(source: Seq<char>) -> Result<ItemPartsView, Seq<char>>;

/// The parts of `text` read as one function signature, or the parser's message.
pub uninterp spec fn signature_syntax(text: Seq<char>) -> Result<SignaturePartsView, Seq<char>>;

/// `text` read as one function parameter, or the parser's message.
pub uninterp spec fn parameter_syntax(text: Seq<char>) -> Result<ParameterView, Seq<char>>;

/// `text` read as one path expression and printed again, or the parser's
/// message.
pub uninterp spec fn path_syntax(text: Seq<char>) -> Result<Seq<char>, Seq<char>>;

/// `syn::parse_str::<syn::ItemFn>`, after `proc_macro2::fallback::force`: the
/// whole of `source` has to be one function item. The attributes come in their order, each with its place;
/// the statements are those between the body's braces.
#[verifier::external_body]
pub(crate) fn parse_item(source: &str) -> (parsed: Result<ItemParts, String>)
    ensures
        match parsed {
            Ok(parts) => item_syntax(source@) == Ok::<ItemPartsView, Seq<char>>(parts@),
            Err(message) => item_syntax(source@) == Err::<ItemPartsView, Seq<char>>(message@),
        },
{
    force();
    let item = parse_str::<ItemFn>(source).map_err(|e| e.to_string())?;
    Ok(ItemParts {
        attributes: item.attrs.iter().map(|a| match a.style {
            AttrStyle::Outer => Attribute::Outer(a.to_token_stream().to_string()),
            AttrStyle::Inner(_) => Attribute::Inner(a.to_token_stream().to_string()),
        }).collect(),
        visibility: item.vis.to_token_stream().to_string(),
        signature: item.sig.to_token_stream().to_string(),
        statements: item.block.stmts.iter().map(ToTokens::to_token_stream)
            .collect::<TokenStream>().to_string(),
    })
}

/// `syn::parse_str::<syn::Signature>`, after `proc_macro2::fallback::force`:
/// the whole of `text` has to be one signature. `trailing_comma` is `Punctuated::trailing_punct` of its inputs.
#[verifier::external_body]
pub(crate) fn parse_signature(text: &str) -> (parsed: Result<SignatureParts, String>)
    ensures
        match parsed {
            Ok(parts) => signature_syntax(text@) == Ok::<SignaturePartsView, Seq<char>>(parts@),
            Err(message) => signature_syntax(text@) == Err::<SignaturePartsView, Seq<char>>(
                message@,
            ),
        },
{
    force();
    let s = parse_str::<Signature>(text).map_err(|e| e.to_string())?;
    Ok(SignatureParts {
        is_const: s.constness.is_some(),
        is_async: s.asyncness.is_some(),
        is_unsafe: s.unsafety.is_some(),
        abi: s.abi.to_token_stream().to_string(),
        name: s.ident.to_string(),
        generics: s.generics.to_token_stream().to_string(),
        inputs: s.inputs.iter().map(|a| a.to_token_stream().to_string()).collect(),
        trailing_comma: s.inputs.trailing_punct(),
        variadic: s.variadic.to_token_stream().to_string(),
        output: s.output.to_token_stream().to_string(),
        where_clause: s.generics.where_clause.to_token_stream().to_string(),
    })
}

/// `syn::parse_str::<syn::FnArg>`, after `proc_macro2::fallback::force`: the
/// whole of `text` has to be one parameter.
/// A receiver is told from a typed parameter, and a typed parameter whose
/// pattern is `syn::Pat::Ident` gives that pattern's identifier as its binding.
#[verifier::external_body]
pub(crate) fn parse_parameter(text: &str) -> (parsed: Result<Parameter, String>)
    ensures
        match parsed {
            Ok(parameter) => parameter_syntax(text@) == Ok::<ParameterView, Seq<char>>(
                parameter@,
            ),
            Err(message) => parameter_syntax(text@) == Err::<ParameterView, Seq<char>>(message@),
        },
{
    force();
    let argument = parse_str::<FnArg>(text).map_err(|e| e.to_string())?;
    let tokens = argument.to_token_stream().to_string();
    match argument {
        FnArg::Receiver(_) => Ok(Parameter::Receiver { tokens }),
        FnArg::Typed(typed) => match *typed.pat {
            Pat::Ident(pattern) => Ok(
                Parameter::Typed { tokens, binding: Some(pattern.ident.to_string()) },
            ),
            _ => Ok(Parameter::Typed { tokens, binding: None }),
        },
    }
}

/// `syn::parse_str::<syn::ExprPath>`, after `proc_macro2::fallback::force`: the
/// whole of `text` has to be one path expression, such as `recover` or
/// `crate::errors::recover`.
#[verifier::external_body]
pub(crate) fn parse_path(text: &str) -> (parsed: Result<String, String>)
    ensures
        match parsed {
            Ok(path) => path_syntax(text@) == Ok::<Seq<char>, Seq<char>>(path@),
            Err(message) => path_syntax(text@) == Err::<Seq<char>, Seq<char>>(message@),
        },
{
    force();
    match parse_str::<ExprPath>(text) {
        Ok(path) => Ok(path.to_token_stream().to_string()),
        Err(error) => Err(error.to_string()),
    }
}

} // verus!
