//! From source text to a function definition and a handler.

use vstd::prelude::*;
use crate::error::{TransformError, TransformErrorView};
use crate::function::{
    FunctionDefinition, FunctionView, Parameter, ParameterView, Signature, SignatureView,
    has_receiver_first, receiver_first,
};
use crate::rewrite::HandlerReference;
use crate::syntax::{
    item_syntax, parameter_syntax, parse_item, parse_parameter, parse_path, parse_signature,
    path_syntax, signature_syntax, ItemParts, ItemPartsView, SignatureParts, SignaturePartsView,
};

verus! {

/// The parameters that the texts stand for, or the message for the first text
/// that is no parameter.
pub open spec fn parsed_parameters(inputs: Seq<Seq<char>>) -> Result<Seq<ParameterView>, Seq<char>>
    decreases inputs.len(),
{
    if inputs.len() == 0 {
        Ok(Seq::empty())
    } else {
        match parsed_parameters(inputs.drop_last()) {
            Err(message) => Err(message),
            Ok(parameters) => match parameter_syntax(inputs.last()) {
                Err(message) => Err(message),
                Ok(parameter) => Ok(parameters.push(parameter)),
            },
        }
    }
}

/// The definition made of the parts of an item, the parts of its signature and
/// the signature's parameters: a receiver has to stand first.
pub open spec fn assembled(
    item: ItemPartsView,
    signature: SignaturePartsView,
    parameters: Seq<ParameterView>,
) -> Result<FunctionView, TransformErrorView> {
    if receiver_first(parameters) {
        Ok(
            FunctionView {
                attributes: item.attributes,
                visibility: item.visibility,
                signature: SignatureView {
                    is_const: signature.is_const,
                    is_async: signature.is_async,
                    is_unsafe: signature.is_unsafe,
                    abi: signature.abi,
                    name: signature.name,
                    generics: signature.generics,
                    parameters,
                    trailing_comma: signature.trailing_comma,
                    variadic: signature.variadic,
                    output: signature.output,
                    where_clause: signature.where_clause,
                },
                statements: item.statements,
            },
        )
    } else {
        Err(TransformErrorView::NotAFunction { message: "unexpected method receiver"@ })
    }
}

/// The definition that `source` stands for: its item, the item's signature and
/// the signature's parameters have to read as such, and the parts are then
/// assembled.
pub open spec fn parsed_function(source: Seq<char>) -> Result<FunctionView, TransformErrorView> {
    match item_syntax(source) {
        Err(message) => Err(TransformErrorView::NotAFunction { message }),
        Ok(item) => match signature_syntax(item.signature) {
            Err(message) => Err(TransformErrorView::NotAFunction { message }),
            Ok(signature) => match parsed_parameters(signature.inputs) {
                Err(message) => Err(TransformErrorView::NotAFunction { message }),
                Ok(parameters) => assembled(item, signature, parameters),
            },
        },
    }
}

/// The handler that `text` stands for.
pub open spec fn parsed_handler(text: Seq<char>) -> Result<Seq<char>, TransformErrorView> {
    match path_syntax(text) {
        Ok(path) => Ok(path),
        Err(message) => Err(TransformErrorView::InvalidHandler { message }),
    }
}

/// The view of a result of this module.
pub open spec fn outcome<T: View>(result: Result<T, TransformError>) -> Result<
    T::V,
    TransformErrorView,
> {
    match result {
        Ok(value) => Ok(value@),
        Err(error) => Err(error@),
    }
}

/// Reads each text as a parameter, and stops at the first that is none.
fn parse_parameters(inputs: &Vec<String>) -> (parsed: Result<Vec<Parameter>, String>)
    ensures
        match parsed {
            Ok(parameters) => parsed_parameters(inputs.deep_view()) == Ok::<
                Seq<ParameterView>,
                Seq<char>,
            >(parameters@.map_values(|p: Parameter| p@)),
            Err(message) => parsed_parameters(inputs.deep_view()) == Err::<
                Seq<ParameterView>,
                Seq<char>,
            >(message@),
        },
{
    let ghost all = inputs.deep_view();
    let mut parameters: Vec<Parameter> = Vec::new();
    let mut i: usize = 0;
    proof {
        assert(parameters@.map_values(|p: Parameter| p@) =~= Seq::<ParameterView>::empty());
    }
    while i < inputs.len()
        invariant
            i <= inputs.len(),
            all == inputs.deep_view(),
            parsed_parameters(all.take(i as int)) == Ok::<Seq<ParameterView>, Seq<char>>(
                parameters@.map_values(|p: Parameter| p@),
            ),
        decreases inputs.len() - i,
    {
        proof {
            assert(all.take(i + 1).drop_last() =~= all.take(i as int));
        }
        let ghost before = parameters@.map_values(|p: Parameter| p@);
        match parse_parameter(inputs[i].as_str()) {
            Ok(parameter) => {
                parameters.push(parameter);
                assert(parameters@.map_values(|p: Parameter| p@) =~= before.push(parameter@));
            },
            Err(message) => {
                proof {
                    lemma_first_failure(all, i as int);
                }
                return Err(message);
            },
        }
        i += 1;
    }
    proof {
        assert(all.take(i as int) =~= all);
    }
    Ok(parameters)
}

/// Once a prefix of the texts fails, the whole fails with the same message.
proof fn lemma_first_failure(inputs: Seq<Seq<char>>, i: int)
    requires
        0 <= i < inputs.len(),
        parsed_parameters(inputs.take(i + 1)) is Err,
    ensures
        parsed_parameters(inputs) == parsed_parameters(inputs.take(i + 1)),
    decreases inputs.len(),
{
    if i + 1 == inputs.len() {
        assert(inputs.take(i + 1) =~= inputs);
    } else {
        assert(inputs.drop_last().take(i + 1) =~= inputs.take(i + 1));
        lemma_first_failure(inputs.drop_last(), i);
    }
}

/// Puts a definition together from the parts of an item, the parts of its
/// signature, and the signature's parameters as they were read.
///
/// The result is `NotAFunction` exactly where a receiver stands behind another
/// parameter, and else the definition with every part in its place.
pub fn assemble(item: ItemParts, signature: SignatureParts, parameters: Vec<Parameter>) -> (made:
    Result<FunctionDefinition, TransformError>)
    ensures
        outcome(made) == assembled(item@, signature@, parameters@.map_values(|p: Parameter| p@)),
        made is Ok <==> receiver_first(parameters@.map_values(|p: Parameter| p@)),
        made matches Ok(function) ==> function.signature.well_formed(),
{
    if !has_receiver_first(&parameters) {
        return Err(
            TransformError::NotAFunction {
                message: String::from_str("unexpected method receiver"),
            },
        );
    }
    Ok(
        FunctionDefinition {
            attributes: item.attributes,
            visibility: item.visibility,
            signature: Signature {
                is_const: signature.is_const,
                is_async: signature.is_async,
                is_unsafe: signature.is_unsafe,
                abi: signature.abi,
                name: signature.name,
                generics: signature.generics,
                parameters,
                trailing_comma: signature.trailing_comma,
                variadic: signature.variadic,
                output: signature.output,
                where_clause: signature.where_clause,
            },
            statements: item.statements,
        },
    )
}

/// Reads `source` as one function definition.
///
/// The result is exactly `parsed_function(source)`: the definition with every
/// part as the parser found it, or `NotAFunction` with the parser's message.
pub fn parse_function(source: &str) -> (parsed: Result<FunctionDefinition, TransformError>)
    ensures
        outcome(parsed) == parsed_function(source@),
        parsed matches Ok(function) ==> function.signature.well_formed(),
{
    let item = match parse_item(source) {
        Ok(item) => item,
        Err(message) => {
            return Err(TransformError::NotAFunction { message });
        },
    };
    let signature = match parse_signature(item.signature.as_str()) {
        Ok(signature) => signature,
        Err(message) => {
            return Err(TransformError::NotAFunction { message });
        },
    };
    let parameters = match parse_parameters(&signature.inputs) {
        Ok(parameters) => parameters,
        Err(message) => {
            return Err(TransformError::NotAFunction { message });
        },
    };
    assemble(item, signature, parameters)
}

/// Reads `text` as the path of a handler.
///
/// The result is exactly `parsed_handler(text)`: the path as the parser printed
/// it, or `InvalidHandler` with the parser's message.
pub fn parse_handler(text: &str) -> (parsed: Result<HandlerReference, TransformError>)
    ensures
        outcome(parsed) == parsed_handler(text@),
{
    match parse_path(text) {
        Ok(path) => Ok(HandlerReference { path }),
        Err(message) => Err(TransformError::InvalidHandler { message }),
    }
}

} // verus!
