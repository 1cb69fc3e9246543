//! What holds of every rewrite.

use vstd::prelude::*;
use crate::function::{FunctionView, ParameterView, receiver_first};
use crate::meaning::{bound, call_of, call_of_rewritten, names_one_of, same_identifier};
use crate::render::signature_pieces;
use crate::rewrite::{
    error_binding, forwarded_arguments, helper_parameters, internal_name, rewritten,
    rewritten_pieces, unraw,
};
use crate::text::{lemma_line_begins_with, line};

verus! {

/// The rewritten definition keeps the shell: its visibility and its signature,
/// name, generic parameters, parameters, receiver and return type included, are
/// those of the function, and its text begins with the text of the two.
pub proof fn lemma_shell_is_kept(function: FunctionView, handler: Seq<char>)
    ensures
        rewritten(function, handler).visibility == function.visibility,
        rewritten(function, handler).signature == function.signature,
        line(seq![function.visibility] + signature_pieces(function.signature)).is_prefix_of(
            line(rewritten_pieces(rewritten(function, handler))),
        ),
{
    let shell = seq![function.visibility] + signature_pieces(function.signature);
    let whole = rewritten_pieces(rewritten(function, handler));
    let body = whole.skip(shell.len() as int);
    assert(whole =~= shell + body);
    lemma_line_begins_with(shell, body);
}

/// The helper has no receiver, and the shell keeps the one it had: where the
/// function is a method, the helper's parameters are the function's without the
/// first; where it is not, they are the function's.
pub proof fn lemma_receiver_is_stripped(function: FunctionView, handler: Seq<char>)
    requires
        receiver_first(function.signature.parameters),
    ensures
        ({
            let parameters = function.signature.parameters;
            let result = rewritten(function, handler);
            let kept = result.helper.signature.parameters;
            &&& result.signature.parameters == parameters
            &&& forall|i: int| 0 <= i < kept.len() ==> #[trigger] kept[i] is Typed
            &&& kept == if parameters.len() > 0 && parameters[0] is Receiver {
                parameters.skip(1)
            } else {
                parameters
            }
        }),
{
    let parameters = function.signature.parameters;
    let typed = |p: ParameterView| p is Typed;
    if parameters.len() > 0 && parameters[0] is Receiver {
        let first = parameters.take(1);
        let others = parameters.skip(1);
        assert(parameters =~= first + others);
        Seq::filter_distributes_over_add(first, others, typed);
        lemma_filter_keeps_none(first, typed);
        lemma_filter_keeps_all(others, typed);
    } else {
        lemma_filter_keeps_all(parameters, typed);
    }
}

/// Where every parameter but the receiver is bound by an identifier, the
/// forwarding call hands the helper one argument for each of its parameters, in
/// the parameters' order: the identifier that the parameter binds.
pub proof fn lemma_forwarding_is_faithful(function: FunctionView, handler: Seq<char>)
    requires
        forall|i: int|
            0 <= i < function.signature.parameters.len()
                && #[trigger] function.signature.parameters[i] is Typed
                ==> function.signature.parameters[i].binding() is Some,
    ensures
        ({
            let result = rewritten(function, handler);
            let arguments = result.dispatch.arguments;
            let kept = result.helper.signature.parameters;
            &&& arguments.len() == kept.len()
            &&& forall|i: int|
                0 <= i < arguments.len() ==> Some(#[trigger] arguments[i]) == kept[i].binding()
        }),
{
    lemma_arguments_follow_parameters(function.signature.parameters);
}

/// The identifier that the error arm binds is never the handler's path, so the
/// path in the arm stands for the handler.
pub proof fn lemma_binding_is_not_the_handler(handler: Seq<char>)
    ensures
        error_binding(handler) != handler,
        !same_identifier(error_binding(handler), handler),
{
    if unraw(handler) == seq!['e'] {
        assert(unraw(error_binding(handler)).len() == 5);
    }
}

/// A call of the rewritten definition returns what the function returned where
/// that was a success, and what the handler returns for the error where it was
/// an error. This holds of a synchronous function with a synchronous handler,
/// and of an `async` function with an `async` handler, whose results the
/// dispatch awaits. It holds of a method as of a free function.
///
/// It is stated of the calls that have a meaning in `meaning`: every parameter
/// but the receiver binds an identifier, no two bind the same, there is an
/// argument for each, and none of the identifiers is the helper's name or the
/// handler's path.
pub proof fn lemma_errors_go_through_handler<V, T, E>(
    function: FunctionView,
    handler: Seq<char>,
    body: spec_fn(Seq<char>, Map<Seq<char>, V>) -> Result<T, E>,
    handle: spec_fn(Seq<char>, E) -> Result<T, E>,
    handler_is_async: bool,
    arguments: Seq<V>,
)
    requires
        forall|i: int|
            0 <= i < function.signature.parameters.len()
                && #[trigger] function.signature.parameters[i] is Typed
                ==> function.signature.parameters[i].binding() is Some,
        forall|i: int, j: int|
            0 <= i < j < forwarded_arguments(function.signature.parameters).len()
                ==> !same_identifier(
                #[trigger] forwarded_arguments(function.signature.parameters)[i],
                #[trigger] forwarded_arguments(function.signature.parameters)[j],
            ),
        !names_one_of(
            forwarded_arguments(function.signature.parameters),
            internal_name(function.signature.name),
        ),
        !names_one_of(forwarded_arguments(function.signature.parameters), handler),
        arguments.len() == forwarded_arguments(function.signature.parameters).len(),
        handler_is_async == function.signature.is_async,
    ensures
        call_of_rewritten(rewritten(function, handler), body, handle, handler_is_async, arguments)
            == Some(
            match call_of(function, body, arguments) {
                Ok(value) => Ok(value),
                Err(error) => handle(handler, error),
            },
        ),
{
    let parameters = function.signature.parameters;
    let names = forwarded_arguments(parameters);
    let shell = bound(names, arguments);
    lemma_arguments_follow_parameters(parameters);
    lemma_helper_binds_the_same(parameters);
    lemma_binding_is_not_the_handler(handler);
    assert forall|i: int| 0 <= i < names.len() implies shell.dom().contains(#[trigger] names[i])
        && shell[names[i]] == arguments[i] && !same_identifier(
        names[i],
        internal_name(function.signature.name),
    ) by {
        assert(names.contains(names[i]));
    }
    assert(names.map_values(|name: Seq<char>| shell[name]) =~= arguments);
}

/// The helper binds the identifiers that the function binds: a receiver binds
/// none.
pub proof fn lemma_helper_binds_the_same(parameters: Seq<ParameterView>)
    ensures
        forwarded_arguments(helper_parameters(parameters)) == forwarded_arguments(parameters),
    decreases parameters.len(),
{
    reveal(Seq::filter);
    if parameters.len() > 0 {
        let shorter = parameters.drop_last();
        lemma_helper_binds_the_same(shorter);
        let kept = helper_parameters(shorter);
        if parameters.last() is Typed {
            assert(kept.push(parameters.last()).drop_last() =~= kept);
        }
    }
}

/// The identifiers that are forwarded are those that the kept parameters bind,
/// position by position.
pub proof fn lemma_arguments_follow_parameters(parameters: Seq<ParameterView>)
    requires
        forall|i: int|
            0 <= i < parameters.len() && #[trigger] parameters[i] is Typed
                ==> parameters[i].binding() is Some,
    ensures
        forwarded_arguments(parameters).len() == helper_parameters(parameters).len(),
        forall|i: int|
            0 <= i < forwarded_arguments(parameters).len() ==> Some(
                #[trigger] forwarded_arguments(parameters)[i],
            ) == helper_parameters(parameters)[i].binding(),
    decreases parameters.len(),
{
    reveal(Seq::filter);
    if parameters.len() > 0 {
        let shorter = parameters.drop_last();
        lemma_arguments_follow_parameters(shorter);
    }
}

/// A filter that no item passes keeps nothing.
proof fn lemma_filter_keeps_none<A>(items: Seq<A>, pass: spec_fn(A) -> bool)
    requires
        forall|i: int| 0 <= i < items.len() ==> !pass(#[trigger] items[i]),
    ensures
        items.filter(pass) == Seq::<A>::empty(),
    decreases items.len(),
{
    reveal(Seq::filter);
    if items.len() > 0 {
        lemma_filter_keeps_none(items.drop_last(), pass);
    }
}

/// A filter that every item passes keeps everything.
proof fn lemma_filter_keeps_all<A>(items: Seq<A>, pass: spec_fn(A) -> bool)
    requires
        forall|i: int| 0 <= i < items.len() ==> pass(#[trigger] items[i]),
    ensures
        items.filter(pass) == items,
    decreases items.len(),
{
    reveal(Seq::filter);
    if items.len() > 0 {
        lemma_filter_keeps_all(items.drop_last(), pass);
    }
}

} // verus!
