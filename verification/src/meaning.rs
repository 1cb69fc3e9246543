//! What a call of a definition comes to, before the rewrite and after it.
//!
//! The rewrite does not read the body, the types or the handler, so their
//! meaning comes in from outside: `body` says what a run of statements returns
//! under an environment that binds names to values, and `handle` what the
//! function at a path returns for an error. A call binds each identifier of the
//! parameter list to the argument in its place. The environment holds the
//! identifiers that identifier patterns bind and nothing else: what another
//! pattern binds, and the receiver, are no part of it.

use vstd::prelude::*;
use crate::function::FunctionView;
use crate::rewrite::{error_binding, forwarded_arguments, unraw, RewrittenView};

verus! {

/// Whether two texts are one identifier: `r#name` and `name` are.
pub open spec fn same_identifier(one: Seq<char>, other: Seq<char>) -> bool {
    unraw(one) == unraw(other)
}

/// Whether `name` is one of `names`.
pub open spec fn names_one_of(names: Seq<Seq<char>>, name: Seq<char>) -> bool {
    exists|i: int| 0 <= i < names.len() && same_identifier(#[trigger] names[i], name)
}

/// The environment of a call: each name with the value in its place.
pub open spec fn bound<V>(names: Seq<Seq<char>>, values: Seq<V>) -> Map<Seq<char>, V> {
    Map::new(
        |name: Seq<char>| names.contains(name),
        |name: Seq<char>| values[names.index_of(name)],
    )
}

/// What a call of `function` with `arguments` returns: what its statements
/// return where its parameters are bound to the arguments.
pub open spec fn call_of<V, T, E>(
    function: FunctionView,
    body: spec_fn(Seq<char>, Map<Seq<char>, V>) -> Result<T, E>,
    arguments: Seq<V>,
) -> Result<T, E> {
    body(
        function.statements,
        bound(forwarded_arguments(function.signature.parameters), arguments),
    )
}

/// What a call of a rewritten definition with `arguments` returns, or `None`
/// where its body is no call of the helper and of the handler.
///
/// The shell binds its parameters to the arguments. In its body the helper's
/// name stands for the helper, before any parameter of that name. So the
/// dispatch has to call the helper by its name, with one identifier for each of
/// the helper's parameters, each bound by the shell and none of them the
/// helper's name. In the error arm the handler's path has to stand for the
/// handler: it is neither the identifier that the arm binds nor one that the
/// shell binds. The dispatch has to await the helper exactly when the helper is
/// `async` and the handler exactly when the handler is.
///
/// The helper then runs its statements with its own parameters bound to the
/// values of the identifiers. A success is the result as it is; an error goes
/// to the handler, whose result is the result.
pub open spec fn call_of_rewritten<V, T, E>(
    rewritten: RewrittenView,
    body: spec_fn(Seq<char>, Map<Seq<char>, V>) -> Result<T, E>,
    handle: spec_fn(Seq<char>, E) -> Result<T, E>,
    handler_is_async: bool,
    arguments: Seq<V>,
) -> Option<Result<T, E>> {
    let names = forwarded_arguments(rewritten.signature.parameters);
    let shell = bound(names, arguments);
    let helper = rewritten.helper;
    let dispatch = rewritten.dispatch;
    let calls_helper = dispatch.callee == helper.signature.name && dispatch.arguments.len()
        == helper.signature.parameters.len();
    let hands_on_parameters = forall|i: int|
        0 <= i < dispatch.arguments.len() ==> shell.dom().contains(#[trigger] dispatch.arguments[i])
            && !same_identifier(dispatch.arguments[i], helper.signature.name);
    let calls_handler = !same_identifier(dispatch.handler, error_binding(dispatch.handler))
        && !names_one_of(names, dispatch.handler);
    let awaits = dispatch.awaited == helper.signature.is_async && dispatch.awaited
        == handler_is_async;
    if calls_helper && hands_on_parameters && calls_handler && awaits {
        let forwarded = dispatch.arguments.map_values(|name: Seq<char>| shell[name]);
        Some(
            match call_of(helper, body, forwarded) {
                Ok(value) => Ok(value),
                Err(error) => handle(dispatch.handler, error),
            },
        )
    } else {
        None
    }
}

} // verus!
