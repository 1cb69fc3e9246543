//! The rewrite: a function definition and a handler in, the definition that
//! routes errors through the handler out.

use vstd::prelude::*;
use crate::function::{
    FunctionDefinition, FunctionView, Parameter, ParameterView, Signature, SignatureView,
};
use crate::render::{
    function_pieces, keyword, push_comma_separated, push_keyword, push_text, signature_pieces,
};
use crate::text::{comma_separated, join, line};

verus! {

/// The path of the function that takes the error. It is not resolved here: it
/// goes into the rewritten definition as it stands.
#[derive(Debug, PartialEq, Eq)]
pub struct HandlerReference {
    pub path: String,
}

/// The expression that ends the rewritten body: a call of the helper, and a
/// match on its result that hands a success back and an error to the handler.
#[derive(Debug, PartialEq, Eq)]
pub struct Dispatch {
    /// The helper's name.
    pub callee: String,
    /// The identifiers handed to the helper, in order.
    pub arguments: Vec<String>,
    pub handler: String,
    /// Whether the helper's call and the handler's call are awaited.
    pub awaited: bool,
}

/// A rewritten definition: the function's shell around the helper and the
/// dispatch.
#[derive(Debug, PartialEq, Eq)]
pub struct RewrittenFunction {
    pub visibility: String,
    pub signature: Signature,
    /// The function's definition under its internal name, private and without
    /// a receiver.
    pub helper: FunctionDefinition,
    pub dispatch: Dispatch,
}

pub struct DispatchView {
    pub callee: Seq<char>,
    pub arguments: Seq<Seq<char>>,
    pub handler: Seq<char>,
    pub awaited: bool,
}

pub struct RewrittenView {
    pub visibility: Seq<char>,
    pub signature: SignatureView,
    pub helper: FunctionView,
    pub dispatch: DispatchView,
}

impl View for HandlerReference {
    type V = Seq<char>;

    open spec fn view(&self) -> Seq<char> {
        self.path@
    }
}

impl View for Dispatch {
    type V = DispatchView;

    open spec fn view(&self) -> DispatchView {
        DispatchView {
            callee: self.callee@,
            arguments: self.arguments.deep_view(),
            handler: self.handler@,
            awaited: self.awaited,
        }
    }
}

impl View for RewrittenFunction {
    type V = RewrittenView;

    open spec fn view(&self) -> RewrittenView {
        RewrittenView {
            visibility: self.visibility@,
            signature: self.signature@,
            helper: self.helper@,
            dispatch: self.dispatch@,
        }
    }
}

/// An identifier without the `r#` that marks it as raw.
pub open spec fn unraw(name: Seq<char>) -> Seq<char> {
    if name.len() >= 2 && name[0] == 'r' && name[1] == '#' {
        name.skip(2)
    } else {
        name
    }
}

/// The helper's name: an underscore before the function's own name.
pub open spec fn internal_name(name: Seq<char>) -> Seq<char> {
    seq!['_'] + unraw(name)
}

/// The helper's parameters: those of the function that are no receiver, in
/// their order.
pub open spec fn helper_parameters(parameters: Seq<ParameterView>) -> Seq<ParameterView> {
    parameters.filter(|p: ParameterView| p is Typed)
}

/// The identifiers that the parameters bind, in the parameters' order. A
/// parameter whose pattern is no identifier contributes none.
pub open spec fn forwarded_arguments(parameters: Seq<ParameterView>) -> Seq<Seq<char>> {
    parameters.filter_map(|p: ParameterView| p.binding())
}

/// The helper: the definition, attributes and body included, under the
/// internal name, without a receiver and without a visibility qualifier.
pub open spec fn helper_of(function: FunctionView) -> FunctionView {
    FunctionView {
        visibility: Seq::empty(),
        signature: SignatureView {
            name: internal_name(function.signature.name),
            parameters: helper_parameters(function.signature.parameters),
            trailing_comma: false,
            ..function.signature
        },
        ..function
    }
}

/// The dispatch that ends the rewritten body.
pub open spec fn dispatch_of(function: FunctionView, handler: Seq<char>) -> DispatchView {
    DispatchView {
        callee: internal_name(function.signature.name),
        arguments: forwarded_arguments(function.signature.parameters),
        handler,
        awaited: function.signature.is_async,
    }
}

/// The rewritten definition of `function` for `handler`.
pub open spec fn rewritten(function: FunctionView, handler: Seq<char>) -> RewrittenView {
    RewrittenView {
        visibility: function.visibility,
        signature: function.signature,
        helper: helper_of(function),
        dispatch: dispatch_of(function, handler),
    }
}

/// The identifier that the error arm binds the error to: `e`, or `error` where
/// the handler's path is itself the identifier `e`, which the arm would
/// otherwise take for its own.
pub open spec fn error_binding(handler: Seq<char>) -> Seq<char> {
    if unraw(handler) == seq!['e'] {
        seq!['e', 'r', 'r', 'o', 'r']
    } else {
        seq!['e']
    }
}

/// The token text of a dispatch. The error arm binds the error to
/// `error_binding` of the handler, and hands that to the handler.
pub open spec fn dispatch_pieces(dispatch: DispatchView) -> Seq<Seq<char>> {
    seq!["match"@, dispatch.callee, "("@] + comma_separated(dispatch.arguments) + seq![
        ")"@,
        keyword(dispatch.awaited, ".await"@),
        "{ Ok(v) => Ok(v), Err("@,
        error_binding(dispatch.handler),
        ") =>"@,
        dispatch.handler,
        "("@,
        error_binding(dispatch.handler),
        ")"@,
        keyword(dispatch.awaited, ".await"@),
        "}"@,
    ]
}

/// The token text of a rewritten definition: the shell's visibility and
/// signature, and in braces the helper followed by the dispatch.
pub open spec fn rewritten_pieces(rewritten: RewrittenView) -> Seq<Seq<char>> {
    seq![rewritten.visibility] + signature_pieces(rewritten.signature) + seq!["{"@]
        + function_pieces(rewritten.helper) + dispatch_pieces(rewritten.dispatch) + seq!["}"@]
}

/// Derives the helper's name from the function's name.
pub fn internal_name_of(name: &str) -> (internal: String)
    ensures
        internal@ == internal_name(name@),
{
    let length = name.unicode_len();
    let mut internal = String::from_str("_");
    proof {
        reveal_strlit("_");
    }
    if length >= 2 && name.get_char(0) == 'r' && name.get_char(1) == '#' {
        internal.append(name.substring_char(2, length));
    } else {
        internal.append(name);
    }
    internal
}

/// Chooses the identifier that the error arm binds: one that is not the
/// handler's path, raw or not.
pub fn error_binding_of(handler: &str) -> (binding: String)
    ensures
        binding@ == error_binding(handler@),
        binding@ != handler@,
        unraw(binding@) != unraw(handler@),
{
    let length = handler.unicode_len();
    let plain = length == 1 && handler.get_char(0) == 'e';
    let raw = length == 3 && handler.get_char(0) == 'r' && handler.get_char(1) == '#'
        && handler.get_char(2) == 'e';
    proof {
        reveal_strlit("e");
        reveal_strlit("error");
        if plain || raw {
            assert(unraw(handler@) =~= seq!['e']);
        } else if unraw(handler@) == seq!['e'] {
            assert(unraw(handler@).len() == 1 && unraw(handler@)[0] == 'e');
        }
    }
    if plain || raw {
        String::from_str("error")
    } else {
        String::from_str("e")
    }
}

/// Copies the parameters that are no receiver.
pub fn helper_parameters_of(parameters: &Vec<Parameter>) -> (kept: Vec<Parameter>)
    ensures
        kept@.map_values(|p: Parameter| p@) == helper_parameters(
            parameters@.map_values(|p: Parameter| p@),
        ),
{
    let ghost all = parameters@.map_values(|p: Parameter| p@);
    let ghost typed = |p: ParameterView| p is Typed;
    let mut kept: Vec<Parameter> = Vec::new();
    let mut i: usize = 0;
    proof {
        reveal(Seq::filter);
    }
    while i < parameters.len()
        invariant
            i <= parameters.len(),
            all == parameters@.map_values(|p: Parameter| p@),
            typed == (|p: ParameterView| p is Typed),
            kept@.map_values(|p: Parameter| p@) == all.take(i as int).filter(typed),
        decreases parameters.len() - i,
    {
        proof {
            reveal(Seq::filter);
            assert(all.take(i + 1).drop_last() =~= all.take(i as int));
        }
        if !parameters[i].is_receiver() {
            kept.push(parameters[i].clone());
        }
        i += 1;
    }
    proof {
        assert(all.take(i as int) =~= all);
    }
    kept
}

/// Collects the identifiers that the parameters bind.
pub fn forwarded_arguments_of(parameters: &Vec<Parameter>) -> (arguments: Vec<String>)
    ensures
        arguments.deep_view() == forwarded_arguments(parameters@.map_values(|p: Parameter| p@)),
{
    let ghost all = parameters@.map_values(|p: Parameter| p@);
    let ghost binding = |p: ParameterView| p.binding();
    let mut arguments: Vec<String> = Vec::new();
    let mut i: usize = 0;
    while i < parameters.len()
        invariant
            i <= parameters.len(),
            all == parameters@.map_values(|p: Parameter| p@),
            binding == (|p: ParameterView| p.binding()),
            arguments.deep_view() == all.take(i as int).filter_map(binding),
        decreases parameters.len() - i,
    {
        proof {
            assert(all.take(i + 1).drop_last() =~= all.take(i as int));
        }
        match &parameters[i] {
            Parameter::Typed { binding: Some(name), .. } => {
                arguments.push(name.clone());
            },
            _ => {},
        }
        i += 1;
    }
    proof {
        assert(all.take(i as int) =~= all);
    }
    arguments
}

/// Rewrites `function` so that its errors go through `handler`.
///
/// The result keeps the function's visibility and signature. Its helper is the
/// function itself under the internal name, private, with every receiver
/// removed and the other parameters in their order. Its dispatch calls the helper with the
/// identifiers that those parameters bind, in their order, and awaits the
/// helper and the handler exactly when the function is `async`.
pub fn transform(function: &FunctionDefinition, handler: &HandlerReference) -> (result:
    RewrittenFunction)
    ensures
        result@ == rewritten(function@, handler@),
        result@.visibility == function@.visibility,
        result@.signature == function@.signature,
        result@.helper.visibility.len() == 0,
        result@.helper.signature.parameters == function@.signature.parameters.filter(
            |p: ParameterView| p is Typed,
        ),
        forall|i: int|
            0 <= i < result@.helper.signature.parameters.len()
                ==> #[trigger] result@.helper.signature.parameters[i] is Typed,
        result@.dispatch.arguments == function@.signature.parameters.filter_map(
            |p: ParameterView| p.binding(),
        ),
        result@.dispatch.awaited == function@.signature.is_async,
        function.signature.well_formed() ==> result.signature.well_formed(),
        result.helper.signature.well_formed(),
{
    let callee = internal_name_of(function.signature.name.as_str());
    let kept = helper_parameters_of(&function.signature.parameters);
    let arguments = forwarded_arguments_of(&function.signature.parameters);
    let mut helper = function.clone();
    helper.visibility = String::new();
    helper.signature.name = callee.clone();
    helper.signature.parameters = kept;
    helper.signature.trailing_comma = false;
    let result = RewrittenFunction {
        visibility: function.visibility.clone(),
        signature: function.signature.clone(),
        helper,
        dispatch: Dispatch {
            callee,
            arguments,
            handler: handler.path.clone(),
            awaited: function.signature.is_async,
        },
    };
    proof {
        broadcast use Seq::lemma_filter_pred;
    }
    result
}

impl Dispatch {
    /// Appends the dispatch's token text, piece by piece.
    pub fn write(&self, pieces: &mut Vec<String>)
        ensures
            final(pieces).deep_view() == old(pieces).deep_view() + dispatch_pieces(self@),
    {
        push_text(pieces, "match");
        push_text(pieces, self.callee.as_str());
        push_text(pieces, "(");
        push_comma_separated(pieces, &self.arguments);
        push_text(pieces, ")");
        push_keyword(pieces, self.awaited, ".await");
        let binding = error_binding_of(self.handler.as_str());
        push_text(pieces, "{ Ok(v) => Ok(v), Err(");
        push_text(pieces, binding.as_str());
        push_text(pieces, ") =>");
        push_text(pieces, self.handler.as_str());
        push_text(pieces, "(");
        push_text(pieces, binding.as_str());
        push_text(pieces, ")");
        push_keyword(pieces, self.awaited, ".await");
        push_text(pieces, "}");
    }
}

impl RewrittenFunction {
    /// The rewritten definition as source text.
    pub fn render(&self) -> (source: String)
        ensures
            source@ == line(rewritten_pieces(self@)),
    {
        let mut pieces: Vec<String> = Vec::new();
        push_text(&mut pieces, self.visibility.as_str());
        self.signature.write(&mut pieces);
        push_text(&mut pieces, "{");
        self.helper.write(&mut pieces);
        self.dispatch.write(&mut pieces);
        push_text(&mut pieces, "}");
        assert(pieces.deep_view() =~= rewritten_pieces(self@));
        join(&pieces)
    }
}

} // verus!
