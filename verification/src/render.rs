//! The token text of a function definition.

use vstd::prelude::*;
use crate::function::{
    Attribute, AttributeView, FunctionDefinition, FunctionView, Parameter, ParameterView,
    Signature, SignatureView,
};
use crate::text::comma_separated;

verus! {

/// `word` where `present`, and nothing otherwise.
pub open spec fn keyword(present: bool, word: Seq<char>) -> Seq<char> {
    if present {
        word
    } else {
        Seq::empty()
    }
}

/// What stands between the parentheses of a signature: the parameters with
/// commas between them, a comma after the last one where the signature has a
/// trailing comma or a variadic argument to follow, and the variadic argument.
pub open spec fn parameter_pieces(signature: SignatureView) -> Seq<Seq<char>> {
    let listed = signature.parameters.map_values(|p: ParameterView| p.tokens());
    let closing_comma = listed.len() > 0 && (signature.trailing_comma || signature.variadic.len()
        > 0);
    comma_separated(listed) + seq![keyword(closing_comma, ","@), signature.variadic]
}

/// A signature, from its qualifiers to its `where` clause.
pub open spec fn signature_pieces(signature: SignatureView) -> Seq<Seq<char>> {
    seq![
        keyword(signature.is_const, "const"@),
        keyword(signature.is_async, "async"@),
        keyword(signature.is_unsafe, "unsafe"@),
        signature.abi,
        "fn"@,
        signature.name,
        signature.generics,
        "("@,
    ] + parameter_pieces(signature) + seq![")"@, signature.output, signature.where_clause]
}

/// The attribute's text where it is an outer attribute.
pub open spec fn outer_tokens(attribute: AttributeView) -> Seq<char> {
    match attribute {
        AttributeView::Outer(tokens) => tokens,
        AttributeView::Inner(_) => Seq::empty(),
    }
}

/// The attribute's text where it is an inner attribute.
pub open spec fn inner_tokens(attribute: AttributeView) -> Seq<char> {
    match attribute {
        AttributeView::Outer(_) => Seq::empty(),
        AttributeView::Inner(tokens) => tokens,
    }
}

/// A whole definition: outer attributes, visibility, signature, and the body in
/// braces with the inner attributes at its head.
pub open spec fn function_pieces(function: FunctionView) -> Seq<Seq<char>> {
    function.attributes.map_values(|a: AttributeView| outer_tokens(a)) + seq![function.visibility]
        + signature_pieces(function.signature) + seq!["{"@] + function.attributes.map_values(
        |a: AttributeView| inner_tokens(a),
    ) + seq![function.statements, "}"@]
}

/// Appends one piece.
pub fn push_text(pieces: &mut Vec<String>, text: &str)
    ensures
        final(pieces).deep_view() == old(pieces).deep_view().push(text@),
{
    pieces.push(String::from_str(text));
}

/// Appends `word` where `present`, and an empty piece otherwise.
pub fn push_keyword(pieces: &mut Vec<String>, present: bool, word: &str)
    ensures
        final(pieces).deep_view() == old(pieces).deep_view().push(keyword(present, word@)),
{
    if present {
        push_text(pieces, word);
    } else {
        pieces.push(String::new());
    }
}

/// Appends the items with a comma between each two neighbours.
pub fn push_comma_separated(pieces: &mut Vec<String>, items: &Vec<String>)
    ensures
        final(pieces).deep_view() == old(pieces).deep_view() + comma_separated(items.deep_view()),
{
    let ghost before = pieces.deep_view();
    let ghost all = items.deep_view();
    let mut i: usize = 0;
    while i < items.len()
        invariant
            i <= items.len(),
            before == old(pieces).deep_view(),
            all == items.deep_view(),
            pieces.deep_view() == before + comma_separated(all.take(i as int)),
        decreases items.len() - i,
    {
        if i > 0 {
            push_text(pieces, ",");
        }
        push_text(pieces, items[i].as_str());
        proof {
            assert(all.take(i + 1).drop_last() =~= all.take(i as int));
        }
        i += 1;
    }
    proof {
        assert(all.take(i as int) =~= all);
    }
}

impl Signature {
    /// Appends the signature's token text, piece by piece.
    pub fn write(&self, pieces: &mut Vec<String>)
        ensures
            final(pieces).deep_view() == old(pieces).deep_view() + signature_pieces(self@),
    {
        push_keyword(pieces, self.is_const, "const");
        push_keyword(pieces, self.is_async, "async");
        push_keyword(pieces, self.is_unsafe, "unsafe");
        push_text(pieces, self.abi.as_str());
        push_text(pieces, "fn");
        push_text(pieces, self.name.as_str());
        push_text(pieces, self.generics.as_str());
        push_text(pieces, "(");
        let mut listed: Vec<String> = Vec::new();
        let mut i: usize = 0;
        while i < self.parameters.len()
            invariant
                i <= self.parameters.len(),
                listed.len() == i,
                forall|j: int| 0 <= j < i ==> listed[j]@ == self.parameters[j]@.tokens(),
            decreases self.parameters.len() - i,
        {
            let tokens = match &self.parameters[i] {
                Parameter::Receiver { tokens } => tokens.clone(),
                Parameter::Typed { tokens, .. } => tokens.clone(),
            };
            listed.push(tokens);
            i += 1;
        }
        assert(listed.deep_view() =~= self@.parameters.map_values(|p: ParameterView| p.tokens()));
        push_comma_separated(pieces, &listed);
        let closing_comma = listed.len() > 0 && (self.trailing_comma
            || !self.variadic.as_str().is_empty());
        push_keyword(pieces, closing_comma, ",");
        push_text(pieces, self.variadic.as_str());
        push_text(pieces, ")");
        push_text(pieces, self.output.as_str());
        push_text(pieces, self.where_clause.as_str());
    }
}

impl FunctionDefinition {
    /// Appends the definition's token text, piece by piece.
    pub fn write(&self, pieces: &mut Vec<String>)
        ensures
            final(pieces).deep_view() == old(pieces).deep_view() + function_pieces(self@),
    {
        let ghost before = pieces.deep_view();
        let mut i: usize = 0;
        while i < self.attributes.len()
            invariant
                i <= self.attributes.len(),
                pieces.deep_view() == before + self@.attributes.take(i as int).map_values(
                    |a: AttributeView| outer_tokens(a),
                ),
            decreases self.attributes.len() - i,
        {
            match &self.attributes[i] {
                Attribute::Outer(tokens) => push_text(pieces, tokens.as_str()),
                Attribute::Inner(_) => push_text(pieces, ""),
            }
            proof {
                reveal_strlit("");
                assert(""@ =~= Seq::<char>::empty());
            }
            i += 1;
        }
        push_text(pieces, self.visibility.as_str());
        self.signature.write(pieces);
        push_text(pieces, "{");
        let ghost opened = pieces.deep_view();
        let mut i: usize = 0;
        while i < self.attributes.len()
            invariant
                i <= self.attributes.len(),
                pieces.deep_view() == opened + self@.attributes.take(i as int).map_values(
                    |a: AttributeView| inner_tokens(a),
                ),
            decreases self.attributes.len() - i,
        {
            match &self.attributes[i] {
                Attribute::Outer(_) => push_text(pieces, ""),
                Attribute::Inner(tokens) => push_text(pieces, tokens.as_str()),
            }
            proof {
                reveal_strlit("");
                assert(""@ =~= Seq::<char>::empty());
            }
            i += 1;
        }
        push_text(pieces, self.statements.as_str());
        push_text(pieces, "}");
    }
}

} // verus!
