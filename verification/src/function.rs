//! Function definitions, held as the token text of their parts.
//!
//! Each `String` of a definition is a run of whole tokens. Only what the
//! rewrite reads has a field of its own: the name, the `async` marker and,
//! parameter by parameter, whether it is a receiver and which identifier it
//! binds. Everything else is carried as text.

use vstd::prelude::*;

verus! {

/// An attribute of a function item.
#[derive(Debug, PartialEq, Eq)]
pub enum Attribute {
    /// Written before the item, as `#[inline]` is.
    Outer(String),
    /// Written at the head of the body, as `#![allow(unused)]` is.
    Inner(String),
}

/// One parameter of a function.
#[derive(Debug, PartialEq, Eq)]
pub enum Parameter {
    /// The `self` of a method, in any of its forms.
    Receiver { tokens: String },
    /// A pattern with its type. `binding` is the identifier that the pattern
    /// binds when the pattern is an identifier pattern, and `None` for every
    /// other pattern.
    Typed { tokens: String, binding: Option<String> },
}

/// The signature of a function.
#[derive(Debug, PartialEq, Eq)]
pub struct Signature {
    pub is_const: bool,
    pub is_async: bool,
    pub is_unsafe: bool,
    /// `extern "C"`, or empty.
    pub abi: String,
    pub name: String,
    /// The generic parameters with their angle brackets, or empty.
    pub generics: String,
    pub parameters: Vec<Parameter>,
    /// Whether a comma follows the last parameter.
    pub trailing_comma: bool,
    /// The variadic argument of a foreign function, or empty.
    pub variadic: String,
    /// The arrow and the return type, or empty.
    pub output: String,
    /// The `where` clause, or empty.
    pub where_clause: String,
}

/// A function definition.
#[derive(Debug, PartialEq, Eq)]
pub struct FunctionDefinition {
    pub attributes: Vec<Attribute>,
    /// The visibility qualifier, or empty.
    pub visibility: String,
    pub signature: Signature,
    /// The statements of the body, without its braces.
    pub statements: String,
}

pub enum AttributeView {
    Outer(Seq<char>),
    Inner(Seq<char>),
}

pub enum ParameterView {
    Receiver { tokens: Seq<char> },
    Typed { tokens: Seq<char>, binding: Option<Seq<char>> },
}

pub struct SignatureView {
    pub is_const: bool,
    pub is_async: bool,
    pub is_unsafe: bool,
    pub abi: Seq<char>,
    pub name: Seq<char>,
    pub generics: Seq<char>,
    pub parameters: Seq<ParameterView>,
    pub trailing_comma: bool,
    pub variadic: Seq<char>,
    pub output: Seq<char>,
    pub where_clause: Seq<char>,
}

pub struct FunctionView {
    pub attributes: Seq<AttributeView>,
    pub visibility: Seq<char>,
    pub signature: SignatureView,
    pub statements: Seq<char>,
}

impl AttributeView {
    pub open spec fn tokens(self) -> Seq<char> {
        match self {
            AttributeView::Outer(tokens) => tokens,
            AttributeView::Inner(tokens) => tokens,
        }
    }
}

impl ParameterView {
    pub open spec fn tokens(self) -> Seq<char> {
        match self {
            ParameterView::Receiver { tokens } => tokens,
            ParameterView::Typed { tokens, .. } => tokens,
        }
    }

    /// The identifier that the parameter binds, if its pattern is one.
    pub open spec fn binding(self) -> Option<Seq<char>> {
        match self {
            ParameterView::Receiver { .. } => None,
            ParameterView::Typed { binding, .. } => binding,
        }
    }
}

/// A receiver stands first or nowhere, so there is at most one.
pub open spec fn receiver_first(parameters: Seq<ParameterView>) -> bool {
    forall|i: int| 0 < i < parameters.len() ==> #[trigger] parameters[i] is Typed
}

/// Whether a receiver stands first or nowhere.
pub fn has_receiver_first(parameters: &Vec<Parameter>) -> (holds: bool)
    ensures
        holds == receiver_first(parameters@.map_values(|p: Parameter| p@)),
{
    let ghost all = parameters@.map_values(|p: Parameter| p@);
    let mut i: usize = 1;
    while i < parameters.len()
        invariant
            1 <= i,
            all == parameters@.map_values(|p: Parameter| p@),
            forall|j: int| 0 < j < i && j < all.len() ==> #[trigger] all[j] is Typed,
        decreases parameters.len() - i,
    {
        if parameters[i].is_receiver() {
            assert(!(all[i as int] is Typed));
            return false;
        }
        i += 1;
    }
    true
}

impl View for Attribute {
    type V = AttributeView;

    open spec fn view(&self) -> AttributeView {
        match *self {
            Attribute::Outer(tokens) => AttributeView::Outer(tokens@),
            Attribute::Inner(tokens) => AttributeView::Inner(tokens@),
        }
    }
}

impl View for Parameter {
    type V = ParameterView;

    open spec fn view(&self) -> ParameterView {
        match *self {
            Parameter::Receiver { tokens } => ParameterView::Receiver { tokens: tokens@ },
            Parameter::Typed { tokens, binding } => ParameterView::Typed {
                tokens: tokens@,
                binding: match binding {
                    Some(name) => Some(name@),
                    None => None,
                },
            },
        }
    }
}

impl View for Signature {
    type V = SignatureView;

    open spec fn view(&self) -> SignatureView {
        SignatureView {
            is_const: self.is_const,
            is_async: self.is_async,
            is_unsafe: self.is_unsafe,
            abi: self.abi@,
            name: self.name@,
            generics: self.generics@,
            parameters: self.parameters@.map_values(|p: Parameter| p@),
            trailing_comma: self.trailing_comma,
            variadic: self.variadic@,
            output: self.output@,
            where_clause: self.where_clause@,
        }
    }
}

impl View for FunctionDefinition {
    type V = FunctionView;

    open spec fn view(&self) -> FunctionView {
        FunctionView {
            attributes: self.attributes@.map_values(|a: Attribute| a@),
            visibility: self.visibility@,
            signature: self.signature@,
            statements: self.statements@,
        }
    }
}

impl Clone for Attribute {
    fn clone(&self) -> (copy: Self)
        ensures
            copy@ == self@,
    {
        match self {
            Attribute::Outer(tokens) => Attribute::Outer(tokens.clone()),
            Attribute::Inner(tokens) => Attribute::Inner(tokens.clone()),
        }
    }
}

impl Clone for Parameter {
    fn clone(&self) -> (copy: Self)
        ensures
            copy@ == self@,
    {
        match self {
            Parameter::Receiver { tokens } => Parameter::Receiver { tokens: tokens.clone() },
            Parameter::Typed { tokens, binding } => Parameter::Typed {
                tokens: tokens.clone(),
                binding: match binding {
                    Some(name) => Some(name.clone()),
                    None => None,
                },
            },
        }
    }
}

impl Parameter {
    pub fn is_receiver(&self) -> (receiver: bool)
        ensures
            receiver == (self@ is Receiver),
    {
        match self {
            Parameter::Receiver { .. } => true,
            Parameter::Typed { .. } => false,
        }
    }
}

impl Signature {
    /// Whether the parameter list is one that a method or a free function can
    /// have.
    pub open spec fn well_formed(&self) -> bool {
        receiver_first(self@.parameters)
    }

    /// Tests `well_formed`.
    pub fn is_well_formed(&self) -> (holds: bool)
        ensures
            holds == self.well_formed(),
    {
        has_receiver_first(&self.parameters)
    }
}

impl Clone for Signature {
    fn clone(&self) -> (copy: Self)
        ensures
            copy@ == self@,
    {
        let mut parameters: Vec<Parameter> = Vec::new();
        let mut i: usize = 0;
        while i < self.parameters.len()
            invariant
                i <= self.parameters.len(),
                parameters.len() == i,
                forall|j: int| 0 <= j < i ==> parameters[j]@ == self.parameters[j]@,
            decreases self.parameters.len() - i,
        {
            parameters.push(self.parameters[i].clone());
            i += 1;
        }
        assert(parameters@.map_values(|p: Parameter| p@) =~= self@.parameters);
        Signature {
            is_const: self.is_const,
            is_async: self.is_async,
            is_unsafe: self.is_unsafe,
            abi: self.abi.clone(),
            name: self.name.clone(),
            generics: self.generics.clone(),
            parameters,
            trailing_comma: self.trailing_comma,
            variadic: self.variadic.clone(),
            output: self.output.clone(),
            where_clause: self.where_clause.clone(),
        }
    }
}

impl Clone for FunctionDefinition {
    fn clone(&self) -> (copy: Self)
        ensures
            copy@ == self@,
    {
        let mut attributes: Vec<Attribute> = Vec::new();
        let mut i: usize = 0;
        while i < self.attributes.len()
            invariant
                i <= self.attributes.len(),
                attributes.len() == i,
                forall|j: int| 0 <= j < i ==> attributes[j]@ == self.attributes[j]@,
            decreases self.attributes.len() - i,
        {
            attributes.push(self.attributes[i].clone());
            i += 1;
        }
        assert(attributes@.map_values(|a: Attribute| a@) =~= self@.attributes);
        FunctionDefinition {
            attributes,
            visibility: self.visibility.clone(),
            signature: self.signature.clone(),
            statements: self.statements.clone(),
        }
    }
}

} // verus!
