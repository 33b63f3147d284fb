//! What the generator reads from the annotated function definition.

use crate::error::GenerationError;
use crate::text::texts;
use quote::ToTokens;
use vstd::prelude::*;

verus! {

/// One entry of a parameter list.
#[derive(Clone, Debug, PartialEq, Eq)]
pub enum Input {
    /// The `self` of a method, in whatever form it is written.
    Receiver,
    /// A parameter bound to a single identifier.
    Identifier { name: String, ty: String },
    /// A parameter bound by any other pattern.
    Pattern,
}

/// The mathematical content of an [`Input`].
pub ghost enum InputModel {
    Receiver,
    Identifier { name: Seq<char>, ty: Seq<char> },
    Pattern,
}

impl View for Input {
    type V = InputModel;

    open spec fn view(&self) -> InputModel {
        match self {
            Input::Receiver => InputModel::Receiver,
            Input::Identifier { name, ty } => InputModel::Identifier { name: name@, ty: ty@ },
            Input::Pattern => InputModel::Pattern,
        }
    }
}

/// A parameter whose value can be shown: its name and its type as written.
#[derive(Clone, Debug, PartialEq, Eq)]
pub struct Parameter {
    pub name: String,
    pub ty: String,
}

/// The mathematical content of a [`Parameter`].
pub ghost struct ParameterModel {
    pub name: Seq<char>,
    pub ty: Seq<char>,
}

impl View for Parameter {
    type V = ParameterModel;

    open spec fn view(&self) -> ParameterModel {
        ParameterModel { name: self.name@, ty: self.ty@ }
    }
}

/// A function definition, taken apart. The texts are kept as they were read
/// and written out again unchanged.
#[derive(Clone, Debug, PartialEq, Eq)]
pub struct FunctionDescriptor {
    /// The attributes already on the function, in their order.
    pub decorations: Vec<String>,
    /// The visibility qualifier; empty where none is written.
    pub visibility: String,
    /// The whole signature, from the qualifiers before `fn` to the return type.
    pub signature: String,
    /// The name of the function.
    pub name: String,
    /// The parameter list, entry by entry, in declaration order.
    pub inputs: Vec<Input>,
    /// The declared return type; empty where none is written.
    pub return_type: String,
    /// The body, braces included.
    pub body: String,
}

/// The mathematical content of a [`FunctionDescriptor`].
pub ghost struct DescriptorModel {
    pub decorations: Seq<Seq<char>>,
    pub visibility: Seq<char>,
    pub signature: Seq<char>,
    pub name: Seq<char>,
    pub inputs: Seq<InputModel>,
    pub return_type: Seq<char>,
    pub body: Seq<char>,
}

/// The content of each element of a sequence.
pub open spec fn views<T: View>(items: Seq<T>) -> Seq<T::V> {
    Seq::new(items.len(), |i: int| items[i]@)
}

impl View for FunctionDescriptor {
    type V = DescriptorModel;

    open spec fn view(&self) -> DescriptorModel {
        DescriptorModel {
            decorations: texts(self.decorations@),
            visibility: self.visibility@,
            signature: self.signature@,
            name: self.name@,
            inputs: views(self.inputs@),
            return_type: self.return_type@,
            body: self.body@,
        }
    }
}

/// The parameters whose values can be shown: those bound to a single
/// identifier, in declaration order. Receivers and pattern-bound parameters
/// are left out.
pub open spec fn loggable(inputs: Seq<InputModel>) -> Seq<ParameterModel>
    decreases inputs.len(),
{
    if inputs.len() == 0 {
        Seq::empty()
    } else {
        let earlier = loggable(inputs.drop_last());
        match inputs.last() {
            InputModel::Identifier { name, ty } => earlier.push(ParameterModel { name, ty }),
            _ => earlier,
        }
    }
}

/// `syn::FnArg`, one entry of a parameter list as the parser holds it. It is
/// only handed on; nothing is known of what is inside.
#[verifier::external_type_specification]
#[verifier::external_body]
pub struct ExFnArg(syn::FnArg);

/// Tells the variants of `syn::FnArg` and of the `syn::Pat` in a typed
/// argument apart. For a `Pat::Ident` the name is that of its `ident` and
/// the type is printed by `ToTokens::to_token_stream`. Nothing is claimed of
/// the result.
#[verifier::external_body]
fn read_input(argument: &syn::FnArg) -> Input {
    match argument {
        syn::FnArg::Receiver(_) => Input::Receiver,
        syn::FnArg::Typed(typed) => match &*typed.pat {
            syn::Pat::Ident(binding) => Input::Identifier {
                name: binding.ident.to_string(),
                ty: typed.ty.to_token_stream().to_string(),
            },
            _ => Input::Pattern,
        },
    }
}

/// `syn::parse_str::<syn::ItemFn>`, with the parts of the item printed by
/// `ToTokens::to_token_stream` and the error given as its message. Nothing
/// is claimed of the result: how tokens are printed is proc-macro2's affair.
#[verifier::external_body]
fn read_function(source: &str) -> Result<FunctionDescriptor, String> {
    match syn::parse_str::<syn::ItemFn>(source) {
        Ok(item) => Ok(FunctionDescriptor {
            decorations: item.attrs.iter().map(|a| a.to_token_stream().to_string()).collect(),
            visibility: item.vis.to_token_stream().to_string(),
            signature: item.sig.to_token_stream().to_string(),
            name: item.sig.ident.to_string(),
            inputs: item.sig.inputs.iter().map(read_input).collect(),
            return_type: match &item.sig.output {
                syn::ReturnType::Default => String::new(),
                syn::ReturnType::Type(_, ty) => ty.to_token_stream().to_string(),
            },
            body: item.block.to_token_stream().to_string(),
        }),
        Err(error) => Err(error.to_string()),
    }
}

/// Reads a function definition. Whether a text is one, and how its parts
/// are printed, is decided by the parser; a text that is none is refused
/// with the parser's message.
pub fn extract_signature(source: &str) -> (r: Result<FunctionDescriptor, GenerationError>)
    ensures
        r matches Err(e) ==> e is InvalidDefinition,
{
    accept_reading(read_function(source))
}

/// What becomes of each outcome of the parser: a descriptor is handed on as
/// it was read, and a message becomes the reason why the definition is
/// invalid.
pub open spec fn accepted(
    outcome: Result<FunctionDescriptor, String>,
) -> Result<FunctionDescriptor, GenerationError> {
    match outcome {
        Ok(function) => Ok(function),
        Err(message) => Err(GenerationError::InvalidDefinition { message }),
    }
}

/// Turns the outcome of the parser into the result of reading a definition.
pub fn accept_reading(outcome: Result<FunctionDescriptor, String>) -> (r: Result<
    FunctionDescriptor,
    GenerationError,
>)
    ensures
        r == accepted(outcome),
{
    match outcome {
        Ok(function) => Ok(function),
        Err(message) => Err(GenerationError::InvalidDefinition { message }),
    }
}

impl FunctionDescriptor {
    /// The parameters whose values can be shown.
    pub fn parameters(&self) -> (r: Vec<Parameter>)
        ensures
            views(r@) == loggable(self@.inputs),
    {
        let mut found: Vec<Parameter> = Vec::new();
        let mut i: usize = 0;
        assert(views(self.inputs@).take(0) =~= Seq::empty());
        assert(views(found@) =~= Seq::empty());
        while i < self.inputs.len()
            invariant
                i <= self.inputs.len(),
                views(found@) == loggable(views(self.inputs@).take(i as int)),
            decreases self.inputs.len() - i,
        {
            proof {
                let read = views(self.inputs@).take(i as int + 1);
                assert(read.drop_last() =~= views(self.inputs@).take(i as int));
                assert(read.last() == self.inputs@[i as int]@);
            }
            match &self.inputs[i] {
                Input::Identifier { name, ty } => {
                    let parameter = Parameter { name: name.clone(), ty: ty.clone() };
                    assert(views(found@.push(parameter)) =~= views(found@).push(parameter@));
                    found.push(parameter);
                },
                _ => {},
            }
            i = i + 1;
        }
        assert(views(self.inputs@).take(i as int) =~= views(self.inputs@));
        found
    }
}

} // verus!
