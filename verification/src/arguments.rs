//! How the arguments of a call are shown: each loggable parameter as
//! `name=value`, with the values of skipped parameters withheld.

use crate::options::AnnotationOptions;
use crate::signature::{views, Parameter, ParameterModel};
use crate::text::{join, joined, texts};
use vstd::prelude::*;

verus! {

/// One argument as it is shown.
#[derive(Clone, Debug, PartialEq, Eq)]
pub struct ArgumentDisplay {
    pub name: String,
    /// The debug representation of the value, or the redaction marker.
    pub rendered_value: String,
}

/// The mathematical content of an [`ArgumentDisplay`].
pub ghost struct DisplayModel {
    pub name: Seq<char>,
    pub rendered_value: Seq<char>,
}

impl View for ArgumentDisplay {
    type V = DisplayModel;

    open spec fn view(&self) -> DisplayModel {
        DisplayModel { name: self.name@, rendered_value: self.rendered_value@ }
    }
}

/// What stands in place of a value that is withheld.
pub open spec fn redaction_marker() -> Seq<char> {
    "***"@
}

/// How the parameter `name` is shown when its value renders as `value`.
pub open spec fn display(name: Seq<char>, skip: Seq<Seq<char>>, value: Seq<char>) -> DisplayModel {
    DisplayModel {
        name,
        rendered_value: if skip.contains(name) {
            redaction_marker()
        } else {
            value
        },
    }
}

/// How the parameters are shown, one entry each, in declaration order.
pub open spec fn displays(
    parameters: Seq<ParameterModel>,
    skip: Seq<Seq<char>>,
    values: Seq<Seq<char>>,
) -> Seq<DisplayModel> {
    Seq::new(parameters.len(), |i: int| display(parameters[i].name, skip, values[i]))
}

/// The text of one shown argument.
pub open spec fn fragment(shown: DisplayModel) -> Seq<char> {
    shown.name + "="@ + shown.rendered_value
}

/// The text of each shown argument.
pub open spec fn fragments(shown: Seq<DisplayModel>) -> Seq<Seq<char>> {
    Seq::new(shown.len(), |i: int| fragment(shown[i]))
}

/// The argument text of an entry event: `()` where nothing is shown, else
/// the fragments in order with `, ` between them.
pub open spec fn argument_text(shown: Seq<DisplayModel>) -> Seq<char> {
    if shown.len() == 0 {
        "()"@
    } else {
        join(fragments(shown), ", "@)
    }
}

/// Where no parameter is loggable, the argument text is `()`.
pub proof fn lemma_no_parameters_show_as_parentheses(
    parameters: Seq<ParameterModel>,
    skip: Seq<Seq<char>>,
    values: Seq<Seq<char>>,
)
    requires
        parameters.len() == 0,
    ensures
        argument_text(displays(parameters, skip, values)) == "()"@,
{
}

/// What is shown of a skipped parameter does not depend on its value: two
/// calls that differ only in the values of skipped parameters are shown
/// alike.
pub proof fn lemma_skipped_values_are_withheld(
    parameters: Seq<ParameterModel>,
    skip: Seq<Seq<char>>,
    values: Seq<Seq<char>>,
    others: Seq<Seq<char>>,
)
    requires
        values.len() == parameters.len(),
        others.len() == parameters.len(),
        forall|i: int|
            0 <= i < parameters.len() && !skip.contains(parameters[i].name) ==> values[i]
                == others[i],
    ensures
        displays(parameters, skip, values) == displays(parameters, skip, others),
        forall|i: int|
            0 <= i < parameters.len() && skip.contains(parameters[i].name) ==> displays(
                parameters,
                skip,
                values,
            )[i].rendered_value == redaction_marker(),
{
    assert(displays(parameters, skip, values) =~= displays(parameters, skip, others));
}

impl ArgumentDisplay {
    /// The text `name=value` of this argument.
    pub fn fragment(&self) -> (r: String)
        ensures
            r@ == fragment(self@),
    {
        let mut out = self.name.clone();
        out.append("=");
        out.append(self.rendered_value.as_str());
        out
    }
}

/// Shows the arguments of one call. `values` holds the debug representation
/// of each loggable parameter's value, in declaration order.
pub fn format_arguments(
    parameters: &Vec<Parameter>,
    options: &AnnotationOptions,
    values: &Vec<String>,
) -> (r: Vec<ArgumentDisplay>)
    requires
        values.len() == parameters.len(),
    ensures
        views(r@) == displays(views(parameters@), options@.skip, texts(values@)),
{
    let mut shown: Vec<ArgumentDisplay> = Vec::new();
    let mut i: usize = 0;
    while i < parameters.len()
        invariant
            i <= parameters.len(),
            values.len() == parameters.len(),
            shown.len() == i,
            forall|j: int|
                0 <= j < i ==> shown@[j]@ == display(
                    parameters@[j].name@,
                    options@.skip,
                    values@[j]@,
                ),
        decreases parameters.len() - i,
    {
        let name = parameters[i].name.clone();
        let rendered_value = if options.is_skipped(name.as_str()) {
            "***".to_owned()
        } else {
            values[i].clone()
        };
        shown.push(ArgumentDisplay { name, rendered_value });
        i = i + 1;
    }
    assert(views(shown@) =~= displays(views(parameters@), options@.skip, texts(values@)));
    shown
}

/// Writes the argument text of an entry event.
pub fn join_arguments(shown: &Vec<ArgumentDisplay>) -> (r: String)
    ensures
        r@ == argument_text(views(shown@)),
{
    if shown.len() == 0 {
        return "()".to_owned();
    }
    let mut pieces: Vec<String> = Vec::new();
    let mut i: usize = 0;
    while i < shown.len()
        invariant
            i <= shown.len(),
            pieces.len() == i,
            forall|j: int| 0 <= j < i ==> pieces@[j]@ == fragment(shown@[j]@),
        decreases shown.len() - i,
    {
        pieces.push(shown[i].fragment());
        i = i + 1;
    }
    assert(texts(pieces@) =~= fragments(views(shown@)));
    joined(&pieces, ", ")
}

} // verus!
