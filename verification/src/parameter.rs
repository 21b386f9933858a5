//! Named values: the fields of a form and the parameters of a query.

use vstd::prelude::*;

verus! {

/// One field of a form, or one parameter of a query.
#[derive(Debug, Clone, PartialEq, Eq)]
pub struct Parameter {
    pub name: String,
    pub value: String,
}

impl View for Parameter {
    type V = (Seq<char>, Seq<char>);

    open spec fn view(&self) -> (Seq<char>, Seq<char>) {
        (self.name@, self.value@)
    }
}

/// The views of a list of parameters.
pub open spec fn parameters(items: Seq<Parameter>) -> Seq<(Seq<char>, Seq<char>)> {
    items.map_values(|item: Parameter| item@)
}

} // verus!
