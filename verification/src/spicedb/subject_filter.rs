//! What belongs to a subject filter alone.

use vstd::prelude::*;

verus! {

/// The relation that a subject filter asks of a subject.
#[derive(Clone, Debug, PartialEq)]
pub struct RelationFilter {
    pub relation: String,
}

/// The model of `RelationFilter`: what it holds, as mathematical values.
pub struct RelationFilterView {
    pub relation: Seq<char>,
}

impl View for RelationFilter {
    type V = RelationFilterView;

    open spec fn view(&self) -> RelationFilterView {
        RelationFilterView { relation: self.relation@ }
    }
}

} // verus!
