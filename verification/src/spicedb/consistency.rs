//! What belongs to the wire form of a consistency requirement alone.

use crate::spicedb::messages::{ZedToken, ZedTokenView};
use vstd::prelude::*;

verus! {

/// The one requirement that a wire consistency message holds.
#[derive(Clone, Debug, PartialEq)]
pub enum Requirement {
    MinimizeLatency(bool),
    AtLeastAsFresh(ZedToken),
    AtExactSnapshot(ZedToken),
    FullyConsistent(bool),
}

/// The model of `Requirement`: what it holds, as mathematical values.
pub enum RequirementView {
    MinimizeLatency(bool),
    AtLeastAsFresh(ZedTokenView),
    AtExactSnapshot(ZedTokenView),
    FullyConsistent(bool),
}

impl View for Requirement {
    type V = RequirementView;

    open spec fn view(&self) -> RequirementView {
        match self {
            Requirement::MinimizeLatency(b) => RequirementView::MinimizeLatency(*b),
            Requirement::AtLeastAsFresh(t) => RequirementView::AtLeastAsFresh(t@),
            Requirement::AtExactSnapshot(t) => RequirementView::AtExactSnapshot(t@),
            Requirement::FullyConsistent(b) => RequirementView::FullyConsistent(*b),
        }
    }
}

} // verus!
