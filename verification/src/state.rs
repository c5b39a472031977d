//! The in-memory state of the shell: the paper store and the filter
//! navigation history. Persistence to disk is the surrounding program's
//! business; the state itself and every mutation of it live here.

use vstd::prelude::*;

pub mod filter;

verus! {

use crate::paper::{Paper, PaperView};
use crate::state::filter::{FilterState, FilterStateView};

/// The views of a sequence of papers.
pub open spec fn papers_view(v: Seq<Paper>) -> Seq<PaperView> {
    v.map_values(|p: Paper| p@)
}

/// The paper store and the filter navigation history.
pub struct State {
    pub papers: Vec<Paper>,
    pub filters: FilterState,
}

/// The mathematical value of a `State`.
#[verifier::ext_equal]
pub ghost struct StateView {
    pub papers: Seq<PaperView>,
    pub filters: FilterStateView,
}

impl View for State {
    type V = StateView;

    open spec fn view(&self) -> StateView {
        StateView { papers: papers_view(self.papers@), filters: self.filters@ }
    }
}

impl State {
    /// A state is well formed when its navigation state is and every paper
    /// has at least one author.
    pub open spec fn wf(&self) -> bool {
        &&& self.filters@.wf()
        &&& forall|i: int| 0 <= i < self@.papers.len() ==> (#[trigger] self@.papers[i]).authors.len() > 0
    }
}

impl Default for State {
    /// The state a fresh session starts from: no papers, the default
    /// navigation state.
    fn default() -> (r: Self)
        ensures
            r.wf(),
            r@.papers.len() == 0,
            r@.filters.history.len() == 1,
            r@.filters.current == 0,
            r@.filters.previous == 0,
    {
        State { papers: Vec::new(), filters: FilterState::default() }
    }
}

} // verus!
