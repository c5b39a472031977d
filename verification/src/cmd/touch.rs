//! The `touch` command's computing half: add a parsed paper to the store.
//! Parsing is `Paper::from_args`; checking that a given file path exists is
//! filesystem work and stays with the surrounding program, which calls
//! `add_paper` once the path has passed.

use vstd::prelude::*;

verus! {

use crate::cmd::{CommandOutput, CommandOutputView};
use crate::paper::{Paper, PaperList};
use crate::state::{State, StateView};

/// What adding a paper does: the paper goes to the end of the store and the
/// output selects exactly it.
pub open spec fn spec_add_paper(st: StateView, p: crate::paper::PaperView) -> (
    StateView,
    CommandOutputView,
) {
    (
        StateView { papers: st.papers.push(p), filters: st.filters },
        CommandOutputView::Papers(seq![st.papers.len() as int]),
    )
}

/// Add the paper to the store and output the selection holding it.
pub fn add_paper(state: &mut State, paper: Paper) -> (r: CommandOutput)
    requires
        old(state).wf(),
        paper.wf(),
    ensures
        final(state).wf(),
        (final(state)@, r@) == spec_add_paper(old(state)@, paper@),
{
    let ghost pv = paper@;
    let n = state.papers.len();
    state.papers.push(paper);
    let mut sel: Vec<usize> = Vec::new();
    sel.push(n);
    let r = CommandOutput::Papers(PaperList(sel));
    proof {
        assert(crate::state::papers_view(state.papers@) =~= old(state)@.papers.push(pv));
        assert(PaperList(sel)@ =~= seq![old(state)@.papers.len() as int]);
    }
    r
}

} // verus!
