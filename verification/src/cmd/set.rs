//! The `set` command: edit the fields of the selected papers.

use vstd::prelude::*;

verus! {

use crate::cmd::{
    fallacy_conforms, selection_in_bounds, CommandInput, CommandInputView, CommandOutput,
    CommandOutputView, SpecFail,
};
use crate::config::Config;
use crate::error::{Fallacy, FallacyView};
use crate::paper::{spec_apply_from_args, PaperView};
use crate::state::{papers_view, State, StateView};

/// Apply the edits to the selected papers, left to right; a failing edit
/// stops the loop but keeps the edits already made.
pub open spec fn spec_set_go(
    papers: Seq<PaperView>,
    sel: Seq<int>,
    k: int,
    rest: Seq<Seq<char>>,
) -> Result<Seq<PaperView>, (Seq<PaperView>, FallacyView)>
    decreases sel.len() - k,
{
    if k < 0 || k >= sel.len() {
        Ok(papers)
    } else {
        match spec_apply_from_args(papers[sel[k]], rest) {
            Ok(pv) => spec_set_go(papers.update(sel[k], pv), sel, k + 1, rest),
            Err(e) => Err((papers, e)),
        }
    }
}

/// What `set` does: without a piped selection it fails; with one it applies
/// its argument edits to every selected paper and passes the selection on.
pub open spec fn spec_set(input: CommandInputView, st: StateView) -> Result<
    (StateView, CommandOutputView),
    (StateView, SpecFail),
> {
    match input.papers {
        None => Err((st, SpecFail::Exact(FallacyView::SetNoPapers))),
        Some(sel) => match spec_set_go(st.papers, sel, 0, input.args.skip(1)) {
            Ok(ps) => Ok(
                (
                    StateView { papers: ps, filters: st.filters },
                    CommandOutputView::Papers(sel),
                ),
            ),
            Err((ps, e)) => Err(
                (StateView { papers: ps, filters: st.filters }, SpecFail::Exact(e)),
            ),
        },
    }
}

/// Edit the fields of the papers piped in.
pub fn execute(input: CommandInput, state: &mut State, config: &Config) -> (r: Result<
    CommandOutput,
    Fallacy,
>)
    requires
        old(state).wf(),
        input.args@.len() >= 1,
        selection_in_bounds(input@.papers, old(state)@.papers.len() as int),
    ensures
        final(state).wf(),
        final(state)@.papers.len() == old(state)@.papers.len(),
        match (r, spec_set(input@, old(state)@)) {
            (Ok(out), Ok((st2, ov))) => final(state)@ == st2 && out@ == ov,
            (Err(e), Err((st2, f))) => final(state)@ == st2 && fallacy_conforms(e@, f),
            _ => false,
        },
{
    let list = match input.papers {
        None => {
            return Err(Fallacy::SetNoPapers);
        },
        Some(list) => list,
    };
    let ghost sel = list@;
    let ghost rest = input@.args.skip(1);
    let args = input.args;
    let n = state.papers.len();
    proof {
        assert(input@.papers == Some(list@));
        assert(n as int == old(state)@.papers.len());
        assert(selection_in_bounds(Some(sel), n as int));
        assert(forall|t: int| 0 <= t < sel.len() ==> 0 <= #[trigger] sel[t] < n as int);
    }
    let mut k: usize = 0;
    while k < list.0.len()
        invariant
            k <= list.0@.len(),
            sel == list@,
            rest == crate::strutil::views_of(args@).skip(1),
            rest == input@.args.skip(1),
            input@.papers == Some(sel),
            args@.len() >= 1,
            n as int == old(state)@.papers.len(),
            state.papers@.len() == n,
            state.wf(),
            state@.filters == old(state)@.filters,
            forall|t: int| 0 <= t < sel.len() ==> 0 <= #[trigger] sel[t] < n as int,
            spec_set_go(old(state)@.papers, sel, 0, rest) == spec_set_go(
                state@.papers,
                sel,
                k as int,
                rest,
            ),
        decreases list.0@.len() - k,
    {
        let ind = list.0[k];
        proof {
            assert(sel.len() == list.0@.len());
            assert(sel[k as int] == ind as int);
            assert(0 <= sel[k as int] < n as int);
        }
        let ghost papers0 = state@.papers;
        let mut paper = state.papers.remove(ind);
        proof {
            assert(papers0[ind as int] == paper@);
            assert(paper@.authors.len() > 0);
        }
        let slice_args = crate::cmd::cmd_rest_slice(&args);
        let res = paper.apply_from_args(slice_args);
        let ghost paper_after = paper@;
        state.papers.insert(ind, paper);
        proof {
            assert(papers_view(state.papers@) =~= papers0.update(ind as int, paper_after));
        }
        match res {
            Ok(()) => {
                proof {
                    assert(spec_set_go(papers0, sel, k as int, rest) == spec_set_go(
                        papers0.update(ind as int, paper_after),
                        sel,
                        k + 1,
                        rest,
                    ));
                    assert forall|i: int|
                        0 <= i < state@.papers.len() implies (
                    #[trigger] state@.papers[i]).authors.len() > 0 by {
                        if i != ind as int {
                            assert(state@.papers[i] == papers0[i]);
                        }
                    }
                }
            },
            Err(e) => {
                proof {
                    assert(papers_view(state.papers@) =~= papers0);
                    assert(spec_set_go(papers0, sel, k as int, rest) == Err::<
                        Seq<PaperView>,
                        (Seq<PaperView>, FallacyView),
                    >((papers0, e@)));
                    assert(state@ =~= (StateView {
                        papers: papers0,
                        filters: old(state)@.filters,
                    }));
                }
                return Err(e);
            },
        }
        k = k + 1;
    }
    proof {
        assert(spec_set_go(state@.papers, sel, k as int, rest) == Ok::<
            Seq<PaperView>,
            (Seq<PaperView>, FallacyView),
        >(state@.papers));
        assert(state@ =~= (StateView { papers: state@.papers, filters: old(state)@.filters }));
    }
    Ok(CommandOutput::Papers(list))
}

} // verus!
