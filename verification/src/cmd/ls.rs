//! The `ls` command: filter papers and output the selection.

use vstd::prelude::*;

verus! {

use crate::cmd::{
    cmd_rest, cmd_rest_slice, fallacy_conforms, CommandInput, CommandInputView, CommandOutput,
    CommandOutputView, SpecFail,
};
use crate::config::Config;
use crate::error::Fallacy;
use crate::filter::{filter_matches, filter_view_is_empty, PaperFilterView};
use crate::paper::{PaperList, PaperView};
use crate::state::filter::{effective_filter, spec_inst, spec_inst_ok, spec_record, FilterInst};
use crate::state::{State, StateView};

/// The indices below `n` whose papers match the filter, in order.
pub open spec fn spec_select(filter: PaperFilterView, papers: Seq<PaperView>, n: int) -> Seq<int>
    decreases n,
{
    if n <= 0 {
        Seq::empty()
    } else {
        spec_select(filter, papers, n - 1) + (if filter_matches(filter, papers[n - 1]) {
            seq![n - 1]
        } else {
            Seq::empty()
        })
    }
}

/// The selection `ls` outputs for a filter: every index when the filter is
/// empty, else the indices of the matching papers.
pub open spec fn spec_ls_selection(filter: PaperFilterView, papers: Seq<PaperView>) -> Seq<int> {
    if filter_view_is_empty(filter) {
        Seq::new(papers.len(), |i: int| i)
    } else {
        spec_select(filter, papers, papers.len() as int)
    }
}

/// What `ls` does: resolve the arguments against the history without
/// recording them, and output the selection of papers the resulting filter
/// matches; the store is untouched.
pub open spec fn spec_ls(input: CommandInputView, st: StateView, ci: bool) -> Result<
    (StateView, CommandOutputView),
    (StateView, SpecFail),
> {
    let rest = cmd_rest(input.args);
    if spec_inst_ok(rest, ci) {
        let filter = effective_filter(spec_record(st.filters, spec_inst(rest, false, ci)));
        Ok((st, CommandOutputView::Papers(spec_ls_selection(filter, st.papers))))
    } else {
        Err((st, SpecFail::FilterBuild))
    }
}

/// Filter papers and output the selection.
pub fn execute(input: CommandInput, state: &mut State, config: &Config) -> (r: Result<
    CommandOutput,
    Fallacy,
>)
    requires
        old(state).wf(),
        input.args@.len() >= 1,
    ensures
        final(state).wf(),
        final(state)@ == old(state)@,
        match (r, spec_ls(input@, old(state)@, config.filter.case_insensitive_regex)) {
            (Ok(out), Ok((st2, ov))) => out@ == ov && out@ is Papers,
            (Err(e), Err((st2, f))) => fallacy_conforms(e@, f),
            _ => false,
        },
        r matches Ok(out) ==> crate::cmd::out_in_bounds(out@, final(state)@.papers.len() as int),
{
    let rest = cmd_rest_slice(&input.args);
    let inst = match FilterInst::from_args(rest, false, config.filter.case_insensitive_regex) {
        Ok(inst) => inst,
        Err(e) => {
            return Err(e);
        },
    };

    // Filter state plus argument filter, without modifying the filter state.
    let filter = state.filters.observe(inst);

    // Filter papers.
    let mut selected: Vec<usize> = Vec::new();
    let n = state.papers.len();
    if filter.is_empty() {
        // Shortcut path for listing all papers.
        let mut i: usize = 0;
        while i < n
            invariant
                i <= n,
                selected@.len() == i,
                forall|k: int| 0 <= k < i ==> #[trigger] selected@[k] == k,
            decreases n - i,
        {
            selected.push(i);
            i = i + 1;
        }
        let r = PaperList(selected);
        proof {
            assert(r@ =~= Seq::new(state@.papers.len(), |i: int| i));
        }
        Ok(CommandOutput::Papers(r))
    } else {
        let ghost papers = state@.papers;
        let mut i: usize = 0;
        while i < n
            invariant
                i <= n,
                n == state.papers@.len(),
                state@ == old(state)@,
                papers == state@.papers,
                state.wf(),
                filter@ == effective_filter(
                    spec_record(
                        state@.filters,
                        spec_inst(
                            cmd_rest(input@.args),
                            false,
                            config.filter.case_insensitive_regex,
                        ),
                    ),
                ),
                !filter_view_is_empty(filter@),
                crate::paper::PaperList(selected)@ == spec_select(filter@, papers, i as int),
                forall|k: int| 0 <= k < selected@.len() ==> 0 <= #[trigger] selected@[k] < n,
            decreases n - i,
        {
            proof {
                assert(state@.papers[i as int].authors.len() > 0);
                assert(state.papers@[i as int]@ == state@.papers[i as int]);
            }
            let ghost sel0 = PaperList(selected)@;
            if filter.matches(&state.papers[i]) {
                selected.push(i);
                proof {
                    assert(PaperList(selected)@ =~= sel0 + seq![i as int]);
                }
            }
            i = i + 1;
            proof {
                assert(spec_select(filter@, papers, i as int) == spec_select(
                    filter@,
                    papers,
                    i - 1,
                ) + (if filter_matches(filter@, papers[i - 1]) {
                    seq![i - 1]
                } else {
                    Seq::<int>::empty()
                }));
                assert(PaperList(selected)@ =~= spec_select(filter@, papers, i as int));
            }
        }
        Ok(CommandOutput::Papers(PaperList(selected)))
    }
}

} // verus!
