//! The `cd` command: navigate the filter history.

use vstd::prelude::*;

verus! {

use crate::cmd::{
    cmd_rest, cmd_rest_slice, CommandInput, CommandInputView, CommandOutput, CommandOutputView,
    SpecFail,
};
use crate::config::Config;
use crate::error::Fallacy;
use crate::state::filter::{spec_inst, spec_inst_ok, spec_record, FilterInst};
use crate::state::{State, StateView};

/// What `cd` does: resolve the arguments to an instruction and record it in
/// the filter history; its output is nothing.
pub open spec fn spec_cd(input: CommandInputView, st: StateView, ci: bool) -> Result<
    (StateView, CommandOutputView),
    (StateView, SpecFail),
> {
    let rest = cmd_rest(input.args);
    if spec_inst_ok(rest, ci) {
        Ok(
            (
                StateView { papers: st.papers, filters: spec_record(st.filters, spec_inst(rest, true, ci)) },
                CommandOutputView::Nothing,
            ),
        )
    } else {
        Err((st, SpecFail::FilterBuild))
    }
}

/// Record the argument filter in the navigation history.
pub fn execute(input: CommandInput, state: &mut State, config: &Config) -> (r: Result<
    CommandOutput,
    Fallacy,
>)
    requires
        old(state).wf(),
        input.args@.len() >= 1,
    ensures
        final(state).wf(),
        match (r, spec_cd(input@, old(state)@, config.filter.case_insensitive_regex)) {
            (Ok(out), Ok((st2, ov))) => final(state)@ == st2 && out@ == ov,
            (Err(e), Err((st2, f))) => final(state)@ == st2 && crate::cmd::fallacy_conforms(
                e@,
                f,
            ),
            _ => false,
        },
{
    let rest = cmd_rest_slice(&input.args);
    let inst = match FilterInst::from_args(rest, true, config.filter.case_insensitive_regex) {
        Ok(inst) => inst,
        Err(e) => {
            return Err(e);
        },
    };
    state.filters.record(inst);
    proof {
        assert(state@ =~= (StateView {
            papers: old(state)@.papers,
            filters: spec_record(
                old(state)@.filters,
                spec_inst(cmd_rest(input@.args), true, config.filter.case_insensitive_regex),
            ),
        }));
    }
    Ok(CommandOutput::Nothing)
}

} // verus!
