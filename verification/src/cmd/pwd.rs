//! The `pwd` command: print the filter the history is currently at.

use vstd::prelude::*;

verus! {

use crate::cmd::{CommandInput, CommandInputView, CommandOutput, CommandOutputView, SpecFail};
use crate::config::Config;
use crate::error::Fallacy;
use crate::filter::filter_display;
use crate::state::filter::effective_filter;
use crate::state::{State, StateView};

/// What `pwd` does: render the effective filter of the current level.
pub open spec fn spec_pwd(input: CommandInputView, st: StateView) -> Result<
    (StateView, CommandOutputView),
    (StateView, SpecFail),
> {
    Ok((st, CommandOutputView::Message(filter_display(effective_filter(st.filters)))))
}

/// Print the current effective filter.
pub fn execute(input: CommandInput, state: &mut State, config: &Config) -> (r: Result<
    CommandOutput,
    Fallacy,
>)
    requires
        old(state).wf(),
    ensures
        final(state).wf(),
        final(state)@ == old(state)@,
        match (r, spec_pwd(input@, old(state)@)) {
            (Ok(out), Ok((st2, ov))) => out@ == ov,
            _ => false,
        },
{
    let filter = state.filters.current();
    Ok(CommandOutput::Message(filter.to_display_string()))
}

} // verus!
