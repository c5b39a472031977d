//! The `exit` command: leave the shell.

use vstd::prelude::*;

verus! {

use crate::cmd::{CommandInput, CommandInputView, CommandOutput, CommandOutputView, SpecFail};
use crate::config::Config;
use crate::error::{Fallacy, FallacyView};
use crate::state::{State, StateView};

/// What `exit` does: fail with the distinguished exit error, which the
/// command loop treats as the request to leave.
pub open spec fn spec_exit(input: CommandInputView, st: StateView) -> Result<
    (StateView, CommandOutputView),
    (StateView, SpecFail),
> {
    Err((st, SpecFail::Exact(FallacyView::ExitReason)))
}

/// Request to leave the shell.
pub fn execute(input: CommandInput, state: &mut State, config: &Config) -> (r: Result<
    CommandOutput,
    Fallacy,
>)
    requires
        old(state).wf(),
    ensures
        final(state).wf(),
        final(state)@ == old(state)@,
        r matches Err(e) && e@ == FallacyView::ExitReason,
{
    Err(Fallacy::ExitReason)
}

} // verus!
