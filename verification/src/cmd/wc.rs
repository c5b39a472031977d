//! The `wc` command: count the selected papers.

use vstd::prelude::*;

verus! {

use crate::cmd::ls;
use crate::cmd::{
    fallacy_conforms, CommandInput, CommandInputView, CommandOutput, CommandOutputView, SpecFail,
};
use crate::config::Config;
use crate::error::Fallacy;
use crate::state::{State, StateView};
use crate::strutil::{dec_str, usize_to_string};
use vstd::pervasive::unreached;
use vstd::string::StringExecFns;

/// The message `wc` prints for a count.
pub open spec fn count_message(n: nat) -> Seq<char> {
    dec_str(n) + " papers.\n"@
}

/// What `wc` does: count the papers piped in, or, with nothing piped, the
/// papers its own arguments select.
pub open spec fn spec_wc(input: CommandInputView, st: StateView, ci: bool) -> Result<
    (StateView, CommandOutputView),
    (StateView, SpecFail),
> {
    match input.papers {
        Some(sel) => Ok((st, CommandOutputView::Message(count_message(sel.len())))),
        None => match ls::spec_ls(input, st, ci) {
            Ok((st2, out)) => match out {
                CommandOutputView::Papers(sel) => Ok(
                    (st2, CommandOutputView::Message(count_message(sel.len()))),
                ),
                _ => Ok((st2, out)),
            },
            Err(e) => Err(e),
        },
    }
}

/// Count the selected papers.
pub fn execute(input: CommandInput, state: &mut State, config: &Config) -> (r: Result<
    CommandOutput,
    Fallacy,
>)
    requires
        old(state).wf(),
        input.args@.len() >= 1,
    ensures
        final(state).wf(),
        final(state)@ == old(state)@,
        match (r, spec_wc(input@, old(state)@, config.filter.case_insensitive_regex)) {
            (Ok(out), Ok((st2, ov))) => out@ == ov,
            (Err(e), Err((st2, f))) => fallacy_conforms(e@, f),
            _ => false,
        },
{
    let paper_list = match input.papers {
        // Papers are given through pipe.
        Some(list) => list,
        // Papers are specified as filter.
        None => {
            let no_papers = CommandInput { args: input.args, papers: None };
            match ls::execute(no_papers, state, config) {
                Ok(out) => match out {
                    CommandOutput::Papers(list) => list,
                    _ => unreached(),
                },
                Err(e) => {
                    return Err(e);
                },
            }
        },
    };
    let mut msg = usize_to_string(paper_list.0.len());
    msg.append(" papers.\n");
    proof {
        assert(paper_list@.len() == paper_list.0@.len());
    }
    Ok(CommandOutput::Message(msg))
}

} // verus!
