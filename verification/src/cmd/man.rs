//! The `man` command: print the manual page of a subject.

use vstd::prelude::*;

verus! {

use crate::cmd::{CommandInput, CommandInputView, CommandOutput, CommandOutputView, SpecFail};
use crate::config::Config;
use crate::error::{Fallacy, FallacyView};
use crate::state::{State, StateView};
use crate::strutil::str_eq;
use vstd::string::StringExecFns;

/// The manual text of each subject.
pub open spec fn spec_man_text(subject: Seq<char>) -> Option<Seq<char>> {
    if subject == "command"@ {
        Some(
            "Usage: <command> [args...] [| <command> [args...]]\n\nCommands chain with pipes; a filtering command passes its selection on.\nAvailable commands: cd, curl, ed, exit, ls, man, open, printf, pwd, rm, set, touch, wc.\n"@,
        )
    } else if subject == "cd"@ {
        Some("Usage: cd [filter|.|..|-]\n\nNavigate the filter history like directories.\n"@)
    } else if subject == "exit"@ {
        Some("Usage: exit\n\nSave state and leave the shell.\n"@)
    } else if subject == "ls"@ {
        Some(
            "Usage: ls [filter]\n\nFilter papers in the paperbase and print them in a table.\nSee `man filter` for more on filters.\n"@,
        )
    } else if subject == "man"@ {
        Some(
            "Usage: man [subject]\n\nPrint the manual page of the given subject.\nAvailable subjects are:\ncommand, cd, exit, ls, man, open, pwd, rm, touch, config, filter, paper\n"@,
        )
    } else if subject == "open"@ {
        Some(
            "Usage: open [filter], or piped: [paper list] | open\n\nOpen the papers' files with the configured viewer command.\n"@,
        )
    } else if subject == "pwd"@ {
        Some("Usage: pwd\n\nPrint the filter the history is currently at.\n"@)
    } else if subject == "rm"@ {
        Some(
            "Usage: rm [filter], or piped: [paper list] | rm\n\nRemove papers from the paperbase, together with their files and notes.\n"@,
        )
    } else if subject == "touch"@ {
        Some(
            "Usage: touch <title> by <authors> at <venue> in <year> [as <nickname>] [@ <filepath>] [is <labels>]\n\nAdd a new paper to the paperbase.\n"@,
        )
    } else if subject == "config"@ {
        Some(
            "The configuration file sets storage paths, filter case sensitivity, table columns, and the viewer, editor and browser commands.\n"@,
        )
    } else if subject == "filter"@ {
        Some(
            "A filter is a list of patterns: a bare pattern matches titles; by, by1, at/on, in, as, is and not match authors, first author, venue, year, nickname and labels.\n"@,
        )
    } else if subject == "paper"@ {
        Some(
            "A paper holds a title, authors, venue, year, and optionally a nickname, a file path, labels and a note.\n"@,
        )
    } else {
        None
    }
}

/// What `man` does: exactly one subject argument, whose text is printed; an
/// unknown subject is an error.
pub open spec fn spec_man(input: CommandInputView, st: StateView) -> Result<
    (StateView, CommandOutputView),
    (StateView, SpecFail),
> {
    if input.args.len() != 2 {
        Err((st, SpecFail::Exact(FallacyView::ManInvalidArgument)))
    } else {
        match spec_man_text(input.args[1]) {
            Some(t) => Ok((st, CommandOutputView::Message(t))),
            None => Err((st, SpecFail::Exact(FallacyView::ManUnknownSubject(input.args[1])))),
        }
    }
}

/// Print the manual page of the given subject.
pub fn execute(input: CommandInput, state: &mut State, config: &Config) -> (r: Result<
    CommandOutput,
    Fallacy,
>)
    requires
        old(state).wf(),
    ensures
        final(state).wf(),
        final(state)@ == old(state)@,
        match (r, spec_man(input@, old(state)@)) {
            (Ok(out), Ok((st2, ov))) => out@ == ov,
            (Err(e), Err((st2, f))) => crate::cmd::fallacy_conforms(e@, f),
            _ => false,
        },
{
    // Man accepts exactly one argument.
    if input.args.len() != 2 {
        return Err(Fallacy::ManInvalidArgument);
    }

    // Fetch the man string.
    let entry = &input.args[1];
    let man_str: &str = if str_eq(entry.as_str(), "command") {
        "Usage: <command> [args...] [| <command> [args...]]\n\nCommands chain with pipes; a filtering command passes its selection on.\nAvailable commands: cd, curl, ed, exit, ls, man, open, printf, pwd, rm, set, touch, wc.\n"
    } else if str_eq(entry.as_str(), "cd") {
        "Usage: cd [filter|.|..|-]\n\nNavigate the filter history like directories.\n"
    } else if str_eq(entry.as_str(), "exit") {
        "Usage: exit\n\nSave state and leave the shell.\n"
    } else if str_eq(entry.as_str(), "ls") {
        "Usage: ls [filter]\n\nFilter papers in the paperbase and print them in a table.\nSee `man filter` for more on filters.\n"
    } else if str_eq(entry.as_str(), "man") {
        "Usage: man [subject]\n\nPrint the manual page of the given subject.\nAvailable subjects are:\ncommand, cd, exit, ls, man, open, pwd, rm, touch, config, filter, paper\n"
    } else if str_eq(entry.as_str(), "open") {
        "Usage: open [filter], or piped: [paper list] | open\n\nOpen the papers' files with the configured viewer command.\n"
    } else if str_eq(entry.as_str(), "pwd") {
        "Usage: pwd\n\nPrint the filter the history is currently at.\n"
    } else if str_eq(entry.as_str(), "rm") {
        "Usage: rm [filter], or piped: [paper list] | rm\n\nRemove papers from the paperbase, together with their files and notes.\n"
    } else if str_eq(entry.as_str(), "touch") {
        "Usage: touch <title> by <authors> at <venue> in <year> [as <nickname>] [@ <filepath>] [is <labels>]\n\nAdd a new paper to the paperbase.\n"
    } else if str_eq(entry.as_str(), "config") {
        "The configuration file sets storage paths, filter case sensitivity, table columns, and the viewer, editor and browser commands.\n"
    } else if str_eq(entry.as_str(), "filter") {
        "A filter is a list of patterns: a bare pattern matches titles; by, by1, at/on, in, as, is and not match authors, first author, venue, year, nickname and labels.\n"
    } else if str_eq(entry.as_str(), "paper") {
        "A paper holds a title, authors, venue, year, and optionally a nickname, a file path, labels and a note.\n"
    } else {
        return Err(Fallacy::ManUnknownSubject(entry.clone()));
    };

    Ok(CommandOutput::Message(man_str.to_owned()))
}

} // verus!
