//! The command-line machinery: the tokenizer that splits a raw line into
//! pipe-separated argument vectors (honoring single-quote grouping and the
//! backslash escape for a literal quote), the command registry, and the
//! pipeline that threads each command's output into the next command's
//! input. One submodule per command holds its executor.

use vstd::prelude::*;

pub mod cd;
pub mod exit;
pub mod ls;
pub mod man;
pub mod pwd;
pub mod rm;
pub mod set;
pub mod touch;
pub mod wc;

verus! {

use crate::error::{Fallacy, FallacyView};
use crate::strutil::{chars_of, is_whitespace_char, is_ws, string_from, views_of};
use vstd::string::StringExecFns;

/// The character views of a sequence of argument vectors.
pub open spec fn argvec_views(cmds: Seq<Vec<String>>) -> Seq<Seq<Seq<char>>> {
    cmds.map_values(|v: Vec<String>| views_of(v@))
}

/// The tokenizer's running state: the word being read, the argument vector
/// being filled, the argument vectors already finished, and whether the
/// reading position is inside single quotes.
pub ghost struct TokState {
    pub piece: Seq<char>,
    pub cmd: Seq<Seq<char>>,
    pub cmds: Seq<Seq<Seq<char>>>,
    pub quoted: bool,
}

/// The state the tokenizer starts from.
pub open spec fn tok_init() -> TokState {
    TokState { piece: Seq::empty(), cmd: Seq::empty(), cmds: Seq::empty(), quoted: false }
}

/// Close the current word into the current argument vector; an empty word is
/// discarded rather than pushed.
pub open spec fn close_piece(st: TokState) -> TokState {
    if st.piece.len() == 0 {
        st
    } else {
        TokState { piece: Seq::empty(), cmd: st.cmd.push(st.piece), cmds: st.cmds, quoted: st.quoted }
    }
}

/// Whether the first non-whitespace character of `s` is a pipe.
pub open spec fn leading_pipe(s: Seq<char>) -> bool
    decreases s.len(),
{
    if s.len() == 0 {
        false
    } else if is_ws(s[0]) {
        leading_pipe(s.skip(1))
    } else {
        s[0] == '|'
    }
}

/// Run the tokenizer over the remaining characters `s` from state `st`:
/// a backslash directly before a single quote yields a literal quote; an
/// unescaped single quote toggles quoting; outside quotes a pipe finishes
/// the current argument vector (an empty one is an error) and whitespace
/// finishes the current word; everything else extends the current word.
/// At the end of the input, a final empty argument vector after at least one
/// pipe is a dangling-pipe error.
pub open spec fn spec_parse_go(s: Seq<char>, st: TokState) -> Result<
    Seq<Seq<Seq<char>>>,
    FallacyView,
>
    decreases s.len(),
{
    if s.len() == 0 {
        let st1 = close_piece(st);
        if st1.cmd.len() == 0 && st1.cmds.len() > 0 {
            Err(FallacyView::InvalidCommand("Command cannot end with a dangling pipe."@))
        } else {
            Ok(st1.cmds.push(st1.cmd))
        }
    } else {
        let c = s[0];
        if c == '\\' && s.len() >= 2 && s[1] == '\'' {
            spec_parse_go(
                s.skip(2),
                TokState {
                    piece: st.piece.push('\''),
                    cmd: st.cmd,
                    cmds: st.cmds,
                    quoted: st.quoted,
                },
            )
        } else if c == '\'' {
            spec_parse_go(
                s.skip(1),
                TokState { piece: st.piece, cmd: st.cmd, cmds: st.cmds, quoted: !st.quoted },
            )
        } else if c == '|' && !st.quoted {
            let st1 = close_piece(st);
            if st1.cmd.len() == 0 {
                Err(FallacyView::InvalidCommand("Invalid use of pipes."@))
            } else {
                spec_parse_go(
                    s.skip(1),
                    TokState {
                        piece: Seq::empty(),
                        cmd: Seq::empty(),
                        cmds: st1.cmds.push(st1.cmd),
                        quoted: st.quoted,
                    },
                )
            }
        } else if is_ws(c) && !st.quoted {
            spec_parse_go(s.skip(1), close_piece(st))
        } else {
            spec_parse_go(
                s.skip(1),
                TokState {
                    piece: st.piece.push(c),
                    cmd: st.cmd,
                    cmds: st.cmds,
                    quoted: st.quoted,
                },
            )
        }
    }
}

/// What `parse_command` returns: a line whose first non-whitespace character
/// is a pipe is rejected outright; everything else is tokenized from the
/// initial state.
pub open spec fn spec_parse(s: Seq<char>) -> Result<Seq<Seq<Seq<char>>>, FallacyView> {
    if leading_pipe(s) {
        Err(FallacyView::InvalidCommand("Command cannot start with a pipe."@))
    } else {
        spec_parse_go(s, tok_init())
    }
}

proof fn lemma_leading_pipe_skip(s: Seq<char>, j: int)
    requires
        0 <= j <= s.len(),
        forall|k: int| 0 <= k < j ==> is_ws(s[k]),
    ensures
        leading_pipe(s) == leading_pipe(s.skip(j)),
    decreases j,
{
    if j > 0 {
        lemma_leading_pipe_skip(s, j - 1);
        assert(is_ws(s.skip(j - 1)[0]));
        assert(s.skip(j - 1).skip(1) =~= s.skip(j));
    } else {
        assert(s.skip(0) =~= s);
    }
}

/// The words of `rest` split on whitespace, continuing the word `piece`
/// already begun; consecutive whitespace is collapsed and empty words are
/// dropped.
pub open spec fn ws_split_go(piece: Seq<char>, s: Seq<char>) -> Seq<Seq<char>>
    decreases s.len(),
{
    if s.len() == 0 {
        if piece.len() == 0 {
            Seq::empty()
        } else {
            seq![piece]
        }
    } else if is_ws(s[0]) {
        (if piece.len() == 0 {
            Seq::empty()
        } else {
            seq![piece]
        }) + ws_split_go(Seq::empty(), s.skip(1))
    } else {
        ws_split_go(piece.push(s[0]), s.skip(1))
    }
}

/// The whitespace-separated words of `s`, consecutive whitespace collapsed.
pub open spec fn ws_split(s: Seq<char>) -> Seq<Seq<char>> {
    ws_split_go(Seq::empty(), s)
}

proof fn lemma_no_pipe_not_leading(s: Seq<char>)
    requires
        forall|k: int| 0 <= k < s.len() ==> s[k] != '|',
    ensures
        !leading_pipe(s),
    decreases s.len(),
{
    if s.len() > 0 && is_ws(s[0]) {
        assert forall|k: int| 0 <= k < s.skip(1).len() implies s.skip(1)[k] != '|' by {
            assert(s.skip(1)[k] == s[k + 1]);
        }
        lemma_no_pipe_not_leading(s.skip(1));
    }
}

proof fn lemma_parse_no_pipe_go(s: Seq<char>, st: TokState)
    requires
        !st.quoted,
        st.cmds.len() == 0,
        forall|k: int| 0 <= k < s.len() ==> s[k] != '|' && s[k] != '\'',
    ensures
        spec_parse_go(s, st) == Ok::<Seq<Seq<Seq<char>>>, FallacyView>(
            st.cmds.push(st.cmd + ws_split_go(st.piece, s)),
        ),
    decreases s.len(),
{
    if s.len() == 0 {
        let st1 = close_piece(st);
        if st.piece.len() == 0 {
            assert(st.cmd + ws_split_go(st.piece, s) =~= st.cmd);
        } else {
            assert(st.cmd + ws_split_go(st.piece, s) =~= st.cmd.push(st.piece));
        }
    } else {
        assert forall|k: int|
            0 <= k < s.skip(1).len() implies s.skip(1)[k] != '|' && s.skip(1)[k] != '\'' by {
            assert(s.skip(1)[k] == s[k + 1]);
        }
        let c = s[0];
        if is_ws(c) {
            if st.piece.len() == 0 {
                assert(st.piece =~= Seq::<char>::empty());
            }
            let st1 = close_piece(st);
            assert(st1.piece == Seq::<char>::empty());
            lemma_parse_no_pipe_go(s.skip(1), st1);
            assert(spec_parse_go(s, st) == spec_parse_go(s.skip(1), st1));
            assert(st.cmd + ws_split_go(st.piece, s) =~= st1.cmd + ws_split_go(
                Seq::<char>::empty(),
                s.skip(1),
            ));
        } else {
            let st1 = TokState {
                piece: st.piece.push(c),
                cmd: st.cmd,
                cmds: st.cmds,
                quoted: st.quoted,
            };
            lemma_parse_no_pipe_go(s.skip(1), st1);
        }
    }
}

/// Law: a line holding no pipe and no single-quote character always parses,
/// to exactly one argument vector: the line's whitespace-separated words,
/// with consecutive whitespace collapsed.
pub proof fn lemma_parse_no_pipe_no_quote(s: Seq<char>)
    requires
        forall|k: int| 0 <= k < s.len() ==> s[k] != '|' && s[k] != '\'',
    ensures
        spec_parse(s) == Ok::<Seq<Seq<Seq<char>>>, FallacyView>(seq![ws_split(s)]),
{
    lemma_no_pipe_not_leading(s);
    lemma_parse_no_pipe_go(s, tok_init());
    assert(Seq::<Seq<char>>::empty() + ws_split(s) =~= ws_split(s));
    assert(tok_init().cmds.push(tok_init().cmd + ws_split_go(Seq::empty(), s)) =~= seq![
        ws_split(s),
    ]);
}

/// Split chained commands.
///
/// Arguments are delimited by whitespace, but can be chunked by grouping
/// them in single quotes. Literal single quotes can be entered by escaping
/// them with a backslash. Multiple commands can be piped with the pipe (`|`)
/// character; pipes may only come between two commands.
pub fn parse_command(command: &str) -> (r: Result<Vec<Vec<String>>, Fallacy>)
    ensures
        match (r, spec_parse(command@)) {
            (Ok(v), Ok(sv)) => argvec_views(v@) == sv,
            (Err(e), Err(se)) => e@ == se,
            _ => false,
        },
{
    let chars = chars_of(command);
    let n = chars.len();

    // The command must not start with a pipe: find the first
    // non-whitespace character and check it.
    let mut j: usize = 0;
    while j < n && is_whitespace_char(chars[j])
        invariant
            j <= n,
            n == chars@.len(),
            chars@ == command@,
            forall|k: int| 0 <= k < j ==> is_ws(chars@[k]),
        decreases n - j,
    {
        j = j + 1;
    }
    proof {
        lemma_leading_pipe_skip(command@, j as int);
    }
    if j < n && chars[j] == '|' {
        proof {
            reveal_strlit("Command cannot start with a pipe.");
        }
        return Err(
            Fallacy::InvalidCommand(String::from_str("Command cannot start with a pipe.")),
        );
    }
    proof {
        assert(!leading_pipe(command@));
    }

    let mut piece: Vec<char> = Vec::new();
    let mut cmd: Vec<String> = Vec::new();
    let mut cmds: Vec<Vec<String>> = Vec::new();
    let mut quoted: bool = false;

    let ghost s = command@;
    proof {
        assert(s.skip(0) =~= s);
        assert(views_of(Seq::<String>::empty()) =~= Seq::<Seq<char>>::empty());
        assert(argvec_views(Seq::<Vec<String>>::empty()) =~= Seq::<Seq<Seq<char>>>::empty());
    }

    let mut i: usize = 0;
    while i < n
        invariant
            i <= n,
            n == chars@.len(),
            chars@ == s,
            s == command@,
            !leading_pipe(s),
            spec_parse_go(s, tok_init()) == spec_parse_go(
                s.skip(i as int),
                TokState {
                    piece: piece@,
                    cmd: views_of(cmd@),
                    cmds: argvec_views(cmds@),
                    quoted: quoted,
                },
            ),
        decreases n - i,
    {
        let ghost iold = i as int;
        let ghost pre = TokState {
            piece: piece@,
            cmd: views_of(cmd@),
            cmds: argvec_views(cmds@),
            quoted: quoted,
        };
        proof {
            assert(s.skip(iold)[0] == s[iold]);
            assert(s.skip(iold).len() == n - iold);
        }
        let c = chars[i];
        if c == '\\' && i + 1 < n && chars[i + 1] == '\'' {
            piece.push('\'');
            i = i + 2;
            proof {
                assert(s.skip(iold)[1] == s[iold + 1]);
                assert(s.skip(iold).skip(2) =~= s.skip(iold + 2));
                let post = TokState {
                    piece: piece@,
                    cmd: views_of(cmd@),
                    cmds: argvec_views(cmds@),
                    quoted: quoted,
                };
                assert(post.piece == pre.piece.push('\''));
                assert(spec_parse_go(s.skip(iold), pre) == spec_parse_go(s.skip(iold + 2), post));
            }
        } else if c == '\'' {
            quoted = !quoted;
            i = i + 1;
            proof {
                assert(s.skip(iold).skip(1) =~= s.skip(iold + 1));
                let post = TokState {
                    piece: piece@,
                    cmd: views_of(cmd@),
                    cmds: argvec_views(cmds@),
                    quoted: quoted,
                };
                assert(spec_parse_go(s.skip(iold), pre) == spec_parse_go(s.skip(iold + 1), post));
            }
        } else if c == '|' && !quoted {
            if piece.len() > 0 {
                let word = string_from(&piece);
                cmd.push(word);
                piece = Vec::new();
                proof {
                    assert(views_of(cmd@) =~= close_piece(pre).cmd);
                }
            }
            proof {
                assert(views_of(cmd@) == close_piece(pre).cmd);
                assert(argvec_views(cmds@) == close_piece(pre).cmds);
            }
            if cmd.len() == 0 {
                proof {
                    reveal_strlit("Invalid use of pipes.");
                    assert(close_piece(pre).cmd.len() == 0);
                    assert(spec_parse_go(s.skip(iold), pre) == Err::<
                        Seq<Seq<Seq<char>>>,
                        FallacyView,
                    >(FallacyView::InvalidCommand("Invalid use of pipes."@)));
                }
                return Err(Fallacy::InvalidCommand(String::from_str("Invalid use of pipes.")));
            }
            let finished_cmd = cmd;
            cmd = Vec::new();
            cmds.push(finished_cmd);
            i = i + 1;
            proof {
                assert(argvec_views(cmds@) =~= close_piece(pre).cmds.push(close_piece(pre).cmd));
                assert(s.skip(iold).skip(1) =~= s.skip(iold + 1));
                let post = TokState {
                    piece: piece@,
                    cmd: views_of(cmd@),
                    cmds: argvec_views(cmds@),
                    quoted: quoted,
                };
                assert(post.piece =~= Seq::<char>::empty());
                assert(post.cmd =~= Seq::<Seq<char>>::empty());
                assert(spec_parse_go(s.skip(iold), pre) == spec_parse_go(s.skip(iold + 1), post));
            }
        } else if is_whitespace_char(c) && !quoted {
            if piece.len() > 0 {
                let word = string_from(&piece);
                cmd.push(word);
                piece = Vec::new();
                proof {
                    assert(views_of(cmd@) =~= close_piece(pre).cmd);
                }
            }
            i = i + 1;
            proof {
                assert(s.skip(iold).skip(1) =~= s.skip(iold + 1));
                let post = TokState {
                    piece: piece@,
                    cmd: views_of(cmd@),
                    cmds: argvec_views(cmds@),
                    quoted: quoted,
                };
                assert(post == close_piece(pre));
                assert(spec_parse_go(s.skip(iold), pre) == spec_parse_go(s.skip(iold + 1), post));
            }
        } else {
            piece.push(c);
            i = i + 1;
            proof {
                assert(s.skip(iold).skip(1) =~= s.skip(iold + 1));
                let post = TokState {
                    piece: piece@,
                    cmd: views_of(cmd@),
                    cmds: argvec_views(cmds@),
                    quoted: quoted,
                };
                assert(post.piece == pre.piece.push(c));
                assert(spec_parse_go(s.skip(iold), pre) == spec_parse_go(s.skip(iold + 1), post));
            }
        }
    }

    proof {
        assert(s.skip(n as int) =~= Seq::<char>::empty());
    }
    let ghost pre = TokState {
        piece: piece@,
        cmd: views_of(cmd@),
        cmds: argvec_views(cmds@),
        quoted: quoted,
    };
    if piece.len() > 0 {
        let word = string_from(&piece);
        cmd.push(word);
        proof {
            assert(views_of(cmd@) =~= close_piece(pre).cmd);
        }
    }
    proof {
        assert(views_of(cmd@) == close_piece(pre).cmd);
        assert(argvec_views(cmds@) == close_piece(pre).cmds);
    }
    if cmd.len() == 0 && cmds.len() > 0 {
        proof {
            reveal_strlit("Command cannot end with a dangling pipe.");
            assert(spec_parse_go(Seq::<char>::empty(), pre) == Err::<
                Seq<Seq<Seq<char>>>,
                FallacyView,
            >(FallacyView::InvalidCommand("Command cannot end with a dangling pipe."@)));
        }
        return Err(
            Fallacy::InvalidCommand(
                String::from_str("Command cannot end with a dangling pipe."),
            ),
        );
    }
    cmds.push(cmd);
    proof {
        assert(argvec_views(cmds@) =~= close_piece(pre).cmds.push(close_piece(pre).cmd));
        assert(spec_parse_go(Seq::<char>::empty(), pre) == Ok::<
            Seq<Seq<Seq<char>>>,
            FallacyView,
        >(close_piece(pre).cmds.push(close_piece(pre).cmd)));
    }
    Ok(cmds)
}


pub use crate::paper::cmd_rest;

use crate::config::Config;
use crate::paper::PaperList;
use crate::state::{State, StateView};
use crate::strutil::clone_string_vec;
use vstd::pervasive::unreached;
use vstd::slice::slice_subrange;

impl View for PaperList {
    type V = Seq<int>;

    open spec fn view(&self) -> Seq<int> {
        self.0@.map_values(|u: usize| u as int)
    }
}

/// What a command consumes: its own arguments, and the selection the
/// previous command of the chain piped in, if any.
pub struct CommandInput {
    pub args: Vec<String>,
    pub papers: Option<PaperList>,
}

/// The mathematical value of a `CommandInput`.
#[verifier::ext_equal]
pub ghost struct CommandInputView {
    pub args: Seq<Seq<char>>,
    pub papers: Option<Seq<int>>,
}

impl View for CommandInput {
    type V = CommandInputView;

    open spec fn view(&self) -> CommandInputView {
        CommandInputView {
            args: views_of(self.args@),
            papers: match self.papers {
                Some(ref l) => Some(l@),
                None => None,
            },
        }
    }
}

/// What a command produces: nothing, a selection of papers, or a message.
pub enum CommandOutput {
    Nothing,
    Papers(PaperList),
    Message(String),
}

/// The mathematical value of a `CommandOutput`.
pub ghost enum CommandOutputView {
    Nothing,
    Papers(Seq<int>),
    Message(Seq<char>),
}

impl View for CommandOutput {
    type V = CommandOutputView;

    open spec fn view(&self) -> CommandOutputView {
        match self {
            CommandOutput::Nothing => CommandOutputView::Nothing,
            CommandOutput::Papers(l) => CommandOutputView::Papers(l@),
            CommandOutput::Message(m) => CommandOutputView::Message(m@),
        }
    }
}

/// The selection an output pipes into the next command: a paper selection
/// passes through; nothing and messages pipe nothing.
pub open spec fn papers_of_output(o: CommandOutputView) -> Option<Seq<int>> {
    match o {
        CommandOutputView::Papers(p) => Some(p),
        _ => None,
    }
}

impl CommandInput {
    /// The input of the next chain stage: its own arguments, plus the
    /// previous output reinterpreted as a selection if it was one.
    pub fn from_output(args: Vec<String>, output: CommandOutput) -> (r: Self)
        ensures
            r@ == (CommandInputView { args: views_of(args@), papers: papers_of_output(output@) }),
    {
        let papers = match output {
            CommandOutput::Nothing => None,
            CommandOutput::Message(_) => None,
            CommandOutput::Papers(p) => Some(p),
        };
        CommandInput { args, papers }
    }
}

/// The registered commands.
#[derive(Clone, Copy, PartialEq, Eq, Structural)]
pub enum CommandKind {
    Cd,
    Curl,
    Exit,
    Ls,
    Man,
    Open,
    Printf,
    Pwd,
    Ed,
    Rm,
    SetCmd,
    Touch,
    Wc,
}

/// The command a name resolves to, if any.
pub open spec fn spec_command_kind(name: Seq<char>) -> Option<CommandKind> {
    if name == "cd"@ {
        Some(CommandKind::Cd)
    } else if name == "curl"@ {
        Some(CommandKind::Curl)
    } else if name == "exit"@ {
        Some(CommandKind::Exit)
    } else if name == "ls"@ {
        Some(CommandKind::Ls)
    } else if name == "man"@ {
        Some(CommandKind::Man)
    } else if name == "open"@ {
        Some(CommandKind::Open)
    } else if name == "printf"@ {
        Some(CommandKind::Printf)
    } else if name == "pwd"@ {
        Some(CommandKind::Pwd)
    } else if name == "ed"@ {
        Some(CommandKind::Ed)
    } else if name == "rm"@ {
        Some(CommandKind::Rm)
    } else if name == "set"@ {
        Some(CommandKind::SetCmd)
    } else if name == "touch"@ {
        Some(CommandKind::Touch)
    } else if name == "wc"@ {
        Some(CommandKind::Wc)
    } else {
        None
    }
}

/// The commands whose work reaches outside the store: the network, the
/// filesystem, subprocesses, or an interactive prompt. The command loop
/// hands them back to the surrounding program.
pub open spec fn is_outside_kind(k: CommandKind) -> bool {
    ||| k == CommandKind::Curl
    ||| k == CommandKind::Open
    ||| k == CommandKind::Printf
    ||| k == CommandKind::Ed
    ||| k == CommandKind::Rm
    ||| k == CommandKind::Touch
}

/// Resolve a command name; an unregistered name is an unknown-command error.
pub fn to_executor(command: String) -> (r: Result<CommandKind, Fallacy>)
    ensures
        match r {
            Ok(k) => spec_command_kind(command@) == Some(k),
            Err(e) => spec_command_kind(command@) is None && e@ == FallacyView::UnknownCommand(
                command@,
            ),
        },
{
    let c = command.as_str();
    if crate::strutil::str_eq(c, "cd") {
        Ok(CommandKind::Cd)
    } else if crate::strutil::str_eq(c, "curl") {
        Ok(CommandKind::Curl)
    } else if crate::strutil::str_eq(c, "exit") {
        Ok(CommandKind::Exit)
    } else if crate::strutil::str_eq(c, "ls") {
        Ok(CommandKind::Ls)
    } else if crate::strutil::str_eq(c, "man") {
        Ok(CommandKind::Man)
    } else if crate::strutil::str_eq(c, "open") {
        Ok(CommandKind::Open)
    } else if crate::strutil::str_eq(c, "printf") {
        Ok(CommandKind::Printf)
    } else if crate::strutil::str_eq(c, "pwd") {
        Ok(CommandKind::Pwd)
    } else if crate::strutil::str_eq(c, "ed") {
        Ok(CommandKind::Ed)
    } else if crate::strutil::str_eq(c, "rm") {
        Ok(CommandKind::Rm)
    } else if crate::strutil::str_eq(c, "set") {
        Ok(CommandKind::SetCmd)
    } else if crate::strutil::str_eq(c, "touch") {
        Ok(CommandKind::Touch)
    } else if crate::strutil::str_eq(c, "wc") {
        Ok(CommandKind::Wc)
    } else {
        Err(Fallacy::UnknownCommand(command))
    }
}

/// How far a verified executor may go wrong: an exact error value, or a
/// filter-build failure whose diagnostic text is the regex engine's.
pub ghost enum SpecFail {
    Exact(FallacyView),
    FilterBuild,
}

/// Whether the error `e` is the one the specification calls for.
pub open spec fn fallacy_conforms(e: FallacyView, f: SpecFail) -> bool {
    match f {
        SpecFail::Exact(v) => e == v,
        SpecFail::FilterBuild => e is FilterBuildFailed,
    }
}

/// Whether every index of the selection points into a store of `n` papers.
pub open spec fn selection_in_bounds(p: Option<Seq<int>>, n: int) -> bool {
    match p {
        Some(s) => forall|k: int| 0 <= k < s.len() ==> 0 <= #[trigger] s[k] < n,
        None => true,
    }
}

/// Whether an output's selection, if it has one, points into a store of `n`
/// papers.
pub open spec fn out_in_bounds(o: CommandOutputView, n: int) -> bool {
    selection_in_bounds(papers_of_output(o), n)
}

/// The arguments of a command, without the command name.
pub fn cmd_rest_slice(args: &Vec<String>) -> (r: &[String])
    requires
        args@.len() >= 1,
    ensures
        views_of(r@) == cmd_rest(views_of(args@)),
{
    let r = slice_subrange(args.as_slice(), 1, args.len());
    proof {
        assert(views_of(r@) =~= views_of(args@).skip(1));
    }
    r
}

/// One verified execution step: what each in-store command does to the state
/// and what it outputs.
pub open spec fn spec_exec(
    kind: CommandKind,
    input: CommandInputView,
    st: StateView,
    ci: bool,
) -> Result<(StateView, CommandOutputView), (StateView, SpecFail)> {
    match kind {
        CommandKind::Cd => cd::spec_cd(input, st, ci),
        CommandKind::Ls => ls::spec_ls(input, st, ci),
        CommandKind::Pwd => pwd::spec_pwd(input, st),
        CommandKind::Wc => wc::spec_wc(input, st, ci),
        CommandKind::SetCmd => set::spec_set(input, st),
        CommandKind::Exit => exit::spec_exit(input, st),
        CommandKind::Man => man::spec_man(input, st),
        _ => Err((st, SpecFail::Exact(FallacyView::ExitReason))),
    }
}

/// The error for an empty command at a given chain position.
pub open spec fn empty_cmd_error(idx: int, n: int) -> FallacyView {
    FallacyView::InvalidCommand(
        if idx == 0 {
            "Command cannot begin with a pipe."@
        } else if idx == n - 1 {
            "Command cannot end with a pipe."@
        } else {
            "Only one pipe character allowed between commands."@
        },
    )
}

/// How one run of a command line can end: with an output, handed to the
/// surrounding program for a command that needs the outside world, or with
/// an error.
pub ghost enum SpecOutcome {
    Done(StateView, CommandOutputView),
    Outside(StateView, CommandKind, CommandInputView, Seq<Seq<Seq<char>>>),
    Fail(StateView, SpecFail),
}

/// Run the chain from position `idx`, threading each output into the next
/// command's input; an empty command is a pipe-placement error, an
/// unregistered name an unknown-command error, and a command that needs the
/// outside world stops the run and is handed back with the rest of the
/// chain.
pub open spec fn spec_run_go(
    cmds: Seq<Seq<Seq<char>>>,
    idx: int,
    prev: CommandOutputView,
    st: StateView,
    ci: bool,
) -> SpecOutcome
    decreases cmds.len() - idx,
{
    if idx < 0 || idx >= cmds.len() {
        SpecOutcome::Done(st, prev)
    } else {
        let cmd = cmds[idx];
        if cmd.len() == 0 {
            SpecOutcome::Fail(st, SpecFail::Exact(empty_cmd_error(idx, cmds.len() as int)))
        } else {
            match spec_command_kind(cmd[0]) {
                None => SpecOutcome::Fail(
                    st,
                    SpecFail::Exact(FallacyView::UnknownCommand(cmd[0])),
                ),
                Some(kind) => {
                    let input = CommandInputView { args: cmd, papers: papers_of_output(prev) };
                    if is_outside_kind(kind) {
                        SpecOutcome::Outside(st, kind, input, cmds.skip(idx + 1))
                    } else {
                        match spec_exec(kind, input, st, ci) {
                            Ok((st2, out)) => spec_run_go(cmds, idx + 1, out, st2, ci),
                            Err((st2, f)) => SpecOutcome::Fail(st2, f),
                        }
                    }
                },
            }
        }
    }
}

/// What running a whole parsed command line does: an empty line and a
/// comment line are no-ops; everything else runs the chain from its first
/// command.
pub open spec fn spec_run_line(cmds: Seq<Seq<Seq<char>>>, st: StateView, ci: bool) -> SpecOutcome {
    if cmds.len() == 0 {
        SpecOutcome::Done(st, CommandOutputView::Nothing)
    } else if cmds.len() == 1 && (cmds[0].len() == 0 || (cmds[0].len() > 0 && cmds[0][0]
        == "#"@)) {
        SpecOutcome::Done(st, CommandOutputView::Nothing)
    } else {
        spec_run_go(cmds, 0, CommandOutputView::Nothing, st, ci)
    }
}

/// How a run of the command loop ends on the executable side: done with an
/// output, or handed back to the surrounding program together with the
/// input the outside command is owed and the rest of the chain.
pub enum PipelineOutcome {
    Done(CommandOutput),
    Outside { kind: CommandKind, input: CommandInput, rest: Vec<Vec<String>> },
}

/// Run a parsed command line against the store, threading each command's
/// output into the next command's input. A command whose work needs the
/// outside world is handed back unrun, with its input and the rest of the
/// chain; an error aborts the chain at once and mutations already made
/// stand.
#[verifier::rlimit(80)]
pub fn run_command(commands: Vec<Vec<String>>, state: &mut State, config: &Config) -> (r: Result<
    PipelineOutcome,
    Fallacy,
>)
    requires
        old(state).wf(),
    ensures
        final(state).wf(),
        match (r, spec_run_line(
            argvec_views(commands@),
            old(state)@,
            config.filter.case_insensitive_regex,
        )) {
            (Ok(PipelineOutcome::Done(out)), SpecOutcome::Done(st2, ov)) => final(state)@ == st2
                && out@ == ov && out_in_bounds(out@, st2.papers.len() as int),
            (
                Ok(PipelineOutcome::Outside { kind, input, rest }),
                SpecOutcome::Outside(st2, k2, iv, rv),
            ) => final(state)@ == st2 && kind == k2 && input@ == iv && argvec_views(rest@) == rv
                && selection_in_bounds(input@.papers, st2.papers.len() as int),
            (Err(e), SpecOutcome::Fail(st2, f)) => final(state)@ == st2 && fallacy_conforms(
                e@,
                f,
            ),
            _ => false,
        },
{
    let ghost v = argvec_views(commands@);
    let ghost st0 = old(state)@;
    let ghost ci = config.filter.case_insensitive_regex;
    let n = commands.len();
    if n == 0 {
        return Ok(PipelineOutcome::Done(CommandOutput::Nothing));
    }
    if n == 1 && commands[0].len() == 0 {
        proof {
            assert(v[0] == views_of(commands@[0]@));
        }
        return Ok(PipelineOutcome::Done(CommandOutput::Nothing));
    }
    if n == 1 && crate::strutil::str_eq(commands[0][0].as_str(), "#") {
        proof {
            assert(v[0] == views_of(commands@[0]@));
            assert(v[0][0] == commands@[0]@[0]@);
        }
        return Ok(PipelineOutcome::Done(CommandOutput::Nothing));
    }
    proof {
        if v.len() == 1 {
            assert(v[0] == views_of(commands@[0]@));
            if commands@[0]@.len() > 0 {
                assert(v[0][0] == commands@[0]@[0]@);
            }
        }
    }

    proof {
        assert(spec_run_line(v, st0, ci) == spec_run_go(
            v,
            0,
            CommandOutputView::Nothing,
            st0,
            ci,
        ));
    }
    resume_command(commands, CommandOutput::Nothing, state, config)
}

/// Continue a chain with the output of the stage just performed outside:
/// run the commands left, threading outputs exactly as `run_command` does.
#[verifier::rlimit(80)]
pub fn resume_command(
    commands: Vec<Vec<String>>,
    prev: CommandOutput,
    state: &mut State,
    config: &Config,
) -> (r: Result<PipelineOutcome, Fallacy>)
    requires
        old(state).wf(),
        out_in_bounds(prev@, old(state)@.papers.len() as int),
    ensures
        final(state).wf(),
        match (r, spec_run_go(
            argvec_views(commands@),
            0,
            prev@,
            old(state)@,
            config.filter.case_insensitive_regex,
        )) {
            (Ok(PipelineOutcome::Done(out)), SpecOutcome::Done(st2, ov)) => final(state)@ == st2
                && out@ == ov && out_in_bounds(out@, st2.papers.len() as int),
            (
                Ok(PipelineOutcome::Outside { kind, input, rest }),
                SpecOutcome::Outside(st2, k2, iv, rv),
            ) => final(state)@ == st2 && kind == k2 && input@ == iv && argvec_views(rest@) == rv
                && selection_in_bounds(input@.papers, st2.papers.len() as int),
            (Err(e), SpecOutcome::Fail(st2, f)) => final(state)@ == st2 && fallacy_conforms(
                e@,
                f,
            ),
            _ => false,
        },
{
    let ghost v = argvec_views(commands@);
    let ghost st0 = old(state)@;
    let ghost ci = config.filter.case_insensitive_regex;
    let ghost prev0 = prev@;
    let n = commands.len();
    let mut output = prev;
    let mut idx: usize = 0;
    while idx < n
        invariant
            idx <= n,
            n == commands@.len(),
            v == argvec_views(commands@),
            ci == config.filter.case_insensitive_regex,
            st0 == old(state)@,
            prev0 == prev@,
            state.wf(),
            out_in_bounds(output@, state@.papers.len() as int),
            spec_run_go(v, 0, prev0, st0, ci) == spec_run_go(
                v,
                idx as int,
                output@,
                state@,
                ci,
            ),
        decreases n - idx,
    {
        let ghost iold = idx as int;
        let ghost st_pre = state@;
        let ghost prev = output@;
        proof {
            assert(v[iold] == views_of(commands@[iold]@));
        }
        let cmd = &commands[idx];
        if cmd.len() == 0 {
            let msg: &str = if idx == 0 {
                "Command cannot begin with a pipe."
            } else if idx == n - 1 {
                "Command cannot end with a pipe."
            } else {
                "Only one pipe character allowed between commands."
            };
            return Err(Fallacy::InvalidCommand(String::from_str(msg)));
        }
        proof {
            assert(v[iold][0] == commands@[iold]@[0]@);
        }
        let kind = match to_executor(cmd[0].clone()) {
            Ok(k) => k,
            Err(e) => {
                return Err(e);
            },
        };
        let args = clone_string_vec(cmd);
        let input = CommandInput::from_output(args, output);
        proof {
            assert(input@ =~= (CommandInputView { args: v[iold], papers: papers_of_output(prev) }));
        }
        let outside = matches!(
            kind,
            CommandKind::Curl
                | CommandKind::Open
                | CommandKind::Printf
                | CommandKind::Ed
                | CommandKind::Rm
                | CommandKind::Touch
        );
        if outside {
            let mut rest: Vec<Vec<String>> = Vec::new();
            let mut j: usize = idx + 1;
            while j < n
                invariant
                    iold + 1 <= j <= n,
                    n == commands@.len(),
                    v == argvec_views(commands@),
                    rest@.len() == j - iold - 1,
                    forall|t: int|
                        0 <= t < rest@.len() ==> #[trigger] views_of(rest@[t]@) == v[iold + 1
                            + t],
                decreases n - j,
            {
                rest.push(clone_string_vec(&commands[j]));
                j = j + 1;
                proof {
                    assert(views_of(rest@[j - iold - 2]@) == views_of(
                        commands@[j - 1]@,
                    ));
                }
            }
            proof {
                assert(argvec_views(rest@) =~= v.skip(iold + 1));
            }
            return Ok(PipelineOutcome::Outside { kind, input, rest });
        }
        let res = match kind {
            CommandKind::Cd => cd::execute(input, state, config),
            CommandKind::Ls => ls::execute(input, state, config),
            CommandKind::Pwd => pwd::execute(input, state, config),
            CommandKind::Wc => wc::execute(input, state, config),
            CommandKind::SetCmd => set::execute(input, state, config),
            CommandKind::Exit => exit::execute(input, state, config),
            CommandKind::Man => man::execute(input, state, config),
            _ => unreached(),
        };
        match res {
            Ok(o) => {
                output = o;
            },
            Err(e) => {
                return Err(e);
            },
        }
        idx = idx + 1;
        proof {
            assert(spec_run_go(v, iold, prev, st_pre, ci) == spec_run_go(
                v,
                idx as int,
                output@,
                state@,
                ci,
            ));
        }
    }
    Ok(PipelineOutcome::Done(output))
}

/// Law: in a chain, the selection a stage outputs is exactly the piped
/// selection of the next stage's input, same indices, same order.
pub proof fn lemma_pipe_threads_selection(
    cmds: Seq<Seq<Seq<char>>>,
    idx: int,
    prev: CommandOutputView,
    st: StateView,
    ci: bool,
    kind: CommandKind,
    st2: StateView,
    sel: Seq<int>,
)
    requires
        0 <= idx < cmds.len() - 1,
        cmds[idx].len() > 0,
        spec_command_kind(cmds[idx][0]) == Some(kind),
        !is_outside_kind(kind),
        spec_exec(
            kind,
            CommandInputView { args: cmds[idx], papers: papers_of_output(prev) },
            st,
            ci,
        ) == Ok::<(StateView, CommandOutputView), (StateView, SpecFail)>(
            (st2, CommandOutputView::Papers(sel)),
        ),
    ensures
        spec_run_go(cmds, idx, prev, st, ci) == spec_run_go(
            cmds,
            idx + 1,
            CommandOutputView::Papers(sel),
            st2,
            ci,
        ),
        spec_run_go(cmds, idx + 1, CommandOutputView::Papers(sel), st2, ci) == ({
            let cmd = cmds[idx + 1];
            if cmd.len() == 0 {
                SpecOutcome::Fail(
                    st2,
                    SpecFail::Exact(empty_cmd_error(idx + 1, cmds.len() as int)),
                )
            } else {
                match spec_command_kind(cmd[0]) {
                    None => SpecOutcome::Fail(
                        st2,
                        SpecFail::Exact(FallacyView::UnknownCommand(cmd[0])),
                    ),
                    Some(kind2) => {
                        let input2 = CommandInputView { args: cmd, papers: Some(sel) };
                        if is_outside_kind(kind2) {
                            SpecOutcome::Outside(st2, kind2, input2, cmds.skip(idx + 2))
                        } else {
                            match spec_exec(kind2, input2, st2, ci) {
                                Ok((st3, out)) => spec_run_go(cmds, idx + 2, out, st3, ci),
                                Err((st3, f)) => SpecOutcome::Fail(st3, f),
                            }
                        }
                    },
                }
            }
        }),
{
}

/// Law: a message output pipes no selection: the next stage's input carries
/// `None`, and a command with a selection fallback then computes its own.
pub proof fn lemma_message_pipes_nothing(msg: Seq<char>)
    ensures
        papers_of_output(CommandOutputView::Message(msg)) is None,
{
}

/// Law: `wc` with nothing piped in falls back to filtering for itself: its
/// count is exactly the count of the selection `ls` would output for the
/// same arguments.
pub proof fn lemma_wc_falls_back_to_ls(input: CommandInputView, st: StateView, ci: bool)
    requires
        input.papers is None,
    ensures
        wc::spec_wc(input, st, ci) == (match ls::spec_ls(input, st, ci) {
            Ok((st2, out)) => match out {
                CommandOutputView::Papers(sel) => Ok::<
                    (StateView, CommandOutputView),
                    (StateView, SpecFail),
                >((st2, CommandOutputView::Message(wc::count_message(sel.len())))),
                _ => Ok((st2, out)),
            },
            Err(e) => Err(e),
        }),
{
}

} // verus!
