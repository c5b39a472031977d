use reason::cmd::{
    parse_command, resume_command, rm, run_command, CommandKind, CommandOutput, PipelineOutcome,
};
use reason::config::Config;
use reason::error::Fallacy;
use reason::paper::Paper;
use reason::state::State;

fn strings(v: &[&str]) -> Vec<String> {
    v.iter().map(|s| s.to_string()).collect()
}

fn paper(title: &str, authors: &[&str], venue: &str, year: &str) -> Paper {
    Paper {
        title: title.to_string(),
        nickname: None,
        authors: strings(authors),
        venue: venue.to_string(),
        year: year.to_string(),
        filepath: None,
        labels: Vec::new(),
        notepath: None,
    }
}

fn three_paper_state() -> State {
    let mut state = State::default();
    state.papers.push(paper("ShadowTutor", &["Jae-Won Chung", "X"], "ICPP", "2020"));
    state.papers.push(paper("Deep Graphs", &["Ada"], "SOSP", "2021"));
    state.papers.push(paper("Fast Parsing", &["Chung Li"], "PLDI", "2019"));
    state
}

fn run(line: &str, state: &mut State, config: &Config) -> Result<PipelineOutcome, Fallacy> {
    let commands = parse_command(line).expect("the line should tokenize");
    run_command(commands, state, config)
}

fn expect_message(outcome: Result<PipelineOutcome, Fallacy>) -> String {
    match outcome {
        Ok(PipelineOutcome::Done(CommandOutput::Message(m))) => m,
        _ => panic!("expected a message outcome"),
    }
}

fn expect_selection(outcome: Result<PipelineOutcome, Fallacy>) -> Vec<usize> {
    match outcome {
        Ok(PipelineOutcome::Done(CommandOutput::Papers(l))) => l.0,
        _ => panic!("expected a paper selection"),
    }
}

#[test]
fn empty_line_is_a_no_op() {
    let mut state = State::default();
    let config = Config::default();
    match run("", &mut state, &config) {
        Ok(PipelineOutcome::Done(CommandOutput::Nothing)) => (),
        _ => panic!("an empty line must do nothing"),
    }
}

#[test]
fn comment_line_is_a_no_op() {
    let mut state = three_paper_state();
    let config = Config::default();
    match run("# ls everything", &mut state, &config) {
        Ok(PipelineOutcome::Done(CommandOutput::Nothing)) => (),
        _ => panic!("a comment must do nothing"),
    }
}

#[test]
fn unknown_command_is_reported() {
    let mut state = State::default();
    let config = Config::default();
    match run("frobnicate", &mut state, &config) {
        Err(Fallacy::UnknownCommand(name)) => assert_eq!(name, "frobnicate"),
        _ => panic!("expected an unknown command"),
    }
}

#[test]
fn ls_selects_matching_papers() {
    let mut state = three_paper_state();
    let config = Config::default();
    assert_eq!(expect_selection(run("ls by Chung", &mut state, &config)), vec![0, 2]);
    assert_eq!(expect_selection(run("ls by1 Chung", &mut state, &config)), vec![0, 2]);
    assert_eq!(expect_selection(run("ls by1 '^Chung'", &mut state, &config)), vec![2]);
    assert_eq!(expect_selection(run("ls", &mut state, &config)), vec![0, 1, 2]);
}

#[test]
fn piping_ls_into_wc_passes_the_selection() {
    let mut state = three_paper_state();
    let config = Config::default();
    assert_eq!(expect_message(run("ls by Chung | wc", &mut state, &config)), "2 papers.\n");
    assert_eq!(expect_message(run("ls in 2021 | wc", &mut state, &config)), "1 papers.\n");
}

#[test]
fn wc_alone_falls_back_to_self_filtering() {
    let mut state = three_paper_state();
    let config = Config::default();
    // `ls <args> | wc` and `wc <args>` agree.
    let piped = expect_message(run("ls at ICPP | wc", &mut state, &config));
    let alone = expect_message(run("wc at ICPP", &mut state, &config));
    assert_eq!(piped, alone);
    assert_eq!(alone, "1 papers.\n");
}

#[test]
fn message_output_pipes_no_selection() {
    let mut state = three_paper_state();
    let config = Config::default();
    // `wc` outputs a message, so the second `wc` computes its own full
    // selection instead of counting a piped one.
    assert_eq!(expect_message(run("wc by Chung | wc", &mut state, &config)), "3 papers.\n");
}

#[test]
fn set_requires_a_piped_selection() {
    let mut state = three_paper_state();
    let config = Config::default();
    match run("set in 2030", &mut state, &config) {
        Err(Fallacy::SetNoPapers) => (),
        _ => panic!("set without a pipe must fail"),
    }
}

#[test]
fn piping_ls_into_set_edits_exactly_the_selection() {
    let mut state = three_paper_state();
    let config = Config::default();
    let sel = expect_selection(run("ls by Chung | set in 2030", &mut state, &config));
    assert_eq!(sel, vec![0, 2]);
    assert_eq!(state.papers[0].year, "2030");
    assert_eq!(state.papers[1].year, "2021");
    assert_eq!(state.papers[2].year, "2030");
}

#[test]
fn cd_records_and_ls_uses_the_recorded_filter() {
    let mut state = three_paper_state();
    let config = Config::default();
    match run("cd by Chung", &mut state, &config) {
        Ok(PipelineOutcome::Done(CommandOutput::Nothing)) => (),
        _ => panic!("cd must output nothing"),
    }
    assert_eq!(expect_selection(run("ls", &mut state, &config)), vec![0, 2]);
    assert_eq!(expect_selection(run("ls in 2019", &mut state, &config)), vec![2]);
    // `cd ..` goes back up.
    run("cd ..", &mut state, &config).unwrap();
    assert_eq!(expect_selection(run("ls", &mut state, &config)), vec![0, 1, 2]);
}

#[test]
fn pwd_prints_the_effective_filter() {
    let mut state = three_paper_state();
    let config = Config::default();
    assert_eq!(
        expect_message(run("pwd", &mut state, &config)),
        "No filters are active.\n"
    );
    run("cd by Chung", &mut state, &config).unwrap();
    assert_eq!(
        expect_message(run("pwd", &mut state, &config)),
        "author matches 'Chung'\n"
    );
}

#[test]
fn exit_surfaces_the_exit_error() {
    let mut state = State::default();
    let config = Config::default();
    match run("exit", &mut state, &config) {
        Err(Fallacy::ExitReason) => (),
        _ => panic!("exit must surface its own error"),
    }
}

#[test]
fn man_returns_text_for_known_subjects_only() {
    let mut state = State::default();
    let config = Config::default();
    let text = expect_message(run("man ls", &mut state, &config));
    assert!(text.starts_with("Usage: ls"));
    match run("man", &mut state, &config) {
        Err(Fallacy::ManInvalidArgument) => (),
        _ => panic!("man without a subject must fail"),
    }
    match run("man nonsense", &mut state, &config) {
        Err(Fallacy::ManUnknownSubject(s)) => assert_eq!(s, "nonsense"),
        _ => panic!("an unknown subject must fail"),
    }
}

#[test]
fn outside_commands_are_handed_back_with_their_input() {
    let mut state = three_paper_state();
    let config = Config::default();
    match run("ls by Chung | rm", &mut state, &config) {
        Ok(PipelineOutcome::Outside { kind, input, rest }) => {
            assert!(matches!(kind, CommandKind::Rm));
            assert_eq!(input.args, strings(&["rm"]));
            assert_eq!(input.papers.expect("rm should get the selection").0, vec![0, 2]);
            assert!(rest.is_empty());
        },
        _ => panic!("rm must be handed back to the surrounding program"),
    }
}

#[test]
fn chain_after_an_outside_command_is_handed_back_too() {
    let mut state = three_paper_state();
    let config = Config::default();
    match run("ls | rm | wc", &mut state, &config) {
        Ok(PipelineOutcome::Outside { kind, rest, .. }) => {
            assert!(matches!(kind, CommandKind::Rm));
            assert_eq!(rest, vec![strings(&["wc"])]);
        },
        _ => panic!("the rest of the chain must be handed back"),
    }
}

#[test]
fn directly_constructed_empty_commands_get_positional_errors() {
    let config = Config::default();
    let empty: Vec<String> = Vec::new();
    let mut state = State::default();
    match run_command(vec![empty.clone(), strings(&["wc"])], &mut state, &config) {
        Err(Fallacy::InvalidCommand(m)) => assert_eq!(m, "Command cannot begin with a pipe."),
        _ => panic!("expected a position error"),
    }
    match run_command(vec![strings(&["wc"]), empty.clone()], &mut state, &config) {
        Err(Fallacy::InvalidCommand(m)) => assert_eq!(m, "Command cannot end with a pipe."),
        _ => panic!("expected a position error"),
    }
    match run_command(
        vec![strings(&["wc"]), empty, strings(&["wc"])],
        &mut state,
        &config,
    ) {
        Err(Fallacy::InvalidCommand(m)) => {
            assert_eq!(m, "Only one pipe character allowed between commands.")
        },
        _ => panic!("expected a position error"),
    }
}

#[test]
fn mid_chain_failure_keeps_earlier_mutations() {
    let mut state = three_paper_state();
    let config = Config::default();
    // The set succeeds paper by paper; the duplicate keyword error aborts the
    // chain, but the edit of the first stage stands.
    match run("ls in 2021 | set in 2030 | frobnicate", &mut state, &config) {
        Err(Fallacy::UnknownCommand(_)) => (),
        _ => panic!("the unknown command must abort the chain"),
    }
    assert_eq!(state.papers[1].year, "2030");
}

#[test]
fn resuming_after_an_outside_command_continues_the_chain() {
    let mut state = three_paper_state();
    let config = Config::default();
    // The command loop around the library handles `rm` itself and then
    // resumes the rest of the chain with `rm`'s output.
    let (input, rest) = match run("ls by Chung | rm | wc", &mut state, &config) {
        Ok(PipelineOutcome::Outside { kind, input, rest }) => {
            assert!(matches!(kind, CommandKind::Rm));
            (input, rest)
        },
        _ => panic!("rm must be handed back"),
    };
    let list = input.papers.expect("rm should get the piped selection");
    let message = rm::remove_papers(&mut state, &list);
    assert_eq!(message, "Removed 2 papers from the paperbase.");
    assert_eq!(state.papers.len(), 1);
    // `wc` receives a message, so it counts its own full selection.
    match resume_command(rest, CommandOutput::Message(message), &mut state, &config) {
        Ok(PipelineOutcome::Done(CommandOutput::Message(m))) => assert_eq!(m, "1 papers.\n"),
        _ => panic!("the chain must finish with the count"),
    }
}
