use reason::cmd::{rm, touch, CommandOutput};
use reason::paper::{Paper, PaperList};
use reason::state::State;

fn strings(v: &[&str]) -> Vec<String> {
    v.iter().map(|s| s.to_string()).collect()
}

fn paper(title: &str) -> Paper {
    Paper {
        title: title.to_string(),
        nickname: None,
        authors: strings(&["A"]),
        venue: "V".to_string(),
        year: "2020".to_string(),
        filepath: None,
        labels: Vec::new(),
        notepath: None,
    }
}

fn titles(state: &State) -> Vec<String> {
    state.papers.iter().map(|p| p.title.clone()).collect()
}

#[test]
fn add_paper_appends_and_selects_the_new_paper() {
    let mut state = State::default();
    state.papers.push(paper("first"));
    match touch::add_paper(&mut state, paper("second")) {
        CommandOutput::Papers(list) => assert_eq!(list.0, vec![1]),
        _ => panic!("adding a paper must select it"),
    }
    assert_eq!(titles(&state), strings(&["first", "second"]));
}

#[test]
fn remove_papers_keeps_exactly_the_unselected() {
    let mut state = State::default();
    for t in ["a", "b", "c", "d", "e"] {
        state.papers.push(paper(t));
    }
    let msg = rm::remove_papers(&mut state, &PaperList(vec![1, 3]));
    assert_eq!(msg, "Removed 2 papers from the paperbase.");
    assert_eq!(titles(&state), strings(&["a", "c", "e"]));
}

#[test]
fn remove_papers_reports_one_paper_in_the_singular() {
    let mut state = State::default();
    state.papers.push(paper("only"));
    let msg = rm::remove_papers(&mut state, &PaperList(vec![0]));
    assert_eq!(msg, "Removed 1 paper from the paperbase.");
    assert!(state.papers.is_empty());
}

#[test]
fn remove_papers_with_an_empty_selection_removes_nothing() {
    let mut state = State::default();
    state.papers.push(paper("kept"));
    let msg = rm::remove_papers(&mut state, &PaperList(Vec::new()));
    assert_eq!(msg, "Removed 0 papers from the paperbase.");
    assert_eq!(titles(&state), strings(&["kept"]));
}
