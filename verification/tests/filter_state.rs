use reason::filter::PaperFilter;
use reason::state::filter::{FilterInst, FilterState};

fn author_filter(pattern: &str) -> PaperFilter {
    PaperFilter::from_args(&["by".to_string(), pattern.to_string()], false)
        .expect("the author pattern should compile")
}

fn nickname_filter(pattern: &str) -> PaperFilter {
    PaperFilter::from_args(&["as".to_string(), pattern.to_string()], false)
        .expect("the nickname pattern should compile")
}

#[test]
fn empty_filter() {
    let fstate = FilterState::default();
    assert_eq!(fstate.history_len(), 1);
    assert_eq!(fstate.current_index(), 0);
    assert_eq!(fstate.previous_index(), 0);
}

#[test]
fn one_filter() {
    let mut fstate = FilterState::default();
    fstate.record(FilterInst::Add(author_filter("Chung")));
    assert_eq!(fstate.history_len(), 2);
    assert_eq!(fstate.current_index(), 1);
    assert_eq!(fstate.previous_index(), 0);
}

#[test]
fn two_filters() {
    let mut fstate = FilterState::default();
    fstate.record(FilterInst::Add(author_filter("Chung")));
    fstate.record(FilterInst::Add(nickname_filter("ShadowTutor")));
    assert_eq!(fstate.history_len(), 3);
    assert_eq!(fstate.current_index(), 2);
    assert_eq!(fstate.previous_index(), 1);
}

#[test]
fn two_then_parent() {
    let mut fstate = FilterState::default();
    fstate.record(FilterInst::Add(author_filter("Chung")));
    fstate.record(FilterInst::Add(nickname_filter("ShadowTutor")));
    fstate.record(FilterInst::Prev);
    assert_eq!(fstate.history_len(), 3);
    assert_eq!(fstate.current_index(), 1);
    assert_eq!(fstate.previous_index(), 2);
}

#[test]
fn parent_at_root_saturates() {
    let mut fstate = FilterState::default();
    fstate.record(FilterInst::Parent);
    assert_eq!(fstate.history_len(), 1);
    assert_eq!(fstate.current_index(), 0);
    assert_eq!(fstate.previous_index(), 0);
}

#[test]
fn reset_goes_to_root() {
    let mut fstate = FilterState::default();
    fstate.record(FilterInst::Add(author_filter("Chung")));
    fstate.record(FilterInst::Add(nickname_filter("ShadowTutor")));
    fstate.record(FilterInst::Reset);
    assert_eq!(fstate.history_len(), 3);
    assert_eq!(fstate.current_index(), 0);
    assert_eq!(fstate.previous_index(), 2);
}

#[test]
fn here_pushes_an_empty_level() {
    let mut fstate = FilterState::default();
    fstate.record(FilterInst::Here);
    assert_eq!(fstate.history_len(), 2);
    assert_eq!(fstate.current_index(), 1);
    assert_eq!(fstate.previous_index(), 0);
    let filter = fstate.current();
    assert!(filter.is_empty());
}

#[test]
fn add_after_parent_overwrites_the_abandoned_level() {
    let mut fstate = FilterState::default();
    fstate.record(FilterInst::Add(author_filter("Chung")));
    fstate.record(FilterInst::Parent);
    fstate.record(FilterInst::Add(nickname_filter("ShadowTutor")));
    // The new piece overwrites level 1 instead of branching.
    assert_eq!(fstate.history_len(), 2);
    assert_eq!(fstate.current_index(), 1);
    assert_eq!(fstate.previous_index(), 0);
    let filter = fstate.current();
    assert_eq!(filter.author.len(), 0);
    assert_eq!(filter.nickname.len(), 1);
}

#[test]
fn observe_leaves_the_state_alone() {
    let mut fstate = FilterState::default();
    fstate.record(FilterInst::Add(author_filter("Chung")));
    let observed = fstate.observe(FilterInst::Add(nickname_filter("ShadowTutor")));
    assert_eq!(observed.author.len(), 1);
    assert_eq!(observed.nickname.len(), 1);
    assert_eq!(fstate.history_len(), 2);
    assert_eq!(fstate.current_index(), 1);
    assert_eq!(fstate.previous_index(), 0);
}

#[test]
fn current_merges_root_to_current() {
    let mut fstate = FilterState::default();
    fstate.record(FilterInst::Add(author_filter("Chung")));
    fstate.record(FilterInst::Add(nickname_filter("ShadowTutor")));
    let merged = fstate.current();
    assert_eq!(merged.author.len(), 1);
    assert_eq!(merged.nickname.len(), 1);
    fstate.record(FilterInst::Parent);
    let merged = fstate.current();
    assert_eq!(merged.author.len(), 1);
    assert_eq!(merged.nickname.len(), 0);
}
