use reason::error::Fallacy;
use reason::paper::Paper;

fn strings(v: &[&str]) -> Vec<String> {
    v.iter().map(|s| s.to_string()).collect()
}

#[test]
fn from_args_builds_a_full_paper() {
    let paper = Paper::from_args(strings(&[
        "touch",
        "Deep Learning",
        "by",
        "Ada, Grace ,  Alan",
        "at",
        "SOSP",
        "in",
        "2021",
        "as",
        "DL",
        "@",
        "dl.pdf",
        "is",
        "ml, read",
    ]))
    .unwrap();
    assert_eq!(paper.title, "Deep Learning");
    assert_eq!(paper.authors, strings(&["Ada", "Grace", "Alan"]));
    assert_eq!(paper.venue, "SOSP");
    assert_eq!(paper.year, "2021");
    assert_eq!(paper.nickname, Some("DL".to_string()));
    assert_eq!(paper.filepath, Some("dl.pdf".to_string()));
    assert_eq!(paper.labels, strings(&["ml", "read"]));
    assert_eq!(paper.notepath, None);
}

#[test]
fn from_args_reports_missing_fields_in_order() {
    match Paper::from_args(strings(&["touch"])) {
        Err(Fallacy::PaperMissingFields(m)) => {
            assert_eq!(m, "authors(by), venue(at), year(in), title(_)");
        },
        _ => panic!("expected missing fields"),
    }
    match Paper::from_args(strings(&["touch", "T", "by", "A", "at", "V"])) {
        Err(Fallacy::PaperMissingFields(m)) => assert_eq!(m, "year(in)"),
        _ => panic!("expected a missing year"),
    }
}

#[test]
fn from_args_trailing_keyword_counts_as_missing() {
    // A trailing keyword claims its slot but carries no value.
    match Paper::from_args(strings(&["touch", "T", "at", "V", "in", "2020", "by"])) {
        Err(Fallacy::PaperMissingFields(m)) => assert_eq!(m, "authors(by)"),
        _ => panic!("expected missing authors"),
    }
}

#[test]
fn from_args_rejects_duplicate_fields() {
    match Paper::from_args(strings(&["touch", "T", "by", "A", "by", "B"])) {
        Err(Fallacy::PaperDuplicateField(k)) => assert_eq!(k, "by"),
        _ => panic!("expected a duplicate keyword"),
    }
    match Paper::from_args(strings(&["touch", "T1", "T2"])) {
        Err(Fallacy::PaperDuplicateField(k)) => assert_eq!(k, "title"),
        _ => panic!("expected a duplicate title"),
    }
}

#[test]
fn from_args_dedups_labels_keeping_first() {
    let paper = Paper::from_args(strings(&[
        "touch", "T", "by", "A", "at", "V", "in", "2020", "is", "ml,read,ml",
    ]))
    .unwrap();
    assert_eq!(paper.labels, strings(&["ml", "read"]));
}

#[test]
fn apply_from_args_edits_fields() {
    let mut paper = Paper::from_args(strings(&["touch", "Old", "by", "A", "at", "V", "in", "2020"]))
        .unwrap();
    paper
        .apply_from_args(&strings(&["New Title", "by", "B1,B2", "in", "2021"]))
        .unwrap();
    assert_eq!(paper.title, "New Title");
    assert_eq!(paper.authors, strings(&["B1", "B2"]));
    assert_eq!(paper.venue, "V");
    assert_eq!(paper.year, "2021");
}

#[test]
fn apply_from_args_read_label_clears_current() {
    let mut paper = Paper::from_args(strings(&[
        "touch", "T", "by", "A", "at", "V", "in", "2020", "is", "current,ml",
    ]))
    .unwrap();
    paper.apply_from_args(&strings(&["is", "read"])).unwrap();
    assert_eq!(paper.labels, strings(&["ml", "read"]));
}

#[test]
fn apply_from_args_not_removes_labels() {
    let mut paper = Paper::from_args(strings(&[
        "touch", "T", "by", "A", "at", "V", "in", "2020", "is", "ml,sys",
    ]))
    .unwrap();
    paper.apply_from_args(&strings(&["not", " ml "])).unwrap();
    assert_eq!(paper.labels, strings(&["sys"]));
}

#[test]
fn apply_from_args_duplicate_keyword_changes_nothing() {
    let mut paper = Paper::from_args(strings(&["touch", "T", "by", "A", "at", "V", "in", "2020"]))
        .unwrap();
    match paper.apply_from_args(&strings(&["in", "2021", "in", "2022"])) {
        Err(Fallacy::PaperDuplicateField(k)) => assert_eq!(k, "in"),
        _ => panic!("expected a duplicate keyword"),
    }
    assert_eq!(paper.year, "2020");
}

#[test]
fn field_as_string_renders_each_column() {
    let mut paper = Paper::from_args(strings(&[
        "touch", "T", "by", "Ada,Grace", "at", "V", "in", "2020",
    ]))
    .unwrap();
    paper.nickname = Some("N".to_string());
    assert_eq!(paper.field_as_string("title"), "T");
    assert_eq!(paper.field_as_string("nickname"), "N");
    assert_eq!(paper.field_as_string("authors"), "Ada, Grace");
    assert_eq!(paper.field_as_string("first author"), "Ada");
    assert_eq!(paper.field_as_string("venue"), "V");
    assert_eq!(paper.field_as_string("year"), "2020");
    assert_eq!(paper.field_as_string("state"), "");
}
