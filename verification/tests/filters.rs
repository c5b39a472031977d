use reason::error::Fallacy;
use reason::filter::PaperFilter;
use reason::paper::Paper;

fn strings(v: &[&str]) -> Vec<String> {
    v.iter().map(|s| s.to_string()).collect()
}

fn paper(title: &str, authors: &[&str], venue: &str, year: &str, labels: &[&str]) -> Paper {
    Paper {
        title: title.to_string(),
        nickname: None,
        authors: strings(authors),
        venue: venue.to_string(),
        year: year.to_string(),
        filepath: None,
        labels: strings(labels),
        notepath: None,
    }
}

#[test]
fn author_and_first_author_matching() {
    let p = paper(
        "ShadowTutor",
        &["Jae-Won Chung", "X"],
        "ICPP",
        "2020",
        &[],
    );
    let by_chung = PaperFilter::from_args(&strings(&["by", "Chung"]), false).unwrap();
    assert!(by_chung.matches(&p));
    let by1_jae = PaperFilter::from_args(&strings(&["by1", "Jae"]), false).unwrap();
    assert!(by1_jae.matches(&p));
    let by1_x = PaperFilter::from_args(&strings(&["by1", "^X$"]), false).unwrap();
    assert!(!by1_x.matches(&p));
    // "^X$" still matches *some* author, just not the first.
    let by_x = PaperFilter::from_args(&strings(&["by", "^X$"]), false).unwrap();
    assert!(by_x.matches(&p));
}

#[test]
fn title_venue_year_matching() {
    let p = paper("Deep Learning", &["A"], "SOSP", "2021", &[]);
    let f = PaperFilter::from_args(&strings(&["Deep", "at", "SOSP", "in", "2021"]), false).unwrap();
    assert!(f.matches(&p));
    let f2 = PaperFilter::from_args(&strings(&["at", "OSDI"]), false).unwrap();
    assert!(!f2.matches(&p));
    // `on` also names the venue.
    let f3 = PaperFilter::from_args(&strings(&["on", "SOSP"]), false).unwrap();
    assert!(f3.matches(&p));
}

#[test]
fn nickname_matches_against_empty_when_absent() {
    let p = paper("T", &["A"], "V", "2020", &[]);
    let f = PaperFilter::from_args(&strings(&["as", "Shadow"]), false).unwrap();
    assert!(!f.matches(&p));
    let mut q = paper("T", &["A"], "V", "2020", &[]);
    q.nickname = Some("ShadowTutor".to_string());
    assert!(f.matches(&q));
}

#[test]
fn label_filters() {
    let p = paper("T", &["A"], "V", "2020", &["read", "ml"]);
    let is_read = PaperFilter::from_args(&strings(&["is", "read"]), false).unwrap();
    assert!(is_read.matches(&p));
    let not_read = PaperFilter::from_args(&strings(&["not", "read"]), false).unwrap();
    assert!(!not_read.matches(&p));
    let not_sys = PaperFilter::from_args(&strings(&["not", "sys"]), false).unwrap();
    assert!(not_sys.matches(&p));
}

#[test]
fn case_insensitive_flag_controls_matching() {
    let p = paper("shadowtutor", &["A"], "V", "2020", &[]);
    let sensitive = PaperFilter::from_args(&strings(&["Shadow"]), false).unwrap();
    assert!(!sensitive.matches(&p));
    let insensitive = PaperFilter::from_args(&strings(&["Shadow"]), true).unwrap();
    assert!(insensitive.matches(&p));
}

#[test]
fn same_field_patterns_accumulate() {
    let p = paper("deep graph learning", &["A"], "V", "2020", &[]);
    let f = PaperFilter::from_args(&strings(&["deep", "graph"]), false).unwrap();
    assert_eq!(f.title.len(), 2);
    assert!(f.matches(&p));
    let q = paper("deep learning", &["A"], "V", "2020", &[]);
    assert!(!f.matches(&q));
}

#[test]
fn dangling_keyword_falls_back_to_title() {
    // A keyword with no following argument becomes a bare title pattern.
    let f = PaperFilter::from_args(&strings(&["by"]), false).unwrap();
    assert_eq!(f.title.len(), 1);
    assert_eq!(f.author.len(), 0);
    let p = paper("paper by someone", &["A"], "V", "2020", &[]);
    assert!(f.matches(&p));
}

#[test]
fn bad_regex_reports_filter_build_failed() {
    match PaperFilter::from_args(&strings(&["("]), false) {
        Err(Fallacy::FilterBuildFailed(_)) => (),
        _ => panic!("an unclosed group must fail to compile"),
    }
    match PaperFilter::from_args(&strings(&["by", "["]), false) {
        Err(Fallacy::FilterBuildFailed(_)) => (),
        _ => panic!("an unclosed class must fail to compile"),
    }
}

#[test]
fn merge_keeps_field_order() {
    let a = PaperFilter::from_args(&strings(&["alpha", "by", "A1"]), false).unwrap();
    let b = PaperFilter::from_args(&strings(&["beta", "by", "B1"]), false).unwrap();
    let merged = PaperFilter::merge(&[a, b]);
    assert_eq!(merged.title.len(), 2);
    assert_eq!(merged.author.len(), 2);
    // The merged constraints AND together.
    let p = paper("alpha beta", &["A1 B1"], "V", "2020", &[]);
    assert!(merged.matches(&p));
    let q = paper("alpha", &["A1 B1"], "V", "2020", &[]);
    assert!(!merged.matches(&q));
}

#[test]
fn merge_of_nothing_is_empty() {
    let merged = PaperFilter::merge(&[]);
    assert!(merged.is_empty());
}

#[test]
fn display_lists_segments_or_reports_none() {
    let f = PaperFilter::merge(&[]);
    assert_eq!(f.to_display_string(), "No filters are active.\n");
    let g = PaperFilter::from_args(&strings(&["x", "y", "by", "Chung"]), false).unwrap();
    assert_eq!(
        g.to_display_string(),
        "title matches 'x' & 'y', author matches 'Chung'\n"
    );
    let h = PaperFilter::from_args(&strings(&["not", "read"]), false).unwrap();
    assert_eq!(h.to_display_string(), "label does not match 'read'\n");
}

#[test]
fn is_empty_notices_every_field() {
    assert!(PaperFilter::default().is_empty());
    let f = PaperFilter::from_args(&strings(&["is", "read"]), false).unwrap();
    assert!(!f.is_empty());
}
