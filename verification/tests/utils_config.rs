use reason::config::{Config, OutputConfig, StorageConfig};
use reason::error::Fallacy;
use reason::utils::{
    as_filename, confirm_answer, expand_tilde_with, make_unique_path, select_answer,
};

fn strings(v: &[&str]) -> Vec<String> {
    v.iter().map(|s| s.to_string()).collect()
}

#[test]
fn as_filename_hyphenates_and_strips() {
    assert_eq!(as_filename("Deep Learning: A Survey!"), "Deep-Learning-A-Survey");
    assert_eq!(as_filename("a\tb c"), "a-b-c");
    assert_eq!(as_filename(""), "");
    assert_eq!(as_filename("already-fine-123"), "already-fine-123");
}

#[test]
fn make_unique_path_has_the_expected_shape() {
    // Nothing exists under this name, so the first candidate is taken.
    let p = make_unique_path("no-such-dir-for-reason-tests", "note", ".md");
    assert_eq!(p, "no-such-dir-for-reason-tests/note.md");
}

#[test]
fn expand_tilde_with_replaces_the_prefix() {
    let home = "/home/someone".to_string();
    assert_eq!(
        expand_tilde_with("~/papers", Some(&home)).unwrap(),
        "/home/someone/papers"
    );
    assert_eq!(expand_tilde_with("~", Some(&home)).unwrap(), "/home/someone");
    assert_eq!(
        expand_tilde_with("/absolute/path", Some(&home)).unwrap(),
        "/absolute/path"
    );
    assert_eq!(expand_tilde_with("plain", None).unwrap(), "plain");
    match expand_tilde_with("~/papers", None) {
        Err(Fallacy::Homeless) => (),
        _ => panic!("a tilde without a home directory must fail"),
    }
}

#[test]
fn output_config_validation_lowercases_columns() {
    let mut output = OutputConfig::default();
    output.table_columns = strings(&["TITLE", "Venue"]);
    output.validate().unwrap();
    assert_eq!(output.table_columns, strings(&["title", "venue"]));
}

#[test]
fn output_config_validation_rejects_unknown_columns() {
    let mut output = OutputConfig::default();
    output.table_columns = strings(&["title", "pages"]);
    match output.validate() {
        Err(Fallacy::ConfigAuditError(m)) => {
            assert_eq!(m, "Table column name pages is not supported.")
        },
        _ => panic!("an unknown column must be rejected"),
    }
}

#[test]
fn output_config_validation_rejects_empty_commands() {
    let mut output = OutputConfig::default();
    output.viewer_command = Vec::new();
    match output.validate() {
        Err(Fallacy::ConfigAuditError(m)) => assert_eq!(m, "Viewer command cannot be empty."),
        _ => panic!("an empty viewer command must be rejected"),
    }
    let mut output = OutputConfig::default();
    output.editor_command = Vec::new();
    match output.validate() {
        Err(Fallacy::ConfigAuditError(m)) => assert_eq!(m, "Editor command cannot be empty."),
        _ => panic!("an empty editor command must be rejected"),
    }
    let mut output = OutputConfig::default();
    output.browser_command = Vec::new();
    match output.validate() {
        Err(Fallacy::ConfigAuditError(m)) => assert_eq!(m, "Browser command cannot be empty."),
        _ => panic!("an empty browser command must be rejected"),
    }
}

#[test]
fn default_config_is_valid() {
    let mut config = Config::default();
    config.validate().unwrap();
    assert_eq!(
        config.output.table_columns,
        strings(&["title", "first author", "venue", "year"])
    );
    assert!(!config.filter.case_insensitive_regex);
}

#[test]
fn default_storage_points_under_one_base() {
    let storage = StorageConfig::default();
    assert!(storage.paper_metadata.ends_with("/metadata.yaml"));
    assert!(storage.command_history.ends_with("/history.txt"));
    assert!(storage.file_dir.ends_with("/files"));
    assert!(storage.note_dir.ends_with("/notes"));
    assert_eq!(storage.max_history_size, 1000);
}

#[test]
fn error_messages_render_with_their_payloads() {
    assert_eq!(
        Fallacy::UnknownCommand("zap".to_string()).message(),
        "Unknown command: 'zap'"
    );
    assert_eq!(
        Fallacy::InvalidCommand("Invalid use of pipes.".to_string()).message(),
        "Invalid command: Invalid use of pipes."
    );
    assert_eq!(Fallacy::ExitReason.message(), "Exit reason");
    assert_eq!(
        Fallacy::PaperMissingFields("year(in)".to_string()).message(),
        "Required paper fields not given: year(in)"
    );
}

#[test]
fn storage_validation_without_tildes_succeeds_and_keeps_the_paths() {
    let mut storage = StorageConfig::default();
    storage.paper_metadata = "/data/metadata.yaml".to_string();
    storage.command_history = "/data/history.txt".to_string();
    storage.file_dir = "/data/files".to_string();
    storage.note_dir = "/data/notes".to_string();
    storage.validate().unwrap();
    assert_eq!(storage.paper_metadata, "/data/metadata.yaml");
    assert_eq!(storage.note_dir, "/data/notes");
}

#[test]
fn confirm_answer_interprets_the_reply() {
    assert!(confirm_answer("y", false).is_ok());
    assert!(confirm_answer("  YES \n", false).is_ok());
    assert!(confirm_answer("", true).is_ok());
    match confirm_answer("", false) {
        Err(Fallacy::FailedUserInteraction(m)) => assert_eq!(m, ""),
        _ => panic!("an empty reply must take the default"),
    }
    match confirm_answer(" No ", true) {
        Err(Fallacy::FailedUserInteraction(m)) => assert_eq!(m, ""),
        _ => panic!("no must decline"),
    }
    match confirm_answer("maybe", true) {
        Err(Fallacy::FailedUserInteraction(m)) => assert_eq!(m, "Invalid input."),
        _ => panic!("an unusable reply must be reported"),
    }
}

#[test]
fn select_answer_parses_and_range_checks() {
    assert_eq!(select_answer("2\n", 5).unwrap(), 2);
    assert_eq!(select_answer(" +3 ", 5).unwrap(), 3);
    match select_answer("5", 5) {
        Err(Fallacy::FailedUserInteraction(m)) => assert_eq!(m, "Input out of range."),
        _ => panic!("an out-of-range index must be reported"),
    }
    match select_answer("", 5) {
        Err(Fallacy::FailedUserInteraction(m)) => {
            assert_eq!(m, "cannot parse integer from empty string")
        },
        _ => panic!("an empty reply must be reported"),
    }
    match select_answer("two", 5) {
        Err(Fallacy::FailedUserInteraction(m)) => {
            assert_eq!(m, "invalid digit found in string")
        },
        _ => panic!("a non-number must be reported"),
    }
    match select_answer("+", 5) {
        Err(Fallacy::FailedUserInteraction(m)) => {
            assert_eq!(m, "invalid digit found in string")
        },
        _ => panic!("a bare sign must be reported"),
    }
    match select_answer("99999999999999999999999999", 5) {
        Err(Fallacy::FailedUserInteraction(m)) => {
            assert_eq!(m, "number too large to fit in target type")
        },
        _ => panic!("an overflowing number must be reported"),
    }
}
