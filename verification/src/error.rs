//! The error type shared by every component of the shell.

use vstd::prelude::*;

verus! {

use vstd::string::StringExecFns;

/// A use of invalid or faulty reason: one variant per user-visible failure.
#[derive(Debug)]
pub enum Fallacy {
    /// An unregistered command name was used.
    UnknownCommand(String),
    /// The command line itself is malformed (pipe placement).
    InvalidCommand(String),
    /// A filter argument was not a valid regular expression; carries the
    /// regex engine's diagnostic.
    FilterBuildFailed(String),
    /// The same paper field keyword was given twice.
    PaperDuplicateField(String),
    /// Required paper fields were not given.
    PaperMissingFields(String),
    /// A file path given for a paper does not exist.
    PathDoesNotExist(String),
    /// A path contains invalid UTF-8.
    PathInvalidUTF8(String),
    /// The user's home directory could not be found.
    Homeless,
    /// The `exit` command was run.
    ExitReason,
    /// `man` was not given exactly one argument.
    ManInvalidArgument,
    /// `man` was asked about an unknown subject.
    ManUnknownSubject(String),
    /// `curl` was not given exactly one source argument.
    CurlNoSource,
    /// `curl` was given a source it does not recognize.
    CurlUnknownSource(String),
    /// `set` was run without a paper list piped into it.
    SetNoPapers,
    /// The configuration file failed validation.
    ConfigAuditError(String),
    /// The user declined or gave an unusable interactive answer.
    FailedUserInteraction(String),
}

/// The mathematical value of a `Fallacy`: the same variants over character
/// sequences.
pub ghost enum FallacyView {
    UnknownCommand(Seq<char>),
    InvalidCommand(Seq<char>),
    FilterBuildFailed(Seq<char>),
    PaperDuplicateField(Seq<char>),
    PaperMissingFields(Seq<char>),
    PathDoesNotExist(Seq<char>),
    PathInvalidUTF8(Seq<char>),
    Homeless,
    ExitReason,
    ManInvalidArgument,
    ManUnknownSubject(Seq<char>),
    CurlNoSource,
    CurlUnknownSource(Seq<char>),
    SetNoPapers,
    ConfigAuditError(Seq<char>),
    FailedUserInteraction(Seq<char>),
}

impl View for Fallacy {
    type V = FallacyView;

    open spec fn view(&self) -> FallacyView {
        match self {
            Fallacy::UnknownCommand(s) => FallacyView::UnknownCommand(s@),
            Fallacy::InvalidCommand(s) => FallacyView::InvalidCommand(s@),
            Fallacy::FilterBuildFailed(s) => FallacyView::FilterBuildFailed(s@),
            Fallacy::PaperDuplicateField(s) => FallacyView::PaperDuplicateField(s@),
            Fallacy::PaperMissingFields(s) => FallacyView::PaperMissingFields(s@),
            Fallacy::PathDoesNotExist(s) => FallacyView::PathDoesNotExist(s@),
            Fallacy::PathInvalidUTF8(s) => FallacyView::PathInvalidUTF8(s@),
            Fallacy::Homeless => FallacyView::Homeless,
            Fallacy::ExitReason => FallacyView::ExitReason,
            Fallacy::ManInvalidArgument => FallacyView::ManInvalidArgument,
            Fallacy::ManUnknownSubject(s) => FallacyView::ManUnknownSubject(s@),
            Fallacy::CurlNoSource => FallacyView::CurlNoSource,
            Fallacy::CurlUnknownSource(s) => FallacyView::CurlUnknownSource(s@),
            Fallacy::SetNoPapers => FallacyView::SetNoPapers,
            Fallacy::ConfigAuditError(s) => FallacyView::ConfigAuditError(s@),
            Fallacy::FailedUserInteraction(s) => FallacyView::FailedUserInteraction(s@),
        }
    }
}

/// The text that `message` renders for each error value.
pub open spec fn message_of(e: FallacyView) -> Seq<char> {
    match e {
        FallacyView::UnknownCommand(s) => "Unknown command: '"@ + s + "'"@,
        FallacyView::InvalidCommand(s) => "Invalid command: "@ + s,
        FallacyView::FilterBuildFailed(s) => "Failed to build filter from regex:\n"@ + s,
        FallacyView::PaperDuplicateField(s) => "Duplicate paper field keyword specified: '"@ + s
            + "'"@,
        FallacyView::PaperMissingFields(s) => "Required paper fields not given: "@ + s,
        FallacyView::PathDoesNotExist(s) => "Specified file path does not exist: '"@ + s + "'"@,
        FallacyView::PathInvalidUTF8(s) => "Invalid UTF-8 character in path: '"@ + s + "'"@,
        FallacyView::Homeless => "Failed to find home directory for user."@,
        FallacyView::ExitReason => "Exit reason"@,
        FallacyView::ManInvalidArgument => "`man` accepts exactly one argument."@,
        FallacyView::ManUnknownSubject(s) => "Unknown subject: '"@ + s + "'"@,
        FallacyView::CurlNoSource => "`curl` accepts exactly one argument as source."@,
        FallacyView::CurlUnknownSource(s) => "Unknown source: '"@ + s + "'"@,
        FallacyView::SetNoPapers => "No papers given through pipe."@,
        FallacyView::ConfigAuditError(s) => "Failed to read config: '"@ + s + "'"@,
        FallacyView::FailedUserInteraction(s) => s,
    }
}

impl Fallacy {
    /// Render the error as the user-visible message.
    pub fn message(&self) -> (r: String)
        ensures
            r@ == message_of(self@),
    {
        match self {
            Fallacy::UnknownCommand(s) => wrap_quoted("Unknown command: '", s),
            Fallacy::InvalidCommand(s) => prefixed("Invalid command: ", s),
            Fallacy::FilterBuildFailed(s) => prefixed("Failed to build filter from regex:\n", s),
            Fallacy::PaperDuplicateField(s) => wrap_quoted(
                "Duplicate paper field keyword specified: '",
                s,
            ),
            Fallacy::PaperMissingFields(s) => prefixed("Required paper fields not given: ", s),
            Fallacy::PathDoesNotExist(s) => wrap_quoted(
                "Specified file path does not exist: '",
                s,
            ),
            Fallacy::PathInvalidUTF8(s) => wrap_quoted("Invalid UTF-8 character in path: '", s),
            Fallacy::Homeless => String::from_str("Failed to find home directory for user."),
            Fallacy::ExitReason => String::from_str("Exit reason"),
            Fallacy::ManInvalidArgument => String::from_str(
                "`man` accepts exactly one argument.",
            ),
            Fallacy::ManUnknownSubject(s) => wrap_quoted("Unknown subject: '", s),
            Fallacy::CurlNoSource => String::from_str(
                "`curl` accepts exactly one argument as source.",
            ),
            Fallacy::CurlUnknownSource(s) => wrap_quoted("Unknown source: '", s),
            Fallacy::SetNoPapers => String::from_str("No papers given through pipe."),
            Fallacy::ConfigAuditError(s) => wrap_quoted("Failed to read config: '", s),
            Fallacy::FailedUserInteraction(s) => s.clone(),
        }
    }
}

/// `prefix` followed by `body`.
fn prefixed(prefix: &str, body: &String) -> (r: String)
    ensures
        r@ == prefix@ + body@,
{
    let mut r = String::from_str(prefix);
    r.append(body.as_str());
    r
}

/// `prefix` followed by `body` followed by a closing single quote.
fn wrap_quoted(prefix: &str, body: &String) -> (r: String)
    ensures
        r@ == prefix@ + body@ + "'"@,
{
    let mut r = String::from_str(prefix);
    r.append(body.as_str());
    r.append("'");
    r
}

} // verus!
