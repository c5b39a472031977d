//! The shell's configuration: where state lives, how filters compile, and
//! how output is rendered. Loading the file from disk is the surrounding
//! program's business; validating and normalizing the contents happens here.

use vstd::prelude::*;

verus! {

use crate::error::Fallacy;
use crate::strutil::{str_eq, views_of};
use crate::utils::{expand_tilde_str, expanded_some, home_dir_string, starts_tilde};
use vstd::string::StringExecFns;

/// The whole configuration.
pub struct Config {
    pub storage: StorageConfig,
    pub filter: FilterConfig,
    pub output: OutputConfig,
}

/// Where the paper metadata, command history, files and notes live.
pub struct StorageConfig {
    pub paper_metadata: String,
    pub command_history: String,
    pub max_history_size: usize,
    pub file_dir: String,
    pub note_dir: String,
}

/// How filter patterns compile.
pub struct FilterConfig {
    pub case_insensitive_regex: bool,
}

/// Which table columns are shown and which programs open papers and notes.
pub struct OutputConfig {
    pub table_columns: Vec<String>,
    pub viewer_command: Vec<String>,
    pub viewer_batch: bool,
    pub editor_command: Vec<String>,
    pub editor_batch: bool,
    pub browser_command: Vec<String>,
}

/// The lowercase rendering of a string. Named for str::to_lowercase, whose
/// result depends on the characters alone.
pub uninterp spec fn lower_of(s: Seq<char>) -> Seq<char>;

/// Relies on str::to_lowercase: Unicode lowercasing, a function of the
/// characters alone.
#[verifier::external_body]
fn lowercase(s: &String) -> (r: String)
    ensures
        r@ == lower_of(s@),
{
    s.to_lowercase()
}

/// Whether some element of `v` begins with a tilde.
pub open spec fn some_starts_tilde(v: Seq<String>) -> bool {
    exists|k: int| 0 <= k < v.len() && starts_tilde((#[trigger] v[k])@)
}

/// The column names a table may show.
pub open spec fn allowed_column(c: Seq<char>) -> bool {
    ||| c == "title"@
    ||| c == "authors"@
    ||| c == "first author"@
    ||| c == "venue"@
    ||| c == "year"@
    ||| c == "state"@
}

/// Expand a leading tilde in every element of `v`.
fn expand_all(v: &mut Vec<String>) -> (r: Result<(), Fallacy>)
    ensures
        r is Ok ==> final(v)@.len() == old(v)@.len() && forall|k: int|
            0 <= k < old(v)@.len() ==> expanded_some(old(v)@[k]@, #[trigger] final(v)@[k]@),
        r matches Err(e) ==> e@ is Homeless && exists|k: int|
            0 <= k < old(v)@.len() && starts_tilde((#[trigger] old(v)@[k])@),
        (forall|k: int| 0 <= k < old(v)@.len() ==> !starts_tilde((#[trigger] old(v)@[k])@))
            ==> r is Ok,
{
    let mut i: usize = 0;
    while i < v.len()
        invariant
            i <= v@.len(),
            v@.len() == old(v)@.len(),
            forall|k: int| i <= k < v@.len() ==> #[trigger] v@[k]@ == old(v)@[k]@,
            forall|k: int| 0 <= k < i ==> expanded_some(old(v)@[k]@, #[trigger] v@[k]@),
        decreases v@.len() - i,
    {
        match expand_tilde_str(&v[i]) {
            Ok(p) => {
                v.set(i, p);
            },
            Err(e) => {
                return Err(e);
            },
        }
        i = i + 1;
    }
    Ok(())
}

impl FilterConfig {
    /// Nothing to check for the filter section.
    pub fn validate(&mut self) -> (r: Result<(), Fallacy>)
        ensures
            r is Ok,
            final(self).case_insensitive_regex == old(self).case_insensitive_regex,
    {
        Ok(())
    }
}

impl StorageConfig {
    /// Expand tildes in every stored path. Creating the directories is the
    /// surrounding program's business.
    pub fn validate(&mut self) -> (r: Result<(), Fallacy>)
        ensures
            r is Ok ==> expanded_some(old(self).paper_metadata@, final(self).paper_metadata@)
                && expanded_some(old(self).command_history@, final(self).command_history@)
                && expanded_some(old(self).file_dir@, final(self).file_dir@) && expanded_some(
                old(self).note_dir@,
                final(self).note_dir@,
            ) && final(self).max_history_size == old(self).max_history_size,
            r matches Err(e) ==> e@ is Homeless && (starts_tilde(old(self).paper_metadata@)
                || starts_tilde(old(self).command_history@) || starts_tilde(old(self).file_dir@)
                || starts_tilde(old(self).note_dir@)),
            (!starts_tilde(old(self).paper_metadata@) && !starts_tilde(
                old(self).command_history@,
            ) && !starts_tilde(old(self).file_dir@) && !starts_tilde(old(self).note_dir@))
                ==> r is Ok,
    {
        match expand_tilde_str(&self.paper_metadata) {
            Ok(p) => {
                self.paper_metadata = p;
            },
            Err(e) => {
                return Err(e);
            },
        }
        match expand_tilde_str(&self.command_history) {
            Ok(p) => {
                self.command_history = p;
            },
            Err(e) => {
                return Err(e);
            },
        }
        match expand_tilde_str(&self.file_dir) {
            Ok(p) => {
                self.file_dir = p;
            },
            Err(e) => {
                return Err(e);
            },
        }
        match expand_tilde_str(&self.note_dir) {
            Ok(p) => {
                self.note_dir = p;
            },
            Err(e) => {
                return Err(e);
            },
        }
        Ok(())
    }
}

impl OutputConfig {
    /// Lowercase the configured table columns and refuse unknown ones, then
    /// check that the viewer, editor and browser commands are non-empty and
    /// expand tildes in them. Succeeds whenever the columns are acceptable,
    /// the command lists are non-empty, and no command element needs the
    /// home directory; fails exactly on bad columns, empty command lists, or
    /// a needed home directory that the environment does not name.
    pub fn validate(&mut self) -> (r: Result<(), Fallacy>)
        ensures
            r is Ok ==> ({
                let oldc = old(self).table_columns@;
                let newc = final(self).table_columns@;
                &&& newc.len() == oldc.len()
                &&& forall|k: int|
                    0 <= k < oldc.len() ==> ((#[trigger] newc[k])@ == lower_of(oldc[k]@)
                        && allowed_column(newc[k]@))
                &&& final(self).viewer_command@.len() == old(self).viewer_command@.len() > 0
                &&& final(self).editor_command@.len() == old(self).editor_command@.len() > 0
                &&& final(self).browser_command@.len() == old(self).browser_command@.len() > 0
                &&& forall|k: int|
                    0 <= k < old(self).viewer_command@.len() ==> expanded_some(
                        old(self).viewer_command@[k]@,
                        (#[trigger] final(self).viewer_command@[k])@,
                    )
                &&& forall|k: int|
                    0 <= k < old(self).editor_command@.len() ==> expanded_some(
                        old(self).editor_command@[k]@,
                        (#[trigger] final(self).editor_command@[k])@,
                    )
                &&& forall|k: int|
                    0 <= k < old(self).browser_command@.len() ==> expanded_some(
                        old(self).browser_command@[k]@,
                        (#[trigger] final(self).browser_command@[k])@,
                    )
                &&& final(self).viewer_batch == old(self).viewer_batch
                &&& final(self).editor_batch == old(self).editor_batch
            }),
            r matches Err(e) ==> ({
                ||| (e@ is ConfigAuditError && ((exists|k: int|
                    0 <= k < old(self).table_columns@.len() && !allowed_column(
                        lower_of((#[trigger] old(self).table_columns@[k])@),
                    )) || old(self).viewer_command@.len() == 0 || old(self).editor_command@.len()
                    == 0 || old(self).browser_command@.len() == 0))
                ||| (e@ is Homeless && (some_starts_tilde(old(self).viewer_command@)
                    || some_starts_tilde(old(self).editor_command@) || some_starts_tilde(
                    old(self).browser_command@,
                )))
            }),
            (exists|k: int|
                0 <= k < old(self).table_columns@.len() && !allowed_column(
                    lower_of((#[trigger] old(self).table_columns@[k])@),
                )) ==> r is Err,
            (old(self).viewer_command@.len() == 0 || old(self).editor_command@.len() == 0
                || old(self).browser_command@.len() == 0) ==> r is Err,
            ({
                &&& forall|k: int|
                    0 <= k < old(self).table_columns@.len() ==> allowed_column(
                        lower_of((#[trigger] old(self).table_columns@[k])@),
                    )
                &&& old(self).viewer_command@.len() > 0
                &&& old(self).editor_command@.len() > 0
                &&& old(self).browser_command@.len() > 0
                &&& !some_starts_tilde(old(self).viewer_command@)
                &&& !some_starts_tilde(old(self).editor_command@)
                &&& !some_starts_tilde(old(self).browser_command@)
            }) ==> r is Ok,
    {
        // Convert every column name to lowercase.
        let mut i: usize = 0;
        while i < self.table_columns.len()
            invariant
                i <= self.table_columns@.len(),
                self.table_columns@.len() == old(self).table_columns@.len(),
                forall|k: int|
                    i <= k < self.table_columns@.len() ==> #[trigger] self.table_columns@[k]@
                        == old(self).table_columns@[k]@,
                forall|k: int|
                    0 <= k < i ==> #[trigger] self.table_columns@[k]@ == lower_of(
                        old(self).table_columns@[k]@,
                    ),
                self.viewer_command@ == old(self).viewer_command@,
                self.editor_command@ == old(self).editor_command@,
                self.browser_command@ == old(self).browser_command@,
                self.viewer_batch == old(self).viewer_batch,
                self.editor_batch == old(self).editor_batch,
            decreases self.table_columns@.len() - i,
        {
            let low = lowercase(&self.table_columns[i]);
            self.table_columns.set(i, low);
            i = i + 1;
        }

        // Check the column names.
        let mut i: usize = 0;
        while i < self.table_columns.len()
            invariant
                i <= self.table_columns@.len(),
                self.table_columns@.len() == old(self).table_columns@.len(),
                forall|k: int|
                    0 <= k < self.table_columns@.len() ==> #[trigger] self.table_columns@[k]@
                        == lower_of(old(self).table_columns@[k]@),
                forall|k: int|
                    0 <= k < i ==> allowed_column(#[trigger] self.table_columns@[k]@),
                self.viewer_command@ == old(self).viewer_command@,
                self.editor_command@ == old(self).editor_command@,
                self.browser_command@ == old(self).browser_command@,
                self.viewer_batch == old(self).viewer_batch,
                self.editor_batch == old(self).editor_batch,
            decreases self.table_columns@.len() - i,
        {
            let col = &self.table_columns[i];
            let ok = str_eq(col.as_str(), "title") || str_eq(col.as_str(), "authors") || str_eq(
                col.as_str(),
                "first author",
            ) || str_eq(col.as_str(), "venue") || str_eq(col.as_str(), "year") || str_eq(
                col.as_str(),
                "state",
            );
            if !ok {
                proof {
                    assert(!allowed_column(lower_of(old(self).table_columns@[i as int]@)));
                }
                let mut msg = String::from_str("Table column name ");
                msg.append(col.as_str());
                msg.append(" is not supported.");
                return Err(Fallacy::ConfigAuditError(msg));
            }
            i = i + 1;
        }

        // Check the viewer command and expand tildes.
        if self.viewer_command.len() == 0 {
            return Err(
                Fallacy::ConfigAuditError(String::from_str("Viewer command cannot be empty.")),
            );
        }
        match expand_all(&mut self.viewer_command) {
            Ok(()) => (),
            Err(e) => {
                return Err(e);
            },
        }

        // Check the editor command and expand tildes.
        if self.editor_command.len() == 0 {
            return Err(
                Fallacy::ConfigAuditError(String::from_str("Editor command cannot be empty.")),
            );
        }
        match expand_all(&mut self.editor_command) {
            Ok(()) => (),
            Err(e) => {
                return Err(e);
            },
        }

        // Check the browser command and expand tildes.
        if self.browser_command.len() == 0 {
            return Err(
                Fallacy::ConfigAuditError(String::from_str("Browser command cannot be empty.")),
            );
        }
        match expand_all(&mut self.browser_command) {
            Ok(()) => (),
            Err(e) => {
                return Err(e);
            },
        }

        proof {
            assert forall|k: int|
                0 <= k < old(self).table_columns@.len() implies allowed_column(
                lower_of((#[trigger] old(self).table_columns@[k])@),
            ) by {
                assert(self.table_columns@[k]@ == lower_of(old(self).table_columns@[k]@));
                assert(allowed_column(self.table_columns@[k]@));
            }
        }
        Ok(())
    }
}

impl Config {
    /// Validate every section in order: storage, filter, output. The first
    /// failing section's error comes out and later sections are left alone;
    /// on success every path and column name has been normalized in place.
    pub fn validate(&mut self) -> (r: Result<(), Fallacy>)
        ensures
            r is Ok ==> ({
                let olds = old(self).storage;
                let news = final(self).storage;
                let oldo = old(self).output;
                let newo = final(self).output;
                &&& expanded_some(olds.paper_metadata@, news.paper_metadata@)
                &&& expanded_some(olds.command_history@, news.command_history@)
                &&& expanded_some(olds.file_dir@, news.file_dir@)
                &&& expanded_some(olds.note_dir@, news.note_dir@)
                &&& news.max_history_size == olds.max_history_size
                &&& final(self).filter.case_insensitive_regex == old(
                    self,
                ).filter.case_insensitive_regex
                &&& newo.table_columns@.len() == oldo.table_columns@.len()
                &&& forall|k: int|
                    0 <= k < oldo.table_columns@.len() ==> (((#[trigger] newo.table_columns@[k])@
                        == lower_of(oldo.table_columns@[k]@)) && allowed_column(
                        newo.table_columns@[k]@,
                    ))
                &&& newo.viewer_command@.len() == oldo.viewer_command@.len() > 0
                &&& newo.editor_command@.len() == oldo.editor_command@.len() > 0
                &&& newo.browser_command@.len() == oldo.browser_command@.len() > 0
                &&& forall|k: int|
                    0 <= k < oldo.viewer_command@.len() ==> expanded_some(
                        oldo.viewer_command@[k]@,
                        (#[trigger] newo.viewer_command@[k])@,
                    )
                &&& forall|k: int|
                    0 <= k < oldo.editor_command@.len() ==> expanded_some(
                        oldo.editor_command@[k]@,
                        (#[trigger] newo.editor_command@[k])@,
                    )
                &&& forall|k: int|
                    0 <= k < oldo.browser_command@.len() ==> expanded_some(
                        oldo.browser_command@[k]@,
                        (#[trigger] newo.browser_command@[k])@,
                    )
                &&& newo.viewer_batch == oldo.viewer_batch
                &&& newo.editor_batch == oldo.editor_batch
            }),
            r matches Err(e) ==> e@ is Homeless || e@ is ConfigAuditError,
            (exists|k: int|
                0 <= k < old(self).output.table_columns@.len() && !allowed_column(
                    lower_of((#[trigger] old(self).output.table_columns@[k])@),
                )) ==> r is Err,
            (old(self).output.viewer_command@.len() == 0 || old(
                self,
            ).output.editor_command@.len() == 0 || old(self).output.browser_command@.len() == 0)
                ==> r is Err,
            ({
                &&& !starts_tilde(old(self).storage.paper_metadata@)
                &&& !starts_tilde(old(self).storage.command_history@)
                &&& !starts_tilde(old(self).storage.file_dir@)
                &&& !starts_tilde(old(self).storage.note_dir@)
                &&& forall|k: int|
                    0 <= k < old(self).output.table_columns@.len() ==> allowed_column(
                        lower_of((#[trigger] old(self).output.table_columns@[k])@),
                    )
                &&& old(self).output.viewer_command@.len() > 0
                &&& old(self).output.editor_command@.len() > 0
                &&& old(self).output.browser_command@.len() > 0
                &&& !some_starts_tilde(old(self).output.viewer_command@)
                &&& !some_starts_tilde(old(self).output.editor_command@)
                &&& !some_starts_tilde(old(self).output.browser_command@)
            }) ==> r is Ok,
    {
        match self.storage.validate() {
            Ok(()) => (),
            Err(e) => {
                return Err(e);
            },
        }
        match self.filter.validate() {
            Ok(()) => (),
            Err(e) => {
                return Err(e);
            },
        }
        match self.output.validate() {
            Ok(()) => (),
            Err(e) => {
                return Err(e);
            },
        }
        Ok(())
    }
}

/// The directory state files live under, given the home directory the
/// environment names: a subdirectory of the home directory, or the current
/// directory when there is none.
pub open spec fn storage_base(h: Option<Seq<char>>) -> Seq<char> {
    match h {
        Some(x) => x + "/.local/share/reason"@,
        None => "."@,
    }
}

impl Default for StorageConfig {
    /// State under the user's data directory, with a history capped at 1000
    /// lines.
    fn default() -> (r: Self)
        ensures
            exists|h: Option<Seq<char>>|
                {
                    let base = #[trigger] storage_base(h);
                    &&& r.paper_metadata@ == base + "/metadata.yaml"@
                    &&& r.command_history@ == base + "/history.txt"@
                    &&& r.file_dir@ == base + "/files"@
                    &&& r.note_dir@ == base + "/notes"@
                },
            r.max_history_size == 1000,
    {
        let home = home_dir_string();
        let ghost hv: Option<Seq<char>> = match home {
            Some(ref h) => Some(h@),
            None => None,
        };
        let data_dir: String = match home {
            Some(mut h) => {
                h.append("/.local/share/reason");
                h
            },
            None => String::from_str("."),
        };
        proof {
            assert(data_dir@ == storage_base(hv));
        }
        let mut paper_metadata = data_dir.clone();
        paper_metadata.append("/metadata.yaml");
        let mut command_history = data_dir.clone();
        command_history.append("/history.txt");
        let mut file_dir = data_dir.clone();
        file_dir.append("/files");
        let mut note_dir = data_dir.clone();
        note_dir.append("/notes");
        StorageConfig {
            paper_metadata,
            command_history,
            max_history_size: 1000,
            file_dir,
            note_dir,
        }
    }
}

impl Default for FilterConfig {
    /// Case-sensitive matching unless asked otherwise.
    fn default() -> (r: Self)
        ensures
            r.case_insensitive_regex == false,
    {
        FilterConfig { case_insensitive_regex: false }
    }
}

impl Default for OutputConfig {
    /// A four-column table and common viewer, editor and browser commands.
    fn default() -> (r: Self)
        ensures
            views_of(r.table_columns@) == seq!["title"@, "first author"@, "venue"@, "year"@],
            views_of(r.viewer_command@) == seq!["zathura"@],
            r.viewer_batch == false,
            views_of(r.editor_command@) == seq!["vim"@, "-p"@],
            r.editor_batch == true,
            views_of(r.browser_command@) == seq!["google-chrome-stable"@],
            r.table_columns@.len() == 4,
            r.viewer_command@.len() == 1,
            r.editor_command@.len() == 2,
            r.browser_command@.len() == 1,
    {
        let mut table_columns: Vec<String> = Vec::new();
        table_columns.push(String::from_str("title"));
        table_columns.push(String::from_str("first author"));
        table_columns.push(String::from_str("venue"));
        table_columns.push(String::from_str("year"));
        let mut viewer_command: Vec<String> = Vec::new();
        viewer_command.push(String::from_str("zathura"));
        let mut editor_command: Vec<String> = Vec::new();
        editor_command.push(String::from_str("vim"));
        editor_command.push(String::from_str("-p"));
        let mut browser_command: Vec<String> = Vec::new();
        browser_command.push(String::from_str("google-chrome-stable"));
        proof {
            assert(views_of(table_columns@) =~= seq!["title"@, "first author"@, "venue"@, "year"@]);
            assert(views_of(viewer_command@) =~= seq!["zathura"@]);
            assert(views_of(editor_command@) =~= seq!["vim"@, "-p"@]);
            assert(views_of(browser_command@) =~= seq!["google-chrome-stable"@]);
        }
        OutputConfig {
            table_columns,
            viewer_command,
            viewer_batch: false,
            editor_command,
            editor_batch: true,
            browser_command,
        }
    }
}

impl Default for Config {
    /// Every section at its default.
    fn default() -> (r: Self)
        ensures
            r.filter.case_insensitive_regex == false,
            r.output.viewer_command@.len() > 0,
            r.output.editor_command@.len() > 0,
            r.output.browser_command@.len() > 0,
    {
        Config {
            storage: StorageConfig::default(),
            filter: FilterConfig::default(),
            output: OutputConfig::default(),
        }
    }
}

} // verus!
