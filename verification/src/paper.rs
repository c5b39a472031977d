//! The paper record: one bibliography entry, with the fields the filter
//! language can query, and the selection type that pipes hand from one
//! command to the next.

use vstd::prelude::*;

verus! {

use crate::error::{Fallacy, FallacyView};
use crate::strutil::{
    join_sep, join_strings, split_and_trim, split_trimmed, str_eq, views_of,
};
use vstd::string::StringExecFns;

/// An ordered selection of indices into the paper store.
pub struct PaperList(pub Vec<usize>);

/// A single bibliography record.
#[derive(Clone)]
pub struct Paper {
    /// The title of the paper, in full. An argument without a keyword is
    /// considered a title pattern.
    pub title: String,
    /// The nickname of the paper, for instance the name of the system.
    /// Keyword: `as`.
    pub nickname: Option<String>,
    /// The list of authors, in order, never empty. Keywords: `by`, `by1`.
    pub authors: Vec<String>,
    /// Where the paper was published, excluding year. Keyword: `at` (or `on`).
    pub venue: String,
    /// The year when the paper was published. Keyword: `in`.
    pub year: String,
    /// The path to the PDF file of the paper, if one was given. Keyword: `@`.
    pub filepath: Option<String>,
    /// Labels assigned to this paper, with set behavior on edits.
    /// Keywords: `is`, `not`.
    pub labels: Vec<String>,
    /// The path to the markdown note of the paper, if one exists.
    pub notepath: Option<String>,
}

/// The mathematical value of a `Paper`: every field as character sequences.
#[verifier::ext_equal]
pub ghost struct PaperView {
    pub title: Seq<char>,
    pub nickname: Option<Seq<char>>,
    pub authors: Seq<Seq<char>>,
    pub venue: Seq<char>,
    pub year: Seq<char>,
    pub filepath: Option<Seq<char>>,
    pub labels: Seq<Seq<char>>,
    pub notepath: Option<Seq<char>>,
}

impl View for Paper {
    type V = PaperView;

    open spec fn view(&self) -> PaperView {
        PaperView {
            title: self.title@,
            nickname: match self.nickname {
                Some(s) => Some(s@),
                None => None,
            },
            authors: views_of(self.authors@),
            venue: self.venue@,
            year: self.year@,
            filepath: match self.filepath {
                Some(s) => Some(s@),
                None => None,
            },
            labels: views_of(self.labels@),
            notepath: match self.notepath {
                Some(s) => Some(s@),
                None => None,
            },
        }
    }
}

impl Paper {
    /// A paper is well formed when it has at least one author.
    pub open spec fn wf(&self) -> bool {
        self@.authors.len() > 0
    }
}


/// The view of an optional string.
pub open spec fn opt_view(o: Option<String>) -> Option<Seq<char>> {
    match o {
        Some(s) => Some(s@),
        None => None,
    }
}

/// The view of a keyword slot: absent, present without a value, or present
/// with a value.
pub open spec fn slot_view(o: Option<Option<String>>) -> Option<Option<Seq<char>>> {
    match o {
        Some(Some(s)) => Some(Some(s@)),
        Some(None) => Some(None),
        None => None,
    }
}

/// The keyword arguments gathered while scanning a `touch` command line.
#[verifier::ext_equal]
pub ghost struct RawPaperArgs {
    pub title: Option<Seq<char>>,
    pub nickname: Option<Option<Seq<char>>>,
    pub authors: Option<Option<Seq<char>>>,
    pub venue: Option<Option<Seq<char>>>,
    pub year: Option<Option<Seq<char>>>,
    pub filepath: Option<Option<Seq<char>>>,
    pub labels: Option<Option<Seq<char>>>,
}

/// No argument gathered yet.
pub open spec fn raw_paper_empty() -> RawPaperArgs {
    RawPaperArgs {
        title: None,
        nickname: None,
        authors: None,
        venue: None,
        year: None,
        filepath: None,
        labels: None,
    }
}

/// The keywords a new paper's fields are given under.
#[derive(Clone, Copy, PartialEq, Eq, Structural)]
pub enum PaperKw {
    Nickname,
    Authors,
    Venue,
    Year,
    Filepath,
    Labels,
}

/// Whether `a` is one of the new-paper keywords.
pub open spec fn is_paper_kw(a: Seq<char>) -> bool {
    ||| a == "as"@
    ||| a == "by"@
    ||| a == "at"@
    ||| a == "in"@
    ||| a == "@"@
    ||| a == "is"@
}

/// The slot a new-paper keyword names.
pub open spec fn paper_kw_slot(a: Seq<char>) -> PaperKw {
    if a == "as"@ {
        PaperKw::Nickname
    } else if a == "by"@ {
        PaperKw::Authors
    } else if a == "at"@ {
        PaperKw::Venue
    } else if a == "in"@ {
        PaperKw::Year
    } else if a == "@"@ {
        PaperKw::Filepath
    } else {
        PaperKw::Labels
    }
}

/// Whether the slot `kw` already holds something.
pub open spec fn paper_slot_taken(acc: RawPaperArgs, kw: PaperKw) -> bool {
    match kw {
        PaperKw::Nickname => acc.nickname is Some,
        PaperKw::Authors => acc.authors is Some,
        PaperKw::Venue => acc.venue is Some,
        PaperKw::Year => acc.year is Some,
        PaperKw::Filepath => acc.filepath is Some,
        PaperKw::Labels => acc.labels is Some,
    }
}

/// `acc` with the slot `kw` set to `v`.
pub open spec fn paper_set_slot(
    acc: RawPaperArgs,
    kw: PaperKw,
    v: Option<Seq<char>>,
) -> RawPaperArgs {
    match kw {
        PaperKw::Nickname => RawPaperArgs { nickname: Some(v), ..acc },
        PaperKw::Authors => RawPaperArgs { authors: Some(v), ..acc },
        PaperKw::Venue => RawPaperArgs { venue: Some(v), ..acc },
        PaperKw::Year => RawPaperArgs { year: Some(v), ..acc },
        PaperKw::Filepath => RawPaperArgs { filepath: Some(v), ..acc },
        PaperKw::Labels => RawPaperArgs { labels: Some(v), ..acc },
    }
}

/// Scan new-paper arguments left to right: a keyword claims its slot and
/// consumes the next argument as the slot's value (or marks the slot
/// valueless at the end of the line); any other argument is the title. A
/// keyword or the title given twice is a duplicate-field error.
pub open spec fn gather_paper(args: Seq<Seq<char>>, acc: RawPaperArgs) -> Result<
    RawPaperArgs,
    FallacyView,
>
    decreases args.len(),
{
    if args.len() == 0 {
        Ok(acc)
    } else if is_paper_kw(args[0]) {
        let kw = paper_kw_slot(args[0]);
        if paper_slot_taken(acc, kw) {
            Err(FallacyView::PaperDuplicateField(args[0]))
        } else if args.len() >= 2 {
            gather_paper(args.skip(2), paper_set_slot(acc, kw, Some(args[1])))
        } else {
            gather_paper(args.skip(1), paper_set_slot(acc, kw, None))
        }
    } else {
        if acc.title is Some {
            Err(FallacyView::PaperDuplicateField("title"@))
        } else {
            gather_paper(args.skip(1), RawPaperArgs { title: Some(args[0]), ..acc })
        }
    }
}

/// Whether the slot holds an actual value.
pub open spec fn slot_has_value(o: Option<Option<Seq<char>>>) -> bool {
    o matches Some(v) && v is Some
}

/// The names of the required fields that were not given, in reporting order.
pub open spec fn missing_fields_list(acc: RawPaperArgs) -> Seq<Seq<char>> {
    (if !slot_has_value(acc.authors) {
        seq!["authors(by)"@]
    } else {
        Seq::empty()
    }) + (if !slot_has_value(acc.venue) {
        seq!["venue(at)"@]
    } else {
        Seq::empty()
    }) + (if !slot_has_value(acc.year) {
        seq!["year(in)"@]
    } else {
        Seq::empty()
    }) + (if acc.title is None {
        seq!["title(_)"@]
    } else {
        Seq::empty()
    })
}

/// Labels with set behavior: adding a label a paper already has changes
/// nothing.
pub open spec fn insert_label(ls: Seq<Seq<char>>, x: Seq<char>) -> Seq<Seq<char>> {
    if ls.contains(x) {
        ls
    } else {
        ls.push(x)
    }
}

/// The parts in order, first occurrences only.
pub open spec fn dedup_keep_first(parts: Seq<Seq<char>>) -> Seq<Seq<char>>
    decreases parts.len(),
{
    if parts.len() == 0 {
        Seq::empty()
    } else {
        insert_label(dedup_keep_first(parts.drop_last()), parts.last())
    }
}

/// The arguments of a command line, without the command itself.
pub open spec fn cmd_rest(v: Seq<Seq<char>>) -> Seq<Seq<char>> {
    if v.len() >= 1 {
        v.skip(1)
    } else {
        v
    }
}

/// What `Paper::from_args` returns: the gathered arguments, checked for the
/// required fields, with the author list and the labels split on commas and
/// trimmed, and the labels with duplicates dropped.
pub open spec fn spec_paper_from_args(args: Seq<Seq<char>>) -> Result<PaperView, FallacyView> {
    match gather_paper(cmd_rest(args), raw_paper_empty()) {
        Err(e) => Err(e),
        Ok(acc) => {
            if missing_fields_list(acc).len() > 0 {
                Err(FallacyView::PaperMissingFields(join_sep(missing_fields_list(acc), ", "@)))
            } else {
                Ok(
                    PaperView {
                        title: match acc.title {
                            Some(t) => t,
                            None => Seq::empty(),
                        },
                        nickname: match acc.nickname {
                            Some(Some(s)) => Some(s),
                            _ => None,
                        },
                        authors: split_trimmed(
                            match acc.authors {
                                Some(Some(s)) => s,
                                _ => Seq::empty(),
                            },
                        ),
                        venue: match acc.venue {
                            Some(Some(s)) => s,
                            _ => Seq::empty(),
                        },
                        year: match acc.year {
                            Some(Some(s)) => s,
                            _ => Seq::empty(),
                        },
                        filepath: match acc.filepath {
                            Some(Some(s)) => Some(s),
                            _ => None,
                        },
                        labels: match acc.labels {
                            Some(Some(s)) => dedup_keep_first(split_trimmed(s)),
                            _ => Seq::empty(),
                        },
                        notepath: None,
                    },
                )
            }
        },
    }
}

/// Whether `x` is among the strings of `v`.
fn contains_string(v: &Vec<String>, x: &String) -> (r: bool)
    ensures
        r == views_of(v@).contains(x@),
{
    let mut i: usize = 0;
    while i < v.len()
        invariant
            i <= v@.len(),
            forall|k: int| 0 <= k < i ==> #[trigger] views_of(v@)[k] != x@,
        decreases v@.len() - i,
    {
        if str_eq(v[i].as_str(), x.as_str()) {
            proof {
                assert(views_of(v@)[i as int] == x@);
            }
            return true;
        }
        proof {
            assert(views_of(v@)[i as int] == v@[i as int]@);
        }
        i = i + 1;
    }
    proof {
        assert forall|k: int| !(0 <= k < views_of(v@).len() && views_of(v@)[k] == x@) by {}
    }
    false
}

/// Add `x` to the label list unless it is already there.
fn push_if_absent(ls: &mut Vec<String>, x: String)
    ensures
        views_of(final(ls)@) == insert_label(views_of(old(ls)@), x@),
{
    if !contains_string(ls, &x) {
        ls.push(x);
        proof {
            assert(views_of(ls@) =~= views_of(old(ls)@).push(x@));
        }
    }
}

/// Dedup the parts, keeping each first occurrence.
fn dedup_strings(parts: &Vec<String>) -> (r: Vec<String>)
    ensures
        views_of(r@) == dedup_keep_first(views_of(parts@)),
{
    let mut r: Vec<String> = Vec::new();
    let ghost pv = views_of(parts@);
    proof {
        assert(pv.take(0) =~= Seq::<Seq<char>>::empty());
        assert(views_of(r@) =~= Seq::<Seq<char>>::empty());
    }
    let mut i: usize = 0;
    while i < parts.len()
        invariant
            i <= parts@.len(),
            pv == views_of(parts@),
            views_of(r@) == dedup_keep_first(pv.take(i as int)),
        decreases parts@.len() - i,
    {
        push_if_absent(&mut r, parts[i].clone());
        i = i + 1;
        proof {
            assert(pv.take(i as int).drop_last() =~= pv.take(i - 1));
            assert(pv.take(i as int).last() == pv[i - 1]);
            assert(pv[i - 1] == parts@[i - 1]@);
        }
    }
    proof {
        assert(pv.take(parts@.len() as int) =~= pv);
    }
    r
}

impl Paper {
    /// Accepts arguments given to commands and builds an instance of
    /// `Paper`. The first argument is the command and is skipped; required
    /// fields missing or a field given twice are errors.
    pub fn from_args(args: Vec<String>) -> (r: Result<Self, Fallacy>)
        ensures
            match (r, spec_paper_from_args(views_of(args@))) {
                (Ok(p), Ok(pv)) => p@ == pv && p.wf(),
                (Err(e), Err(ev)) => e@ == ev,
                _ => false,
            },
    {
        let ghost v = views_of(args@);
        let ghost rest = cmd_rest(v);
        let mut title_v: Option<String> = None;
        let mut nickname_v: Option<Option<String>> = None;
        let mut authors_v: Option<Option<String>> = None;
        let mut venue_v: Option<Option<String>> = None;
        let mut year_v: Option<Option<String>> = None;
        let mut filepath_v: Option<Option<String>> = None;
        let mut labels_v: Option<Option<String>> = None;
        let n = args.len();
        if n > 0 {
            let mut i: usize = 1;
            proof {
                assert(v.skip(1) =~= rest);
            }
            while i < n
                invariant
                    1 <= i <= n,
                    n == args@.len(),
                    v == views_of(args@),
                    rest == cmd_rest(v),
                    gather_paper(rest, raw_paper_empty()) == gather_paper(
                        v.skip(i as int),
                        RawPaperArgs {
                            title: opt_view(title_v),
                            nickname: slot_view(nickname_v),
                            authors: slot_view(authors_v),
                            venue: slot_view(venue_v),
                            year: slot_view(year_v),
                            filepath: slot_view(filepath_v),
                            labels: slot_view(labels_v),
                        },
                    ),
                decreases n - i,
            {
                let ghost iold = i as int;
                let ghost acc0 = RawPaperArgs {
                    title: opt_view(title_v),
                    nickname: slot_view(nickname_v),
                    authors: slot_view(authors_v),
                    venue: slot_view(venue_v),
                    year: slot_view(year_v),
                    filepath: slot_view(filepath_v),
                    labels: slot_view(labels_v),
                };
                proof {
                    assert(v.skip(iold)[0] == v[iold]);
                    assert(v.skip(iold).len() == v.len() - iold);
                }
                let a = &args[i];
                let kw: Option<PaperKw> = if str_eq(a.as_str(), "as") {
                    Some(PaperKw::Nickname)
                } else if str_eq(a.as_str(), "by") {
                    Some(PaperKw::Authors)
                } else if str_eq(a.as_str(), "at") {
                    Some(PaperKw::Venue)
                } else if str_eq(a.as_str(), "in") {
                    Some(PaperKw::Year)
                } else if str_eq(a.as_str(), "@") {
                    Some(PaperKw::Filepath)
                } else if str_eq(a.as_str(), "is") {
                    Some(PaperKw::Labels)
                } else {
                    None
                };
                match kw {
                    Some(k) => {
                        proof {
                            assert(is_paper_kw(v[iold]));
                            assert(paper_kw_slot(v[iold]) == k);
                        }
                        let taken = match k {
                            PaperKw::Nickname => nickname_v.is_some(),
                            PaperKw::Authors => authors_v.is_some(),
                            PaperKw::Venue => venue_v.is_some(),
                            PaperKw::Year => year_v.is_some(),
                            PaperKw::Filepath => filepath_v.is_some(),
                            PaperKw::Labels => labels_v.is_some(),
                        };
                        if taken {
                            return Err(Fallacy::PaperDuplicateField(a.clone()));
                        }
                        let val: Option<String> = if i + 1 < n {
                            Some(args[i + 1].clone())
                        } else {
                            None
                        };
                        let ghost vv = opt_view(val);
                        match k {
                            PaperKw::Nickname => { nickname_v = Some(val); },
                            PaperKw::Authors => { authors_v = Some(val); },
                            PaperKw::Venue => { venue_v = Some(val); },
                            PaperKw::Year => { year_v = Some(val); },
                            PaperKw::Filepath => { filepath_v = Some(val); },
                            PaperKw::Labels => { labels_v = Some(val); },
                        }
                        if i + 1 < n {
                            i = i + 2;
                            proof {
                                assert(v.skip(iold)[1] == v[iold + 1]);
                                assert(v.skip(iold).skip(2) =~= v.skip(iold + 2));
                                let acc1 = RawPaperArgs {
                                    title: opt_view(title_v),
                                    nickname: slot_view(nickname_v),
                                    authors: slot_view(authors_v),
                                    venue: slot_view(venue_v),
                                    year: slot_view(year_v),
                                    filepath: slot_view(filepath_v),
                                    labels: slot_view(labels_v),
                                };
                                assert(acc1 =~= paper_set_slot(acc0, k, Some(v[iold + 1])));
                            }
                        } else {
                            i = i + 1;
                            proof {
                                assert(v.skip(iold).skip(1) =~= v.skip(iold + 1));
                                let acc1 = RawPaperArgs {
                                    title: opt_view(title_v),
                                    nickname: slot_view(nickname_v),
                                    authors: slot_view(authors_v),
                                    venue: slot_view(venue_v),
                                    year: slot_view(year_v),
                                    filepath: slot_view(filepath_v),
                                    labels: slot_view(labels_v),
                                };
                                assert(acc1 =~= paper_set_slot(acc0, k, None));
                            }
                        }
                    },
                    None => {
                        proof {
                            assert(!is_paper_kw(v[iold]));
                        }
                        if title_v.is_some() {
                            proof {
                                reveal_strlit("title");
                            }
                            return Err(
                                Fallacy::PaperDuplicateField(String::from_str("title")),
                            );
                        }
                        title_v = Some(a.clone());
                        i = i + 1;
                        proof {
                            assert(v.skip(iold).skip(1) =~= v.skip(iold + 1));
                            let acc1 = RawPaperArgs {
                                title: opt_view(title_v),
                                nickname: slot_view(nickname_v),
                                authors: slot_view(authors_v),
                                venue: slot_view(venue_v),
                                year: slot_view(year_v),
                                filepath: slot_view(filepath_v),
                                labels: slot_view(labels_v),
                            };
                            assert(acc1 =~= (RawPaperArgs { title: Some(v[iold]), ..acc0 }));
                        }
                    },
                }
            }
            proof {
                assert(v.skip(n as int) =~= Seq::<Seq<char>>::empty());
            }
        } else {
            proof {
                assert(rest =~= Seq::<Seq<char>>::empty());
            }
        }
        let ghost acc = RawPaperArgs {
            title: opt_view(title_v),
            nickname: slot_view(nickname_v),
            authors: slot_view(authors_v),
            venue: slot_view(venue_v),
            year: slot_view(year_v),
            filepath: slot_view(filepath_v),
            labels: slot_view(labels_v),
        };
        proof {
            assert(gather_paper(rest, raw_paper_empty()) == Ok::<RawPaperArgs, FallacyView>(acc));
        }

        // Report an error if required fields are missing.
        let authors_val: Option<String> = match authors_v {
            Some(Some(s)) => Some(s),
            _ => None,
        };
        let venue_val: Option<String> = match venue_v {
            Some(Some(s)) => Some(s),
            _ => None,
        };
        let year_val: Option<String> = match year_v {
            Some(Some(s)) => Some(s),
            _ => None,
        };
        if authors_val.is_none() || venue_val.is_none() || year_val.is_none()
            || title_v.is_none() {
            let mut missing: Vec<String> = Vec::new();
            if authors_val.is_none() {
                missing.push(String::from_str("authors(by)"));
            }
            if venue_val.is_none() {
                missing.push(String::from_str("venue(at)"));
            }
            if year_val.is_none() {
                missing.push(String::from_str("year(in)"));
            }
            if title_v.is_none() {
                missing.push(String::from_str("title(_)"));
            }
            proof {
                assert(views_of(missing@) =~= missing_fields_list(acc));
            }
            return Err(Fallacy::PaperMissingFields(join_strings(&missing, ", ")));
        }

        // Make paper fields.
        let title = match title_v {
            Some(t) => t,
            None => String::new(),
        };
        let nickname = match nickname_v {
            Some(Some(s)) => Some(s),
            _ => None,
        };
        let authors = match &authors_val {
            Some(s) => split_and_trim(s.as_str()),
            None => Vec::new(),
        };
        let venue = match venue_val {
            Some(s) => s,
            None => String::new(),
        };
        let year = match year_val {
            Some(s) => s,
            None => String::new(),
        };
        let filepath = match filepath_v {
            Some(Some(s)) => Some(s),
            _ => None,
        };
        let labels = match &labels_v {
            Some(Some(s)) => {
                let parts = split_and_trim(s.as_str());
                dedup_strings(&parts)
            },
            _ => Vec::new(),
        };
        let paper = Paper { title, nickname, authors, venue, year, filepath, labels, notepath: None };
        proof {
            let pv = match spec_paper_from_args(v) {
                Ok(pv) => pv,
                Err(_) => paper@,
            };
            assert(views_of(Seq::<String>::empty()) =~= Seq::<Seq<char>>::empty());
            assert(paper@ =~= pv);
        }
        Ok(paper)
    }
}

/// The rendering of one queryable field of a paper; an unknown column name
/// renders as the empty string.
pub open spec fn spec_field_as_string(p: PaperView, field: Seq<char>) -> Seq<char> {
    if field == "title"@ {
        p.title
    } else if field == "nickname"@ {
        match p.nickname {
            Some(s) => s,
            None => Seq::empty(),
        }
    } else if field == "authors"@ {
        join_sep(p.authors, ", "@)
    } else if field == "first author"@ {
        p.authors[0]
    } else if field == "venue"@ {
        p.venue
    } else if field == "year"@ {
        p.year
    } else {
        Seq::empty()
    }
}

impl Paper {
    /// Render one queryable field for a table column.
    pub fn field_as_string(&self, field: &str) -> (r: String)
        requires
            field@ == "first author"@ ==> self@.authors.len() > 0,
        ensures
            r@ == spec_field_as_string(self@, field@),
    {
        if str_eq(field, "title") {
            self.title.clone()
        } else if str_eq(field, "nickname") {
            match &self.nickname {
                Some(s) => s.clone(),
                None => String::new(),
            }
        } else if str_eq(field, "authors") {
            join_strings(&self.authors, ", ")
        } else if str_eq(field, "first author") {
            let r = self.authors[0].clone();
            proof {
                assert(self.authors@[0]@ == self@.authors[0]);
            }
            r
        } else if str_eq(field, "venue") {
            self.venue.clone()
        } else if str_eq(field, "year") {
            self.year.clone()
        } else {
            String::new()
        }
    }
}


/// The keyword arguments gathered while scanning a `set` command line.
#[verifier::ext_equal]
pub ghost struct RawApplyArgs {
    pub title: Option<Seq<char>>,
    pub nickname: Option<Seq<char>>,
    pub authors: Option<Seq<char>>,
    pub venue: Option<Seq<char>>,
    pub year: Option<Seq<char>>,
    pub is_labels: Option<Seq<char>>,
    pub not_labels: Option<Seq<char>>,
}

/// No argument gathered yet.
pub open spec fn raw_apply_empty() -> RawApplyArgs {
    RawApplyArgs {
        title: None,
        nickname: None,
        authors: None,
        venue: None,
        year: None,
        is_labels: None,
        not_labels: None,
    }
}

/// The keywords `set` edits fields under.
#[derive(Clone, Copy, PartialEq, Eq, Structural)]
pub enum ApplyKw {
    Nickname,
    Authors,
    Venue,
    Year,
    IsLabels,
    NotLabels,
}

/// Whether `a` is one of the `set` keywords.
pub open spec fn is_apply_kw(a: Seq<char>) -> bool {
    ||| a == "as"@
    ||| a == "by"@
    ||| a == "at"@
    ||| a == "in"@
    ||| a == "is"@
    ||| a == "not"@
}

/// The slot a `set` keyword names.
pub open spec fn apply_kw_slot(a: Seq<char>) -> ApplyKw {
    if a == "as"@ {
        ApplyKw::Nickname
    } else if a == "by"@ {
        ApplyKw::Authors
    } else if a == "at"@ {
        ApplyKw::Venue
    } else if a == "in"@ {
        ApplyKw::Year
    } else if a == "is"@ {
        ApplyKw::IsLabels
    } else {
        ApplyKw::NotLabels
    }
}

/// Whether the slot `kw` already holds something.
pub open spec fn apply_slot_taken(acc: RawApplyArgs, kw: ApplyKw) -> bool {
    match kw {
        ApplyKw::Nickname => acc.nickname is Some,
        ApplyKw::Authors => acc.authors is Some,
        ApplyKw::Venue => acc.venue is Some,
        ApplyKw::Year => acc.year is Some,
        ApplyKw::IsLabels => acc.is_labels is Some,
        ApplyKw::NotLabels => acc.not_labels is Some,
    }
}

/// `acc` with the slot `kw` set to `v`.
pub open spec fn apply_set_slot(acc: RawApplyArgs, kw: ApplyKw, v: Seq<char>) -> RawApplyArgs {
    match kw {
        ApplyKw::Nickname => RawApplyArgs { nickname: Some(v), ..acc },
        ApplyKw::Authors => RawApplyArgs { authors: Some(v), ..acc },
        ApplyKw::Venue => RawApplyArgs { venue: Some(v), ..acc },
        ApplyKw::Year => RawApplyArgs { year: Some(v), ..acc },
        ApplyKw::IsLabels => RawApplyArgs { is_labels: Some(v), ..acc },
        ApplyKw::NotLabels => RawApplyArgs { not_labels: Some(v), ..acc },
    }
}

/// Scan `set` arguments left to right: a keyword claims its slot and
/// consumes the next argument as the new value; a keyword at the end of the
/// line becomes the new title instead, as does any plain argument. A keyword
/// or a plain title given twice is a duplicate-field error.
pub open spec fn gather_apply(args: Seq<Seq<char>>, acc: RawApplyArgs) -> Result<
    RawApplyArgs,
    FallacyView,
>
    decreases args.len(),
{
    if args.len() == 0 {
        Ok(acc)
    } else if is_apply_kw(args[0]) {
        let kw = apply_kw_slot(args[0]);
        if apply_slot_taken(acc, kw) {
            Err(FallacyView::PaperDuplicateField(args[0]))
        } else if args.len() >= 2 {
            gather_apply(args.skip(2), apply_set_slot(acc, kw, args[1]))
        } else {
            gather_apply(args.skip(1), RawApplyArgs { title: Some(args[0]), ..acc })
        }
    } else {
        if acc.title is Some {
            Err(FallacyView::PaperDuplicateField("title"@))
        } else {
            gather_apply(args.skip(1), RawApplyArgs { title: Some(args[0]), ..acc })
        }
    }
}

/// Apply the `is` label parts left to right: the parts `read` and `current`
/// first clear both of those status labels; every part is then added,
/// trimmed, with set behavior.
pub open spec fn apply_is_parts(ls: Seq<Seq<char>>, parts: Seq<Seq<char>>) -> Seq<Seq<char>>
    decreases parts.len(),
{
    if parts.len() == 0 {
        ls
    } else {
        let prior = apply_is_parts(ls, parts.drop_last());
        let p = parts.last();
        let cleared = if p == "read"@ || p == "current"@ {
            crate::strutil::remove_label(crate::strutil::remove_label(prior, "read"@), "current"@)
        } else {
            prior
        };
        insert_label(cleared, crate::strutil::trimmed(p))
    }
}

/// Apply the `not` label parts left to right: each part, trimmed, is removed.
pub open spec fn apply_not_parts(ls: Seq<Seq<char>>, parts: Seq<Seq<char>>) -> Seq<Seq<char>>
    decreases parts.len(),
{
    if parts.len() == 0 {
        ls
    } else {
        crate::strutil::remove_label(
            apply_not_parts(ls, parts.drop_last()),
            crate::strutil::trimmed(parts.last()),
        )
    }
}

/// The paper after the gathered `set` arguments are applied.
pub open spec fn spec_apply(p: PaperView, acc: RawApplyArgs) -> PaperView {
    let labels1 = match acc.is_labels {
        Some(s) => apply_is_parts(p.labels, crate::strutil::split_commas(s)),
        None => p.labels,
    };
    let labels2 = match acc.not_labels {
        Some(s) => apply_not_parts(labels1, crate::strutil::split_commas(s)),
        None => labels1,
    };
    PaperView {
        title: match acc.title {
            Some(t) => t,
            None => p.title,
        },
        nickname: match acc.nickname {
            Some(s) => Some(s),
            None => p.nickname,
        },
        authors: match acc.authors {
            Some(s) => split_trimmed(s),
            None => p.authors,
        },
        venue: match acc.venue {
            Some(s) => s,
            None => p.venue,
        },
        year: match acc.year {
            Some(s) => s,
            None => p.year,
        },
        filepath: p.filepath,
        labels: labels2,
        notepath: p.notepath,
    }
}

/// What `Paper::apply_from_args` does: gather the arguments, then apply them.
pub open spec fn spec_apply_from_args(p: PaperView, args: Seq<Seq<char>>) -> Result<
    PaperView,
    FallacyView,
> {
    match gather_apply(args, raw_apply_empty()) {
        Err(e) => Err(e),
        Ok(acc) => Ok(spec_apply(p, acc)),
    }
}

impl Paper {
    /// Apply field edits given as command arguments to this paper. On an
    /// error the paper is left unchanged.
    pub fn apply_from_args(&mut self, args: &[String]) -> (r: Result<(), Fallacy>)
        ensures
            match (r, spec_apply_from_args(old(self)@, views_of(args@))) {
                (Ok(()), Ok(pv)) => final(self)@ == pv,
                (Err(e), Err(ev)) => e@ == ev && final(self)@ == old(self)@,
                _ => false,
            },
            old(self).wf() ==> final(self).wf(),
    {
        let ghost v = views_of(args@);
        let mut title_s: Option<String> = None;
        let mut nickname_s: Option<String> = None;
        let mut authors_s: Option<String> = None;
        let mut venue_s: Option<String> = None;
        let mut year_s: Option<String> = None;
        let mut is_s: Option<String> = None;
        let mut not_s: Option<String> = None;
        let n = args.len();
        proof {
            assert(v.skip(0) =~= v);
        }
        let mut i: usize = 0;
        while i < n
            invariant
                i <= n,
                n == args@.len(),
                v == views_of(args@),
                gather_apply(v, raw_apply_empty()) == gather_apply(
                    v.skip(i as int),
                    RawApplyArgs {
                        title: opt_view(title_s),
                        nickname: opt_view(nickname_s),
                        authors: opt_view(authors_s),
                        venue: opt_view(venue_s),
                        year: opt_view(year_s),
                        is_labels: opt_view(is_s),
                        not_labels: opt_view(not_s),
                    },
                ),
            decreases n - i,
        {
            let ghost iold = i as int;
            let ghost acc0 = RawApplyArgs {
                title: opt_view(title_s),
                nickname: opt_view(nickname_s),
                authors: opt_view(authors_s),
                venue: opt_view(venue_s),
                year: opt_view(year_s),
                is_labels: opt_view(is_s),
                not_labels: opt_view(not_s),
            };
            proof {
                assert(v.skip(iold)[0] == v[iold]);
                assert(v.skip(iold).len() == v.len() - iold);
            }
            let a = &args[i];
            let kw: Option<ApplyKw> = if str_eq(a.as_str(), "as") {
                Some(ApplyKw::Nickname)
            } else if str_eq(a.as_str(), "by") {
                Some(ApplyKw::Authors)
            } else if str_eq(a.as_str(), "at") {
                Some(ApplyKw::Venue)
            } else if str_eq(a.as_str(), "in") {
                Some(ApplyKw::Year)
            } else if str_eq(a.as_str(), "is") {
                Some(ApplyKw::IsLabels)
            } else if str_eq(a.as_str(), "not") {
                Some(ApplyKw::NotLabels)
            } else {
                None
            };
            match kw {
                Some(k) => {
                    proof {
                        assert(is_apply_kw(v[iold]));
                        assert(apply_kw_slot(v[iold]) == k);
                    }
                    let taken = match k {
                        ApplyKw::Nickname => nickname_s.is_some(),
                        ApplyKw::Authors => authors_s.is_some(),
                        ApplyKw::Venue => venue_s.is_some(),
                        ApplyKw::Year => year_s.is_some(),
                        ApplyKw::IsLabels => is_s.is_some(),
                        ApplyKw::NotLabels => not_s.is_some(),
                    };
                    if taken {
                        return Err(Fallacy::PaperDuplicateField(a.clone()));
                    }
                    if i + 1 < n {
                        let val = args[i + 1].clone();
                        match k {
                            ApplyKw::Nickname => { nickname_s = Some(val); },
                            ApplyKw::Authors => { authors_s = Some(val); },
                            ApplyKw::Venue => { venue_s = Some(val); },
                            ApplyKw::Year => { year_s = Some(val); },
                            ApplyKw::IsLabels => { is_s = Some(val); },
                            ApplyKw::NotLabels => { not_s = Some(val); },
                        }
                        i = i + 2;
                        proof {
                            assert(v.skip(iold)[1] == v[iold + 1]);
                            assert(v.skip(iold).skip(2) =~= v.skip(iold + 2));
                            let acc1 = RawApplyArgs {
                                title: opt_view(title_s),
                                nickname: opt_view(nickname_s),
                                authors: opt_view(authors_s),
                                venue: opt_view(venue_s),
                                year: opt_view(year_s),
                                is_labels: opt_view(is_s),
                                not_labels: opt_view(not_s),
                            };
                            assert(acc1 =~= apply_set_slot(acc0, k, v[iold + 1]));
                        }
                    } else {
                        title_s = Some(a.clone());
                        i = i + 1;
                        proof {
                            assert(v.skip(iold).skip(1) =~= v.skip(iold + 1));
                            let acc1 = RawApplyArgs {
                                title: opt_view(title_s),
                                nickname: opt_view(nickname_s),
                                authors: opt_view(authors_s),
                                venue: opt_view(venue_s),
                                year: opt_view(year_s),
                                is_labels: opt_view(is_s),
                                not_labels: opt_view(not_s),
                            };
                            assert(acc1 =~= (RawApplyArgs { title: Some(v[iold]), ..acc0 }));
                        }
                    }
                },
                None => {
                    proof {
                        assert(!is_apply_kw(v[iold]));
                    }
                    if title_s.is_some() {
                        proof {
                            reveal_strlit("title");
                        }
                        return Err(Fallacy::PaperDuplicateField(String::from_str("title")));
                    }
                    title_s = Some(a.clone());
                    i = i + 1;
                    proof {
                        assert(v.skip(iold).skip(1) =~= v.skip(iold + 1));
                        let acc1 = RawApplyArgs {
                            title: opt_view(title_s),
                            nickname: opt_view(nickname_s),
                            authors: opt_view(authors_s),
                            venue: opt_view(venue_s),
                            year: opt_view(year_s),
                            is_labels: opt_view(is_s),
                            not_labels: opt_view(not_s),
                        };
                        assert(acc1 =~= (RawApplyArgs { title: Some(v[iold]), ..acc0 }));
                    }
                },
            }
        }
        let ghost acc = RawApplyArgs {
            title: opt_view(title_s),
            nickname: opt_view(nickname_s),
            authors: opt_view(authors_s),
            venue: opt_view(venue_s),
            year: opt_view(year_s),
            is_labels: opt_view(is_s),
            not_labels: opt_view(not_s),
        };
        proof {
            assert(v.skip(n as int) =~= Seq::<Seq<char>>::empty());
            assert(gather_apply(v, raw_apply_empty()) == Ok::<RawApplyArgs, FallacyView>(acc));
        }

        // Apply changes.
        if let Some(t) = title_s {
            self.title = t;
        }
        if let Some(s) = nickname_s {
            self.nickname = Some(s);
        }
        if let Some(s) = &authors_s {
            self.authors = split_and_trim(s.as_str());
        }
        if let Some(s) = venue_s {
            self.venue = s;
        }
        if let Some(s) = year_s {
            self.year = s;
        }
        let mut labels_cur = crate::strutil::clone_string_vec(&self.labels);
        if let Some(s) = &is_s {
            let parts = crate::strutil::split_plain(s.as_str());
            let ghost pvs = views_of(parts@);
            let mut j: usize = 0;
            while j < parts.len()
                invariant
                    j <= parts@.len(),
                    pvs == views_of(parts@),
                    pvs == crate::strutil::split_commas(opt_view(is_s)->0),
                    views_of(labels_cur@) == apply_is_parts(
                        old(self)@.labels,
                        pvs.take(j as int),
                    ),
                decreases parts@.len() - j,
            {
                let p = &parts[j];
                let ghost prior = views_of(labels_cur@);
                if str_eq(p.as_str(), "read") || str_eq(p.as_str(), "current") {
                    crate::strutil::remove_string(&mut labels_cur, "read");
                    crate::strutil::remove_string(&mut labels_cur, "current");
                }
                let t = crate::strutil::trim_string(p.as_str());
                push_if_absent(&mut labels_cur, t);
                j = j + 1;
                proof {
                    assert(pvs.take(j as int).drop_last() =~= pvs.take(j - 1));
                    assert(pvs.take(j as int).last() == pvs[j - 1]);
                    assert(pvs[j - 1] == parts@[j - 1]@);
                }
            }
            proof {
                assert(pvs.take(parts@.len() as int) =~= pvs);
            }
        }
        if let Some(s) = &not_s {
            let parts = crate::strutil::split_plain(s.as_str());
            let ghost pvs = views_of(parts@);
            let ghost labels1 = views_of(labels_cur@);
            let mut j: usize = 0;
            while j < parts.len()
                invariant
                    j <= parts@.len(),
                    pvs == views_of(parts@),
                    pvs == crate::strutil::split_commas(opt_view(not_s)->0),
                    views_of(labels_cur@) == apply_not_parts(labels1, pvs.take(j as int)),
                decreases parts@.len() - j,
            {
                let p = &parts[j];
                let t = crate::strutil::trim_string(p.as_str());
                crate::strutil::remove_string(&mut labels_cur, t.as_str());
                j = j + 1;
                proof {
                    assert(pvs.take(j as int).drop_last() =~= pvs.take(j - 1));
                    assert(pvs.take(j as int).last() == pvs[j - 1]);
                    assert(pvs[j - 1] == parts@[j - 1]@);
                }
            }
            proof {
                assert(pvs.take(parts@.len() as int) =~= pvs);
            }
        }
        self.labels = labels_cur;
        proof {
            let pv = match spec_apply_from_args(old(self)@, v) {
                Ok(pv) => pv,
                Err(_) => self@,
            };
            assert(self@ =~= pv);
        }
        Ok(())
    }
}

} // verus!
