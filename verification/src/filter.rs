//! The filter compiler: turns command arguments into per-field pattern
//! constraints, merges filters, and matches them against papers. The regular
//! expression engine itself is the regex crate, reached through the trusted
//! items at the top of this module.

use vstd::prelude::*;

verus! {

use crate::error::{Fallacy, FallacyView};
use crate::paper::{Paper, PaperView};
use crate::strutil::{str_eq, views_of};
use vstd::string::StringExecFns;

/// The regex crate's compiled regular expression, held opaquely.
#[verifier::external_type_specification]
#[verifier::external_body]
pub struct ExRegex(regex::Regex);

/// The regex crate's compile error, held opaquely.
#[verifier::external_type_specification]
#[verifier::external_body]
pub struct ExRegexError(regex::Error);

/// Whether the regex crate compiles `text` as a pattern under the given
/// case-insensitivity flag: a function of those two values alone.
pub uninterp spec fn pattern_compiles(text: Seq<char>, case_insensitive: bool) -> bool;

/// Whether the regex compiled from `pattern` under `case_insensitive`
/// matches somewhere in `text`: a function of those three values alone.
pub uninterp spec fn regex_is_match(
    pattern: Seq<char>,
    case_insensitive: bool,
    text: Seq<char>,
) -> bool;

/// One compiled filter pattern: the pattern text, the case flag it was
/// compiled under, and the compiled regex itself.
pub struct Pattern {
    text: String,
    case_insensitive: bool,
    regex: regex::Regex,
}

/// The mathematical value of a `Pattern`: what it was compiled from.
#[verifier::ext_equal]
pub ghost struct PatternView {
    pub text: Seq<char>,
    pub case_insensitive: bool,
}

impl View for Pattern {
    type V = PatternView;

    closed spec fn view(&self) -> PatternView {
        PatternView { text: self.text@, case_insensitive: self.case_insensitive }
    }
}

/// Whether the pattern matches somewhere in `text`.
pub open spec fn pattern_matches(p: PatternView, text: Seq<char>) -> bool {
    regex_is_match(p.text, p.case_insensitive, text)
}

/// Relies on regex::RegexBuilder::new / case_insensitive / build: building
/// succeeds or fails depending only on the pattern text and the flag, and
/// the regex it returns is the one the `Pattern` fields describe. This is
/// the only constructor of `Pattern`, so every `Pattern`'s `regex` field was
/// compiled from its `text` and `case_insensitive` fields.
#[verifier::external_body]
fn build_pattern(text: &String, case_insensitive: bool) -> (r: Result<Pattern, regex::Error>)
    ensures
        r is Ok <==> pattern_compiles(text@, case_insensitive),
        r matches Ok(p) ==> p@ == (PatternView { text: text@, case_insensitive }),
{
    match regex::RegexBuilder::new(text).case_insensitive(case_insensitive).build() {
        Ok(regex) => Ok(Pattern { text: text.clone(), case_insensitive, regex }),
        Err(e) => Err(e),
    }
}

/// Relies on the Display impl of regex::Error: renders the engine's
/// diagnostic; nothing is assumed about the text.
#[verifier::external_body]
fn regex_error_message(e: &regex::Error) -> String {
    e.to_string()
}

impl Pattern {
    /// Relies on regex::Regex::is_match: whether the regex matches anywhere
    /// in `text`, a function of the pattern it was compiled from, its case
    /// flag, and the text.
    #[verifier::external_body]
    fn is_match(&self, text: &str) -> (r: bool)
        ensures
            r == regex_is_match(self@.text, self@.case_insensitive, text@),
    {
        self.regex.is_match(text)
    }
}

impl Clone for Pattern {
    /// Relies on regex::Regex::clone: an equal regex; the describing fields
    /// are copied along with it.
    #[verifier::external_body]
    fn clone(&self) -> (r: Self)
        ensures
            r@ == self@,
    {
        Pattern {
            text: self.text.clone(),
            case_insensitive: self.case_insensitive,
            regex: self.regex.clone(),
        }
    }
}

/// The views of a sequence of patterns.
pub open spec fn patterns_view(v: Seq<Pattern>) -> Seq<PatternView> {
    v.map_values(|p: Pattern| p@)
}

/// A conjunction of per-field pattern constraints. Every pattern of a field
/// must hold of a candidate paper for the paper to match.
pub struct PaperFilter {
    pub title: Vec<Pattern>,
    pub nickname: Vec<Pattern>,
    pub author: Vec<Pattern>,
    pub first_author: Vec<Pattern>,
    pub venue: Vec<Pattern>,
    pub year: Vec<Pattern>,
    pub is_label: Vec<Pattern>,
    pub not_label: Vec<Pattern>,
}

/// The mathematical value of a `PaperFilter`.
#[verifier::ext_equal]
pub ghost struct PaperFilterView {
    pub title: Seq<PatternView>,
    pub nickname: Seq<PatternView>,
    pub author: Seq<PatternView>,
    pub first_author: Seq<PatternView>,
    pub venue: Seq<PatternView>,
    pub year: Seq<PatternView>,
    pub is_label: Seq<PatternView>,
    pub not_label: Seq<PatternView>,
}

impl View for PaperFilter {
    type V = PaperFilterView;

    open spec fn view(&self) -> PaperFilterView {
        PaperFilterView {
            title: patterns_view(self.title@),
            nickname: patterns_view(self.nickname@),
            author: patterns_view(self.author@),
            first_author: patterns_view(self.first_author@),
            venue: patterns_view(self.venue@),
            year: patterns_view(self.year@),
            is_label: patterns_view(self.is_label@),
            not_label: patterns_view(self.not_label@),
        }
    }
}

/// The filter with no constraints at all.
pub open spec fn empty_filter_view() -> PaperFilterView {
    PaperFilterView {
        title: Seq::empty(),
        nickname: Seq::empty(),
        author: Seq::empty(),
        first_author: Seq::empty(),
        venue: Seq::empty(),
        year: Seq::empty(),
        is_label: Seq::empty(),
        not_label: Seq::empty(),
    }
}

/// Whether a filter constrains nothing.
pub open spec fn filter_view_is_empty(f: PaperFilterView) -> bool {
    &&& f.title.len() == 0
    &&& f.nickname.len() == 0
    &&& f.author.len() == 0
    &&& f.first_author.len() == 0
    &&& f.venue.len() == 0
    &&& f.year.len() == 0
    &&& f.is_label.len() == 0
    &&& f.not_label.len() == 0
}

impl Default for PaperFilter {
    fn default() -> (r: Self)
        ensures
            r@ == empty_filter_view(),
    {
        let r = PaperFilter {
            title: Vec::new(),
            nickname: Vec::new(),
            author: Vec::new(),
            first_author: Vec::new(),
            venue: Vec::new(),
            year: Vec::new(),
            is_label: Vec::new(),
            not_label: Vec::new(),
        };
        proof {
            assert(patterns_view(Seq::<Pattern>::empty()) =~= Seq::<PatternView>::empty());
        }
        r
    }
}

/// A copy of a pattern vector, with the same views.
fn clone_patterns(v: &Vec<Pattern>) -> (r: Vec<Pattern>)
    ensures
        patterns_view(r@) == patterns_view(v@),
{
    let mut r: Vec<Pattern> = Vec::new();
    let mut i: usize = 0;
    while i < v.len()
        invariant
            i <= v@.len(),
            r@.len() == i,
            forall|k: int| 0 <= k < i ==> #[trigger] r@[k]@ == v@[k]@,
        decreases v@.len() - i,
    {
        r.push(v[i].clone());
        i = i + 1;
    }
    proof {
        assert(patterns_view(r@) =~= patterns_view(v@));
    }
    r
}

impl Clone for PaperFilter {
    fn clone(&self) -> (r: Self)
        ensures
            r@ == self@,
    {
        PaperFilter {
            title: clone_patterns(&self.title),
            nickname: clone_patterns(&self.nickname),
            author: clone_patterns(&self.author),
            first_author: clone_patterns(&self.first_author),
            venue: clone_patterns(&self.venue),
            year: clone_patterns(&self.year),
            is_label: clone_patterns(&self.is_label),
            not_label: clone_patterns(&self.not_label),
        }
    }
}

/// Field-wise concatenation of two filters.
pub open spec fn append_filter_views(a: PaperFilterView, b: PaperFilterView) -> PaperFilterView {
    PaperFilterView {
        title: a.title + b.title,
        nickname: a.nickname + b.nickname,
        author: a.author + b.author,
        first_author: a.first_author + b.first_author,
        venue: a.venue + b.venue,
        year: a.year + b.year,
        is_label: a.is_label + b.is_label,
        not_label: a.not_label + b.not_label,
    }
}

/// The merge of a sequence of filters: each field is the concatenation of
/// that field across the sequence, in order.
pub open spec fn merge_views(fs: Seq<PaperFilterView>) -> PaperFilterView
    decreases fs.len(),
{
    if fs.len() == 0 {
        empty_filter_view()
    } else {
        append_filter_views(merge_views(fs.drop_last()), fs.last())
    }
}

/// The views of a sequence of filters.
pub open spec fn filters_view(v: Seq<PaperFilter>) -> Seq<PaperFilterView> {
    v.map_values(|f: PaperFilter| f@)
}

/// Append copies of all of `src`'s patterns to `dst`.
fn extend_patterns(dst: &mut Vec<Pattern>, src: &Vec<Pattern>)
    ensures
        patterns_view(final(dst)@) == patterns_view(old(dst)@) + patterns_view(src@),
{
    let mut i: usize = 0;
    while i < src.len()
        invariant
            i <= src@.len(),
            dst@.len() == old(dst)@.len() + i,
            forall|k: int| 0 <= k < old(dst)@.len() ==> #[trigger] dst@[k] == old(dst)@[k],
            forall|k: int|
                old(dst)@.len() <= k < old(dst)@.len() + i ==> #[trigger] dst@[k]@ == src@[k
                    - old(dst)@.len()]@,
        decreases src@.len() - i,
    {
        dst.push(src[i].clone());
        i = i + 1;
    }
    proof {
        assert(patterns_view(dst@) =~= patterns_view(old(dst)@) + patterns_view(src@));
    }
}

impl PaperFilter {
    /// Merges multiple filters into one: each field becomes the
    /// concatenation of that field across `filters`, in order.
    pub fn merge(filters: &[PaperFilter]) -> (r: Self)
        ensures
            r@ == merge_views(filters_view(filters@)),
    {
        let mut merged = PaperFilter::default();
        let mut i: usize = 0;
        proof {
            assert(filters_view(filters@).take(0) =~= Seq::<PaperFilterView>::empty());
        }
        while i < filters.len()
            invariant
                i <= filters@.len(),
                merged@ == merge_views(filters_view(filters@).take(i as int)),
            decreases filters@.len() - i,
        {
            let f = &filters[i];
            extend_patterns(&mut merged.title, &f.title);
            extend_patterns(&mut merged.nickname, &f.nickname);
            extend_patterns(&mut merged.author, &f.author);
            extend_patterns(&mut merged.first_author, &f.first_author);
            extend_patterns(&mut merged.venue, &f.venue);
            extend_patterns(&mut merged.year, &f.year);
            extend_patterns(&mut merged.is_label, &f.is_label);
            extend_patterns(&mut merged.not_label, &f.not_label);
            i = i + 1;
            proof {
                let fv = filters_view(filters@);
                assert(fv.take(i as int).drop_last() =~= fv.take(i - 1));
                assert(fv.take(i as int).last() == fv[i - 1]);
            }
        }
        proof {
            assert(filters_view(filters@).take(filters@.len() as int) =~= filters_view(
                filters@,
            ));
        }
        merged
    }

    /// Check if this filter is empty.
    pub fn is_empty(&self) -> (r: bool)
        ensures
            r == filter_view_is_empty(self@),
    {
        self.title.len() == 0 && self.nickname.len() == 0 && self.author.len() == 0
            && self.first_author.len() == 0 && self.venue.len() == 0 && self.year.len() == 0
            && self.is_label.len() == 0 && self.not_label.len() == 0
    }
}

/// Whether every pattern in `pats` matches `text`.
pub open spec fn all_match(pats: Seq<PatternView>, text: Seq<char>) -> bool {
    forall|i: int| 0 <= i < pats.len() ==> pattern_matches(pats[i], text)
}

/// The nickname a filter is matched against: the paper's nickname, or the
/// empty string when the paper has none.
pub open spec fn nickname_text(p: PaperView) -> Seq<char> {
    match p.nickname {
        Some(s) => s,
        None => Seq::empty(),
    }
}

/// Whether `p` matches at least one element of `ts`.
pub open spec fn some_elem_matches(p: PatternView, ts: Seq<Seq<char>>) -> bool {
    exists|j: int| 0 <= j < ts.len() && pattern_matches(p, ts[j])
}

/// Whether `p` matches no element of `ts`.
pub open spec fn no_elem_matches(p: PatternView, ts: Seq<Seq<char>>) -> bool {
    forall|j: int| 0 <= j < ts.len() ==> !pattern_matches(p, ts[j])
}

/// Whether the filter matches the paper: scalar fields must match every
/// pattern of their list; for the author field every pattern must match at
/// least one author; `first_author` patterns must match the first author;
/// `is_label` patterns must each match at least one label; no label may
/// match any `not_label` pattern.
pub open spec fn filter_matches(f: PaperFilterView, p: PaperView) -> bool {
    &&& all_match(f.title, p.title)
    &&& all_match(f.nickname, nickname_text(p))
    &&& (forall|i: int|
        0 <= i < f.author.len() ==> some_elem_matches(#[trigger] f.author[i], p.authors))
    &&& all_match(f.first_author, p.authors[0])
    &&& all_match(f.venue, p.venue)
    &&& all_match(f.year, p.year)
    &&& (forall|i: int|
        0 <= i < f.is_label.len() ==> some_elem_matches(#[trigger] f.is_label[i], p.labels))
    &&& (forall|i: int|
        0 <= i < f.not_label.len() ==> no_elem_matches(#[trigger] f.not_label[i], p.labels))
}

/// Whether every pattern in `pats` matches `text`, executably.
fn all_match_str(pats: &Vec<Pattern>, text: &str) -> (r: bool)
    ensures
        r == all_match(patterns_view(pats@), text@),
{
    let mut i: usize = 0;
    while i < pats.len()
        invariant
            i <= pats@.len(),
            forall|k: int| 0 <= k < i ==> pattern_matches(patterns_view(pats@)[k], text@),
        decreases pats@.len() - i,
    {
        if !pats[i].is_match(text) {
            proof {
                assert(!pattern_matches(patterns_view(pats@)[i as int], text@));
            }
            return false;
        }
        proof {
            assert(pattern_matches(patterns_view(pats@)[i as int], text@));
        }
        i = i + 1;
    }
    true
}

/// Whether `pat` matches at least one element of `texts`.
fn any_elem_matches(pat: &Pattern, texts: &Vec<String>) -> (r: bool)
    ensures
        r == some_elem_matches(pat@, views_of(texts@)),
{
    let mut i: usize = 0;
    while i < texts.len()
        invariant
            i <= texts@.len(),
            forall|k: int| 0 <= k < i ==> !pattern_matches(pat@, #[trigger] views_of(texts@)[k]),
        decreases texts@.len() - i,
    {
        if pat.is_match(texts[i].as_str()) {
            proof {
                assert(pattern_matches(pat@, views_of(texts@)[i as int]));
            }
            return true;
        }
        i = i + 1;
    }
    false
}

impl PaperFilter {
    /// Check if the filter matches the given paper.
    pub fn matches(&self, paper: &Paper) -> (r: bool)
        requires
            paper@.authors.len() > 0,
        ensures
            r == filter_matches(self@, paper@),
    {
        if !all_match_str(&self.title, paper.title.as_str()) {
            return false;
        }
        let nick: &str = match &paper.nickname {
            Some(s) => s.as_str(),
            None => "",
        };
        proof {
            reveal_strlit("");
            assert(""@ =~= Seq::<char>::empty());
            assert(nick@ == nickname_text(paper@));
        }
        if !all_match_str(&self.nickname, nick) {
            return false;
        }
        let mut ai: usize = 0;
        while ai < self.author.len()
            invariant
                ai <= self.author@.len(),
                forall|k: int|
                    0 <= k < ai ==> some_elem_matches(
                        #[trigger] patterns_view(self.author@)[k],
                        views_of(paper.authors@),
                    ),
            decreases self.author@.len() - ai,
        {
            let ok = any_elem_matches(&self.author[ai], &paper.authors);
            proof {
                assert(patterns_view(self.author@)[ai as int] == self.author@[ai as int]@);
            }
            if !ok {
                proof {
                    assert(self@.author[ai as int] == patterns_view(self.author@)[ai as int]);
                    assert(!some_elem_matches(self@.author[ai as int], paper@.authors));
                }
                return false;
            }
            ai = ai + 1;
        }
        if !all_match_str(&self.first_author, paper.authors[0].as_str()) {
            proof {
                assert(paper.authors@[0]@ == paper@.authors[0]);
            }
            return false;
        }
        proof {
            assert(paper.authors@[0]@ == paper@.authors[0]);
        }
        if !all_match_str(&self.venue, paper.venue.as_str()) {
            return false;
        }
        if !all_match_str(&self.year, paper.year.as_str()) {
            return false;
        }
        let mut li: usize = 0;
        while li < self.is_label.len()
            invariant
                li <= self.is_label@.len(),
                forall|k: int|
                    0 <= k < li ==> some_elem_matches(
                        #[trigger] patterns_view(self.is_label@)[k],
                        views_of(paper.labels@),
                    ),
            decreases self.is_label@.len() - li,
        {
            let ok = any_elem_matches(&self.is_label[li], &paper.labels);
            proof {
                assert(patterns_view(self.is_label@)[li as int] == self.is_label@[li as int]@);
            }
            if !ok {
                proof {
                    assert(self@.is_label[li as int] == patterns_view(self.is_label@)[li as int]);
                    assert(!some_elem_matches(self@.is_label[li as int], paper@.labels));
                }
                return false;
            }
            li = li + 1;
        }
        let mut ni: usize = 0;
        while ni < self.not_label.len()
            invariant
                ni <= self.not_label@.len(),
                forall|k: int|
                    0 <= k < ni ==> no_elem_matches(
                        #[trigger] patterns_view(self.not_label@)[k],
                        views_of(paper.labels@),
                    ),
            decreases self.not_label@.len() - ni,
        {
            let ok = any_elem_matches(&self.not_label[ni], &paper.labels);
            proof {
                assert(patterns_view(self.not_label@)[ni as int] == self.not_label@[ni as int]@);
            }
            if ok {
                proof {
                    assert(self@.not_label[ni as int] == patterns_view(self.not_label@)[ni as int]);
                    assert(!no_elem_matches(self@.not_label[ni as int], paper@.labels));
                }
                return false;
            }
            ni = ni + 1;
        }
        true
    }
}


/// The queryable fields a filter argument can name.
#[derive(Clone, Copy, PartialEq, Eq, Structural)]
pub enum FilterField {
    Title,
    Nickname,
    Author,
    FirstAuthor,
    Venue,
    Year,
    IsLabel,
    NotLabel,
}

/// Whether `a` is one of the filter keywords.
pub open spec fn is_filter_kw(a: Seq<char>) -> bool {
    ||| a == "as"@
    ||| a == "by"@
    ||| a == "by1"@
    ||| a == "at"@
    ||| a == "on"@
    ||| a == "in"@
    ||| a == "is"@
    ||| a == "not"@
}

/// The field a filter keyword names.
pub open spec fn kw_field(a: Seq<char>) -> FilterField {
    if a == "as"@ {
        FilterField::Nickname
    } else if a == "by"@ {
        FilterField::Author
    } else if a == "by1"@ {
        FilterField::FirstAuthor
    } else if a == "at"@ || a == "on"@ {
        FilterField::Venue
    } else if a == "in"@ {
        FilterField::Year
    } else if a == "is"@ {
        FilterField::IsLabel
    } else {
        FilterField::NotLabel
    }
}

/// Resolve filter arguments left to right into (field, pattern) pairs: a
/// keyword consumes the next argument as its pattern; a keyword with no
/// following argument falls back to a bare title pattern; any other
/// argument is a title pattern.
pub open spec fn spec_resolve(args: Seq<Seq<char>>) -> Seq<(FilterField, Seq<char>)>
    decreases args.len(),
{
    if args.len() == 0 {
        Seq::empty()
    } else if is_filter_kw(args[0]) {
        if args.len() >= 2 {
            seq![(kw_field(args[0]), args[1])] + spec_resolve(args.skip(2))
        } else {
            seq![(FilterField::Title, args[0])] + spec_resolve(args.skip(1))
        }
    } else {
        seq![(FilterField::Title, args[0])] + spec_resolve(args.skip(1))
    }
}

/// The patterns of field `f` among the resolved pairs, in order.
pub open spec fn field_patterns(
    rs: Seq<(FilterField, Seq<char>)>,
    f: FilterField,
    ci: bool,
) -> Seq<PatternView>
    decreases rs.len(),
{
    if rs.len() == 0 {
        Seq::empty()
    } else {
        field_patterns(rs.drop_last(), f, ci) + (if rs.last().0 == f {
            seq![PatternView { text: rs.last().1, case_insensitive: ci }]
        } else {
            Seq::empty()
        })
    }
}

/// Whether every resolved pattern compiles.
pub open spec fn all_compile(rs: Seq<(FilterField, Seq<char>)>, ci: bool) -> bool {
    forall|k: int| 0 <= k < rs.len() ==> pattern_compiles(#[trigger] rs[k].1, ci)
}

/// The filter the resolved pairs describe.
pub open spec fn filter_from_resolved(
    rs: Seq<(FilterField, Seq<char>)>,
    ci: bool,
) -> PaperFilterView {
    PaperFilterView {
        title: field_patterns(rs, FilterField::Title, ci),
        nickname: field_patterns(rs, FilterField::Nickname, ci),
        author: field_patterns(rs, FilterField::Author, ci),
        first_author: field_patterns(rs, FilterField::FirstAuthor, ci),
        venue: field_patterns(rs, FilterField::Venue, ci),
        year: field_patterns(rs, FilterField::Year, ci),
        is_label: field_patterns(rs, FilterField::IsLabel, ci),
        not_label: field_patterns(rs, FilterField::NotLabel, ci),
    }
}

proof fn lemma_field_patterns_push(
    rs: Seq<(FilterField, Seq<char>)>,
    x: (FilterField, Seq<char>),
    ci: bool,
)
    ensures
        forall|f: FilterField|
            #[trigger] field_patterns(rs.push(x), f, ci) == (if x.0 == f {
                field_patterns(rs, f, ci).push(PatternView { text: x.1, case_insensitive: ci })
            } else {
                field_patterns(rs, f, ci)
            }),
{
    assert forall|f: FilterField|
        #[trigger] field_patterns(rs.push(x), f, ci) == (if x.0 == f {
            field_patterns(rs, f, ci).push(PatternView { text: x.1, case_insensitive: ci })
        } else {
            field_patterns(rs, f, ci)
        }) by {
        assert(rs.push(x).drop_last() =~= rs);
        assert(rs.push(x).last() == x);
        if x.0 == f {
            assert(field_patterns(rs, f, ci) + seq![
                PatternView { text: x.1, case_insensitive: ci },
            ] =~= field_patterns(rs, f, ci).push(
                PatternView { text: x.1, case_insensitive: ci },
            ));
        } else {
            assert(field_patterns(rs, f, ci) + Seq::<PatternView>::empty() =~= field_patterns(
                rs,
                f,
                ci,
            ));
        }
    }
}

/// Which field a keyword argument selects, or `None` for a plain argument.
fn keyword_field(a: &String) -> (r: Option<FilterField>)
    ensures
        match r {
            Some(f) => is_filter_kw(a@) && f == kw_field(a@),
            None => !is_filter_kw(a@),
        },
{
    if str_eq(a.as_str(), "as") {
        Some(FilterField::Nickname)
    } else if str_eq(a.as_str(), "by") {
        Some(FilterField::Author)
    } else if str_eq(a.as_str(), "by1") {
        Some(FilterField::FirstAuthor)
    } else if str_eq(a.as_str(), "at") || str_eq(a.as_str(), "on") {
        Some(FilterField::Venue)
    } else if str_eq(a.as_str(), "in") {
        Some(FilterField::Year)
    } else if str_eq(a.as_str(), "is") {
        Some(FilterField::IsLabel)
    } else if str_eq(a.as_str(), "not") {
        Some(FilterField::NotLabel)
    } else {
        None
    }
}

/// Push `p` onto the field `field` of `filter`.
fn push_to(filter: &mut PaperFilter, field: FilterField, p: Pattern)
    ensures
        final(filter)@ == filter_view_push(old(filter)@, field, p@),
{
    let ghost pv = p@;
    match field {
        FilterField::Title => filter.title.push(p),
        FilterField::Nickname => filter.nickname.push(p),
        FilterField::Author => filter.author.push(p),
        FilterField::FirstAuthor => filter.first_author.push(p),
        FilterField::Venue => filter.venue.push(p),
        FilterField::Year => filter.year.push(p),
        FilterField::IsLabel => filter.is_label.push(p),
        FilterField::NotLabel => filter.not_label.push(p),
    }
    proof {
        assert(filter@ =~= filter_view_push(old(filter)@, field, pv));
    }
}

/// `fv` with `pv` appended to the field `field`.
pub open spec fn filter_view_push(
    fv: PaperFilterView,
    field: FilterField,
    pv: PatternView,
) -> PaperFilterView {
    match field {
        FilterField::Title => PaperFilterView { title: fv.title.push(pv), ..fv },
        FilterField::Nickname => PaperFilterView { nickname: fv.nickname.push(pv), ..fv },
        FilterField::Author => PaperFilterView { author: fv.author.push(pv), ..fv },
        FilterField::FirstAuthor => PaperFilterView {
            first_author: fv.first_author.push(pv),
            ..fv
        },
        FilterField::Venue => PaperFilterView { venue: fv.venue.push(pv), ..fv },
        FilterField::Year => PaperFilterView { year: fv.year.push(pv), ..fv },
        FilterField::IsLabel => PaperFilterView { is_label: fv.is_label.push(pv), ..fv },
        FilterField::NotLabel => PaperFilterView { not_label: fv.not_label.push(pv), ..fv },
    }
}

impl PaperFilter {
    /// Accepts filter arguments given to commands and builds an instance of
    /// `PaperFilter`. Remove the command (first argument) and pass the rest
    /// to this function. Succeeds exactly when every resolved pattern
    /// compiles; the first pattern the engine rejects produces a
    /// `FilterBuildFailed` carrying its diagnostic.
    pub fn from_args(args: &[String], case_insensitive: bool) -> (r: Result<Self, Fallacy>)
        ensures
            r is Ok <==> all_compile(spec_resolve(views_of(args@)), case_insensitive),
            r matches Ok(f) ==> f@ == filter_from_resolved(
                spec_resolve(views_of(args@)),
                case_insensitive,
            ),
            r matches Err(e) ==> e@ is FilterBuildFailed,
    {
        let ghost v = views_of(args@);
        let ghost full = spec_resolve(v);
        let mut filter = PaperFilter::default();
        let ghost mut done: Seq<(FilterField, Seq<char>)> = Seq::empty();
        let mut i: usize = 0;
        proof {
            assert(v.skip(0) =~= v);
            assert(Seq::<(FilterField, Seq<char>)>::empty() + spec_resolve(v) =~= spec_resolve(
                v,
            ));
            assert(field_patterns(done, FilterField::Title, case_insensitive)
                =~= Seq::<PatternView>::empty());
        }
        while i < args.len()
            invariant
                i <= args@.len(),
                v == views_of(args@),
                full == spec_resolve(v),
                full == done + spec_resolve(v.skip(i as int)),
                all_compile(done, case_insensitive),
                filter@ == filter_from_resolved(done, case_insensitive),
            decreases args@.len() - i,
        {
            let ghost iold = i as int;
            let ghost done0 = done;
            proof {
                assert(v.skip(iold)[0] == v[iold]);
                assert(v.skip(iold).len() == v.len() - iold);
            }
            let a = &args[i];
            let kwf = keyword_field(a);
            let ghost x: (FilterField, Seq<char>);
            let item: &String;
            let field: FilterField;
            match kwf {
                Some(f) => {
                    if i + 1 < args.len() {
                        item = &args[i + 1];
                        field = f;
                        proof {
                            assert(v.skip(iold)[1] == v[iold + 1]);
                            assert(v.skip(iold).skip(2) =~= v.skip(iold + 2));
                            x = (kw_field(v[iold]), v[iold + 1]);
                            assert(spec_resolve(v.skip(iold)) == seq![x] + spec_resolve(
                                v.skip(iold + 2),
                            ));
                        }
                        i = i + 2;
                    } else {
                        item = a;
                        field = FilterField::Title;
                        proof {
                            assert(v.skip(iold).skip(1) =~= v.skip(iold + 1));
                            x = (FilterField::Title, v[iold]);
                            assert(spec_resolve(v.skip(iold)) == seq![x] + spec_resolve(
                                v.skip(iold + 1),
                            ));
                        }
                        i = i + 1;
                    }
                },
                None => {
                    item = a;
                    field = FilterField::Title;
                    proof {
                        assert(v.skip(iold).skip(1) =~= v.skip(iold + 1));
                        x = (FilterField::Title, v[iold]);
                        assert(spec_resolve(v.skip(iold)) == seq![x] + spec_resolve(
                            v.skip(iold + 1),
                        ));
                    }
                    i = i + 1;
                },
            }
            match build_pattern(item, case_insensitive) {
                Ok(p) => {
                    proof {
                        assert(p@ == (PatternView { text: x.1, case_insensitive }));
                    }
                    push_to(&mut filter, field, p);
                    proof {
                        lemma_field_patterns_push(done0, x, case_insensitive);
                        done = done0.push(x);
                        assert((done0 + (seq![x] + spec_resolve(v.skip(i as int)))) =~= done
                            + spec_resolve(v.skip(i as int)));
                        assert(filter@ =~= filter_from_resolved(done, case_insensitive));
                    }
                },
                Err(e) => {
                    proof {
                        assert((seq![x] + spec_resolve(v.skip(i as int)))[0] == x);
                        assert(full[done0.len() as int] == x);
                        assert(!pattern_compiles(full[done0.len() as int].1, case_insensitive));
                    }
                    return Err(Fallacy::FilterBuildFailed(regex_error_message(&e)));
                },
            }
        }
        proof {
            assert(v.skip(args@.len() as int) =~= Seq::<Seq<char>>::empty());
            assert(done + spec_resolve(v.skip(args@.len() as int)) =~= done);
        }
        Ok(filter)
    }
}

/// Law: merging two filters concatenates each field of the first with that
/// field of the second, in order.
pub proof fn lemma_merge_pair(a: PaperFilterView, b: PaperFilterView)
    ensures
        merge_views(seq![a, b]) == append_filter_views(a, b),
{
    reveal_with_fuel(merge_views, 4);
    assert(seq![a, b].drop_last() =~= seq![a]);
    assert(seq![a, b].last() == b);
    assert(seq![a].drop_last() =~= Seq::<PaperFilterView>::empty());
    assert(seq![a].last() == a);
    assert(append_filter_views(empty_filter_view(), a) =~= a);
    assert(append_filter_views(append_filter_views(empty_filter_view(), a), b) =~= append_filter_views(
        a,
        b,
    ));
}

/// Law: merging is associative: merging a concatenation of filter sequences
/// equals the field-wise concatenation of their merges.
pub proof fn lemma_merge_append(fs1: Seq<PaperFilterView>, fs2: Seq<PaperFilterView>)
    ensures
        merge_views(fs1 + fs2) == append_filter_views(merge_views(fs1), merge_views(fs2)),
    decreases fs2.len(),
{
    if fs2.len() == 0 {
        assert(fs1 + fs2 =~= fs1);
        assert(append_filter_views(merge_views(fs1), empty_filter_view()) =~= merge_views(fs1));
    } else {
        lemma_merge_append(fs1, fs2.drop_last());
        assert((fs1 + fs2).drop_last() =~= fs1 + fs2.drop_last());
        assert((fs1 + fs2).last() == fs2.last());
        assert(append_filter_views(
            append_filter_views(merge_views(fs1), merge_views(fs2.drop_last())),
            fs2.last(),
        ) =~= append_filter_views(
            merge_views(fs1),
            append_filter_views(merge_views(fs2.drop_last()), fs2.last()),
        ));
    }
}


/// The pattern texts of a field's list.
pub open spec fn patterns_texts(ps: Seq<PatternView>) -> Seq<Seq<char>> {
    ps.map_values(|p: PatternView| p.text)
}

/// One rendered constraint: the field name, whether it must match or must
/// not, and the patterns joined with `' & '`.
pub open spec fn seg_text(name: Seq<char>, positive: bool, ps: Seq<PatternView>) -> Seq<char> {
    name + (if positive {
        " matches '"@
    } else {
        " does not match '"@
    }) + crate::strutil::join_sep(patterns_texts(ps), "' & '"@) + "'"@
}

/// The rendering of a whole filter: one segment per non-empty field, joined
/// with commas, or a note that no filters are active; a newline ends either.
pub open spec fn filter_display(f: PaperFilterView) -> Seq<char> {
    let segs = (if f.title.len() > 0 {
        seq![seg_text("title"@, true, f.title)]
    } else {
        Seq::empty()
    }) + (if f.nickname.len() > 0 {
        seq![seg_text("nickname"@, true, f.nickname)]
    } else {
        Seq::empty()
    }) + (if f.author.len() > 0 {
        seq![seg_text("author"@, true, f.author)]
    } else {
        Seq::empty()
    }) + (if f.first_author.len() > 0 {
        seq![seg_text("first_author"@, true, f.first_author)]
    } else {
        Seq::empty()
    }) + (if f.venue.len() > 0 {
        seq![seg_text("venue"@, true, f.venue)]
    } else {
        Seq::empty()
    }) + (if f.year.len() > 0 {
        seq![seg_text("year"@, true, f.year)]
    } else {
        Seq::empty()
    }) + (if f.is_label.len() > 0 {
        seq![seg_text("label"@, true, f.is_label)]
    } else {
        Seq::empty()
    }) + (if f.not_label.len() > 0 {
        seq![seg_text("label"@, false, f.not_label)]
    } else {
        Seq::empty()
    });
    if segs.len() == 0 {
        "No filters are active.\n"@
    } else {
        crate::strutil::join_sep(segs, ", "@) + "\n"@
    }
}

/// The texts the patterns were compiled from.
fn texts_of(ps: &Vec<Pattern>) -> (r: Vec<String>)
    ensures
        views_of(r@) == patterns_texts(patterns_view(ps@)),
{
    let mut r: Vec<String> = Vec::new();
    let mut i: usize = 0;
    while i < ps.len()
        invariant
            i <= ps@.len(),
            r@.len() == i,
            forall|k: int| 0 <= k < i ==> #[trigger] r@[k]@ == ps@[k]@.text,
        decreases ps@.len() - i,
    {
        r.push(ps[i].text.clone());
        i = i + 1;
    }
    proof {
        assert(views_of(r@) =~= patterns_texts(patterns_view(ps@)));
    }
    r
}

/// Render one constraint segment.
fn seg_string(name: &str, positive: bool, ps: &Vec<Pattern>) -> (r: String)
    ensures
        r@ == seg_text(name@, positive, patterns_view(ps@)),
{
    let texts = texts_of(ps);
    let joined = crate::strutil::join_strings(&texts, "' & '");
    let mut r = name.to_owned();
    if positive {
        r.append(" matches '");
    } else {
        r.append(" does not match '");
    }
    r.append(joined.as_str());
    r.append("'");
    r
}

impl PaperFilter {
    /// Render the filter for the user: one clause per constrained field, or
    /// a note that no filters are active.
    #[verifier::rlimit(60)]
    pub fn to_display_string(&self) -> (r: String)
        ensures
            r@ == filter_display(self@),
    {
        let mut segs: Vec<String> = Vec::new();
        if self.title.len() > 0 {
            segs.push(seg_string("title", true, &self.title));
        }
        if self.nickname.len() > 0 {
            segs.push(seg_string("nickname", true, &self.nickname));
        }
        if self.author.len() > 0 {
            segs.push(seg_string("author", true, &self.author));
        }
        if self.first_author.len() > 0 {
            segs.push(seg_string("first_author", true, &self.first_author));
        }
        if self.venue.len() > 0 {
            segs.push(seg_string("venue", true, &self.venue));
        }
        if self.year.len() > 0 {
            segs.push(seg_string("year", true, &self.year));
        }
        if self.is_label.len() > 0 {
            segs.push(seg_string("label", true, &self.is_label));
        }
        if self.not_label.len() > 0 {
            segs.push(seg_string("label", false, &self.not_label));
        }
        proof {
            let f = self@;
            let spec_segs = (if f.title.len() > 0 {
                seq![seg_text("title"@, true, f.title)]
            } else {
                Seq::empty()
            }) + (if f.nickname.len() > 0 {
                seq![seg_text("nickname"@, true, f.nickname)]
            } else {
                Seq::empty()
            }) + (if f.author.len() > 0 {
                seq![seg_text("author"@, true, f.author)]
            } else {
                Seq::empty()
            }) + (if f.first_author.len() > 0 {
                seq![seg_text("first_author"@, true, f.first_author)]
            } else {
                Seq::empty()
            }) + (if f.venue.len() > 0 {
                seq![seg_text("venue"@, true, f.venue)]
            } else {
                Seq::empty()
            }) + (if f.year.len() > 0 {
                seq![seg_text("year"@, true, f.year)]
            } else {
                Seq::empty()
            }) + (if f.is_label.len() > 0 {
                seq![seg_text("label"@, true, f.is_label)]
            } else {
                Seq::empty()
            }) + (if f.not_label.len() > 0 {
                seq![seg_text("label"@, false, f.not_label)]
            } else {
                Seq::empty()
            });
            assert(views_of(segs@) =~= spec_segs);
        }
        if segs.len() == 0 {
            String::from_str("No filters are active.\n")
        } else {
            let mut r = crate::strutil::join_strings(&segs, ", ");
            r.append("\n");
            r
        }
    }
}

} // verus!
