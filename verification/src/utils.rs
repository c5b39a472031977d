//! Path and filename helpers: tilde expansion against the user's home
//! directory, filesystem-safe filenames, and fresh note/file paths.

use vstd::prelude::*;

verus! {

use crate::error::{Fallacy, FallacyView};
use crate::strutil::{
    ascii_lower, chars_of, dec_str, is_ws, lower_chars, parse_usize, spec_parse_usize, str_eq,
    string_from, trim_string, trimmed, trimmed_string, usize_to_string, NumParseError,
};
use vstd::string::StringExecFns;

/// Relies on home::home_dir: the home directory the environment names, as a
/// string; `None` when the environment names none or the path is not valid
/// UTF-8. The result depends on the environment, so nothing is assumed of
/// it.
#[verifier::external_body]
pub fn home_dir_string() -> (r: Option<String>) {
    match home::home_dir() {
        Some(p) => match p.to_str() {
            Some(s) => Some(s.to_string()),
            None => None,
        },
        None => None,
    }
}

/// What tilde expansion yields for a given path and home directory: a path
/// not starting with `~` is unchanged; otherwise the home directory replaces
/// the leading `~/`, and a missing home directory is an error.
pub open spec fn spec_expand_tilde(path: Seq<char>, home: Option<Seq<char>>) -> Result<
    Seq<char>,
    FallacyView,
> {
    if path.len() == 0 || path[0] != '~' {
        Ok(path)
    } else {
        match home {
            None => Err(FallacyView::Homeless),
            Some(h) => Ok(
                if path.len() >= 2 {
                    h + seq!['/'] + path.skip(2)
                } else {
                    h
                },
            ),
        }
    }
}

/// Expand a leading tilde against the given home directory.
pub fn expand_tilde_with(path: &str, home: Option<&String>) -> (r: Result<String, Fallacy>)
    ensures
        match (r, spec_expand_tilde(
            path@,
            match home {
                Some(h) => Some(h@),
                None => None,
            },
        )) {
            (Ok(p), Ok(pv)) => p@ == pv,
            (Err(e), Err(ev)) => e@ == ev,
            _ => false,
        },
{
    let cs = chars_of(path);
    if cs.len() == 0 || cs[0] != '~' {
        return Ok(path.to_owned());
    }
    match home {
        None => Err(Fallacy::Homeless),
        Some(h) => {
            if cs.len() >= 2 {
                let mut r = h.clone();
                r.append("/");
                let mut rest: Vec<char> = Vec::new();
                let mut i: usize = 2;
                while i < cs.len()
                    invariant
                        2 <= i <= cs@.len(),
                        cs@ == path@,
                        rest@ == path@.subrange(2, i as int),
                    decreases cs@.len() - i,
                {
                    rest.push(cs[i]);
                    i = i + 1;
                    proof {
                        assert(rest@ =~= path@.subrange(2, i as int));
                    }
                }
                let tail = string_from(&rest);
                r.append(tail.as_str());
                proof {
                    reveal_strlit("/");
                    assert("/"@ =~= seq!['/']);
                    assert(path@.subrange(2, path@.len() as int) =~= path@.skip(2));
                    assert(r@ =~= h@ + seq!['/'] + path@.skip(2));
                }
                Ok(r)
            } else {
                Ok(h.clone())
            }
        },
    }
}

/// Whether a path begins with a tilde, making its expansion depend on the
/// home directory.
pub open spec fn starts_tilde(s: Seq<char>) -> bool {
    s.len() > 0 && s[0] == '~'
}

/// Whether `to` is the tilde expansion of `from` under some home directory.
pub open spec fn expanded_some(from: Seq<char>, to: Seq<char>) -> bool {
    exists|h: Option<Seq<char>>| #[trigger] spec_expand_tilde(from, h) == Ok::<
        Seq<char>,
        FallacyView,
    >(to)
}

/// Expands the leading tilde (~) in the given path with the current user's
/// home directory, whatever the environment says that is. A path without a
/// leading tilde needs no home directory and passes through unchanged.
pub fn expand_tilde_str(path: &String) -> (r: Result<String, Fallacy>)
    ensures
        r matches Ok(p) ==> expanded_some(path@, p@),
        r matches Err(e) ==> e@ is Homeless && starts_tilde(path@),
        !starts_tilde(path@) ==> (r matches Ok(p) && p@ == path@),
{
    let home = home_dir_string();
    let ghost hv: Option<Seq<char>> = match home {
        Some(ref h) => Some(h@),
        None => None,
    };
    let r = expand_tilde_with(path.as_str(), home.as_ref());
    proof {
        if r is Ok {
            assert(spec_expand_tilde(path@, hv) == Ok::<Seq<char>, FallacyView>(
                (r->Ok_0)@,
            ));
        }
    }
    r
}

/// Whether `c` survives into a filename.
pub open spec fn is_filename_char(c: char) -> bool {
    c == '-' || ('0' <= c && c <= '9') || ('a' <= c && c <= 'z') || ('A' <= c && c <= 'Z')
}

/// The filename a title becomes: whitespace turns into hyphens and every
/// other character that is not ASCII alphanumeric or a hyphen is dropped.
pub open spec fn spec_as_filename(s: Seq<char>) -> Seq<char>
    decreases s.len(),
{
    if s.len() == 0 {
        Seq::empty()
    } else {
        spec_as_filename(s.drop_last()) + (if is_ws(s.last()) {
            seq!['-']
        } else if is_filename_char(s.last()) {
            seq![s.last()]
        } else {
            Seq::empty()
        })
    }
}

/// Generate an appropriate filename from a paper title: replace whitespace
/// with hyphens and drop all other non-alphanumeric characters.
pub fn as_filename(title: &str) -> (r: String)
    ensures
        r@ == spec_as_filename(title@),
{
    let cs = chars_of(title);
    let mut out: Vec<char> = Vec::new();
    let mut i: usize = 0;
    while i < cs.len()
        invariant
            i <= cs@.len(),
            cs@ == title@,
            out@ == spec_as_filename(title@.take(i as int)),
        decreases cs@.len() - i,
    {
        let c = cs[i];
        if crate::strutil::is_whitespace_char(c) {
            out.push('-');
        } else if c == '-' || ('0' <= c && c <= '9') || ('a' <= c && c <= 'z') || ('A' <= c && c
            <= 'Z') {
            out.push(c);
        }
        i = i + 1;
        proof {
            assert(title@.take(i as int).drop_last() =~= title@.take(i - 1));
            assert(title@.take(i as int).last() == title@[i - 1]);
            assert(out@ =~= spec_as_filename(title@.take(i as int)));
        }
    }
    proof {
        assert(title@.take(cs@.len() as int) =~= title@);
    }
    string_from(&out)
}

/// Relies on std::path::Path::exists: whether something exists at the path
/// on this machine right now; no two calls need agree, so nothing is
/// assumed of the result.
#[verifier::external_body]
fn path_exists(p: &String) -> bool {
    std::path::Path::new(p.as_str()).exists()
}

/// The path tried at a given attempt: `dir/name[-attempt]ext`.
pub open spec fn candidate_path(
    dir: Seq<char>,
    name: Seq<char>,
    ext: Seq<char>,
    attempt: nat,
) -> Seq<char> {
    dir + seq!['/'] + name + (if attempt == 0 {
        Seq::empty()
    } else {
        seq!['-'] + dec_str(attempt)
    }) + ext
}

/// Build the path `dir/name[-attempt]ext`.
fn build_candidate(dir: &str, name: &str, ext: &str, attempt: usize) -> (r: String)
    ensures
        r@ == candidate_path(dir@, name@, ext@, attempt as nat),
{
    let mut r = dir.to_owned();
    r.append("/");
    r.append(name);
    if attempt > 0 {
        r.append("-");
        let num = usize_to_string(attempt);
        r.append(num.as_str());
    }
    r.append(ext);
    proof {
        reveal_strlit("/");
        reveal_strlit("-");
        assert("/"@ =~= seq!['/']);
        assert("-"@ =~= seq!['-']);
        assert(r@ =~= candidate_path(dir@, name@, ext@, attempt as nat));
    }
    r
}

/// Append hyphen-numbers to the file name until a path is reached where the
/// filesystem reports nothing present; what the filesystem reports is its
/// own business, so the contract promises only the shape of the result.
pub fn make_unique_path(dir: &str, name: &str, ext: &str) -> (r: String)
    ensures
        exists|a: nat| r@ == candidate_path(dir@, name@, ext@, a),
{
    let mut attempt: usize = 0;
    loop
        invariant
            attempt <= usize::MAX,
        decreases usize::MAX - attempt,
    {
        let candidate = build_candidate(dir, name, ext, attempt);
        if !path_exists(&candidate) {
            return candidate;
        }
        if attempt == usize::MAX {
            return candidate;
        }
        attempt = attempt + 1;
    }
}


/// What a confirmation reply means: the reply is ASCII-lowercased and
/// trimmed; `y`/`yes` accepts, `n`/`no` declines, an empty reply takes the
/// default, and anything else is an unusable answer. A declined
/// confirmation is a normal negative result, not a crash.
pub open spec fn spec_confirm_reply(reply: Seq<char>, default_yes: bool) -> Result<
    (),
    FallacyView,
> {
    let t = trimmed(ascii_lower(reply));
    if t == "y"@ || t == "yes"@ {
        Ok(())
    } else if t == "n"@ || t == "no"@ {
        Err(FallacyView::FailedUserInteraction(Seq::empty()))
    } else if t.len() == 0 {
        if default_yes {
            Ok(())
        } else {
            Err(FallacyView::FailedUserInteraction(Seq::empty()))
        }
    } else {
        Err(FallacyView::FailedUserInteraction("Invalid input."@))
    }
}

/// Interpret a confirmation reply.
pub fn confirm_answer(reply: &str, default_yes: bool) -> (r: Result<(), Fallacy>)
    ensures
        match (r, spec_confirm_reply(reply@, default_yes)) {
            (Ok(()), Ok(())) => true,
            (Err(e), Err(ev)) => e@ == ev,
            _ => false,
        },
{
    let cs = chars_of(reply);
    let lowered = lower_chars(&cs);
    let t = trimmed_string(&lowered);
    if str_eq(t.as_str(), "y") || str_eq(t.as_str(), "yes") {
        Ok(())
    } else if str_eq(t.as_str(), "n") || str_eq(t.as_str(), "no") {
        Err(Fallacy::FailedUserInteraction(String::new()))
    } else if t.as_str().is_empty() {
        if default_yes {
            Ok(())
        } else {
            Err(Fallacy::FailedUserInteraction(String::new()))
        }
    } else {
        Err(Fallacy::FailedUserInteraction(String::from_str("Invalid input.")))
    }
}

/// What a selection reply means: the trimmed reply must read as an index
/// below the number of candidates; the first offending character decides
/// the parse error, exactly as reading an unsigned number does.
pub open spec fn spec_select_reply(reply: Seq<char>, candidates: int) -> Result<
    int,
    FallacyView,
> {
    match spec_parse_usize(trimmed(reply)) {
        Err(NumParseError::Empty) => Err(
            FallacyView::FailedUserInteraction("cannot parse integer from empty string"@),
        ),
        Err(NumParseError::InvalidDigit) => Err(
            FallacyView::FailedUserInteraction("invalid digit found in string"@),
        ),
        Err(NumParseError::TooLarge) => Err(
            FallacyView::FailedUserInteraction("number too large to fit in target type"@),
        ),
        Ok(v) => if v >= candidates {
            Err(FallacyView::FailedUserInteraction("Input out of range."@))
        } else {
            Ok(v as int)
        },
    }
}

/// Interpret a selection reply against the number of candidates offered.
pub fn select_answer(reply: &str, candidates: usize) -> (r: Result<usize, Fallacy>)
    ensures
        match (r, spec_select_reply(reply@, candidates as int)) {
            (Ok(v), Ok(sv)) => v as int == sv,
            (Err(e), Err(ev)) => e@ == ev,
            _ => false,
        },
{
    let t = trim_string(reply);
    match parse_usize(t.as_str()) {
        Err(NumParseError::Empty) => Err(
            Fallacy::FailedUserInteraction(
                String::from_str("cannot parse integer from empty string"),
            ),
        ),
        Err(NumParseError::InvalidDigit) => Err(
            Fallacy::FailedUserInteraction(String::from_str("invalid digit found in string")),
        ),
        Err(NumParseError::TooLarge) => Err(
            Fallacy::FailedUserInteraction(
                String::from_str("number too large to fit in target type"),
            ),
        ),
        Ok(num) => {
            if num >= candidates {
                Err(Fallacy::FailedUserInteraction(String::from_str("Input out of range.")))
            } else {
                Ok(num)
            }
        },
    }
}

} // verus!
