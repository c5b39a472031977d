//! Character-level string helpers: the shell's parsing and rendering work on
//! character sequences, so strings are taken apart into `Vec<char>` and put
//! back together here.

use vstd::prelude::*;

verus! {

use vstd::string::StringExecFns;
use vstd::string::StrSliceExecFns;

/// The characters with the Unicode `White_Space` property: the set that
/// `char::is_whitespace` recognizes.
pub open spec fn is_ws(c: char) -> bool {
    ||| c == ' '
    ||| c == '\t'
    ||| c == '\n'
    ||| c == '\u{b}'
    ||| c == '\u{c}'
    ||| c == '\r'
    ||| c == '\u{85}'
    ||| c == '\u{a0}'
    ||| c == '\u{1680}'
    ||| c == '\u{2000}'
    ||| c == '\u{2001}'
    ||| c == '\u{2002}'
    ||| c == '\u{2003}'
    ||| c == '\u{2004}'
    ||| c == '\u{2005}'
    ||| c == '\u{2006}'
    ||| c == '\u{2007}'
    ||| c == '\u{2008}'
    ||| c == '\u{2009}'
    ||| c == '\u{200a}'
    ||| c == '\u{2028}'
    ||| c == '\u{2029}'
    ||| c == '\u{202f}'
    ||| c == '\u{205f}'
    ||| c == '\u{3000}'
}

/// Decide `is_ws` executably.
pub fn is_whitespace_char(c: char) -> (r: bool)
    ensures
        r == is_ws(c),
{
    c == ' ' || c == '\t' || c == '\n' || c == '\u{b}' || c == '\u{c}' || c == '\r' || c
        == '\u{85}' || c == '\u{a0}' || c == '\u{1680}' || c == '\u{2000}' || c == '\u{2001}' || c
        == '\u{2002}' || c == '\u{2003}' || c == '\u{2004}' || c == '\u{2005}' || c == '\u{2006}'
        || c == '\u{2007}' || c == '\u{2008}' || c == '\u{2009}' || c == '\u{200a}' || c
        == '\u{2028}' || c == '\u{2029}' || c == '\u{202f}' || c == '\u{205f}' || c == '\u{3000}'
}

/// Compare two string slices by their character sequences.
pub fn str_eq(a: &str, b: &str) -> (r: bool)
    ensures
        r == (a@ == b@),
{
    let x = a.to_owned();
    let y = b.to_owned();
    x == y
}

/// The characters of `s`, in order.
pub fn chars_of(s: &str) -> (r: Vec<char>)
    ensures
        r@ == s@,
{
    let n = s.unicode_len();
    let mut v: Vec<char> = Vec::new();
    let mut i: usize = 0;
    while i < n
        invariant
            i <= n,
            n == s@.len(),
            v@ == s@.take(i as int),
        decreases n - i,
    {
        let c = s.get_char(i);
        v.push(c);
        i = i + 1;
        proof {
            assert(v@ =~= s@.take(i as int));
        }
    }
    proof {
        assert(s@.take(n as int) =~= s@);
    }
    v
}

/// Relies on std's `String::push`: appends one character to the string.
#[verifier::external_body]
fn push_char(s: &mut String, c: char)
    ensures
        final(s)@ == old(s)@.push(c),
{
    s.push(c);
}

/// A `String` holding exactly the characters of `chars`.
pub fn string_from(chars: &Vec<char>) -> (r: String)
    ensures
        r@ == chars@,
{
    let mut r = String::new();
    let mut i: usize = 0;
    while i < chars.len()
        invariant
            i <= chars@.len(),
            r@ == chars@.take(i as int),
        decreases chars@.len() - i,
    {
        push_char(&mut r, chars[i]);
        i = i + 1;
        proof {
            assert(r@ =~= chars@.take(i as int));
        }
    }
    proof {
        assert(chars@.take(chars@.len() as int) =~= chars@);
    }
    r
}

/// The character views of a sequence of strings.
pub open spec fn views_of(v: Seq<String>) -> Seq<Seq<char>> {
    v.map_values(|s: String| s@)
}

/// A copy of a vector of strings, equal element by element.
pub fn clone_string_vec(v: &Vec<String>) -> (r: Vec<String>)
    ensures
        r@ == v@,
{
    let mut r: Vec<String> = Vec::new();
    let mut i: usize = 0;
    while i < v.len()
        invariant
            i <= v@.len(),
            r@ == v@.take(i as int),
        decreases v@.len() - i,
    {
        r.push(v[i].clone());
        i = i + 1;
        proof {
            assert(r@ =~= v@.take(i as int));
        }
    }
    proof {
        assert(v@.take(v@.len() as int) =~= v@);
    }
    r
}


/// `s` with leading whitespace removed.
pub open spec fn trim_front(s: Seq<char>) -> Seq<char>
    decreases s.len(),
{
    if s.len() > 0 && is_ws(s[0]) {
        trim_front(s.skip(1))
    } else {
        s
    }
}

/// `s` with trailing whitespace removed.
pub open spec fn trim_back(s: Seq<char>) -> Seq<char>
    decreases s.len(),
{
    if s.len() > 0 && is_ws(s.last()) {
        trim_back(s.drop_last())
    } else {
        s
    }
}

/// `s` with whitespace removed from both ends.
pub open spec fn trimmed(s: Seq<char>) -> Seq<char> {
    trim_back(trim_front(s))
}

proof fn lemma_trim_front_at(s: Seq<char>, j: int)
    requires
        0 <= j <= s.len(),
        forall|k: int| 0 <= k < j ==> is_ws(s[k]),
        j == s.len() || !is_ws(s[j]),
    ensures
        trim_front(s) == s.skip(j),
    decreases j,
{
    if j == 0 {
        assert(s.skip(0) =~= s);
    } else {
        assert(is_ws(s[0]));
        assert forall|k: int| 0 <= k < j - 1 implies is_ws(s.skip(1)[k]) by {
            assert(s.skip(1)[k] == s[k + 1]);
        }
        assert(j - 1 == s.skip(1).len() || !is_ws(s.skip(1)[j - 1]));
        lemma_trim_front_at(s.skip(1), j - 1);
        assert(s.skip(1).skip(j - 1) =~= s.skip(j));
    }
}

proof fn lemma_trim_back_at(s: Seq<char>, j: int)
    requires
        0 <= j <= s.len(),
        forall|k: int| j <= k < s.len() ==> is_ws(s[k]),
        j == 0 || !is_ws(s[j - 1]),
    ensures
        trim_back(s) == s.take(j),
    decreases s.len() - j,
{
    if j == s.len() as int {
        if s.len() > 0 {
            assert(!is_ws(s.last()));
        }
        assert(s.take(j) =~= s);
    } else {
        assert(is_ws(s.last()));
        assert(s.drop_last().take(j) =~= s.take(j));
        lemma_trim_back_at(s.drop_last(), j);
    }
}

/// The trimmed characters of `piece` as a string.
pub fn trimmed_string(piece: &Vec<char>) -> (r: String)
    ensures
        r@ == trimmed(piece@),
{
    let n = piece.len();
    let mut lo: usize = 0;
    while lo < n && is_whitespace_char(piece[lo])
        invariant
            lo <= n,
            n == piece@.len(),
            forall|k: int| 0 <= k < lo ==> is_ws(piece@[k]),
        decreases n - lo,
    {
        lo = lo + 1;
    }
    let mut hi: usize = n;
    while hi > lo && is_whitespace_char(piece[hi - 1])
        invariant
            lo <= hi <= n,
            n == piece@.len(),
            forall|k: int| 0 <= k < lo ==> is_ws(piece@[k]),
            forall|k: int| hi <= k < n ==> is_ws(piece@[k]),
        decreases hi,
    {
        hi = hi - 1;
    }
    proof {
        lemma_trim_front_at(piece@, lo as int);
        let t = piece@.skip(lo as int);
        assert forall|k: int| hi - lo <= k < t.len() implies is_ws(t[k]) by {
            assert(t[k] == piece@[k + lo]);
        }
        if hi > lo {
            assert(t[hi - lo - 1] == piece@[hi - 1]);
        }
        lemma_trim_back_at(t, hi - lo);
        assert(trimmed(piece@) =~= piece@.subrange(lo as int, hi as int));
    }
    let mut r = String::new();
    let mut k: usize = lo;
    while k < hi
        invariant
            lo <= k <= hi <= piece@.len(),
            r@ == piece@.subrange(lo as int, k as int),
        decreases hi - k,
    {
        push_char(&mut r, piece[k]);
        k = k + 1;
        proof {
            assert(r@ =~= piece@.subrange(lo as int, k as int));
        }
    }
    proof {
        assert(r@ =~= piece@.subrange(lo as int, hi as int));
    }
    r
}

/// The comma-separated parts of `rest`, continuing the part `piece` already
/// begun; empty parts are kept.
pub open spec fn split_commas_go(piece: Seq<char>, s: Seq<char>) -> Seq<Seq<char>>
    decreases s.len(),
{
    if s.len() == 0 {
        seq![piece]
    } else if s[0] == ',' {
        seq![piece] + split_commas_go(Seq::empty(), s.skip(1))
    } else {
        split_commas_go(piece.push(s[0]), s.skip(1))
    }
}

/// The comma-separated parts of `s`; always at least one part.
pub open spec fn split_commas(s: Seq<char>) -> Seq<Seq<char>> {
    split_commas_go(Seq::empty(), s)
}

/// The comma-separated parts of `s`, each trimmed.
pub open spec fn split_trimmed(s: Seq<char>) -> Seq<Seq<char>> {
    split_commas(s).map_values(|p: Seq<char>| trimmed(p))
}

proof fn lemma_split_commas_go_len(piece: Seq<char>, s: Seq<char>)
    ensures
        split_commas_go(piece, s).len() >= 1,
    decreases s.len(),
{
    if s.len() == 0 {
    } else if s[0] == ',' {
        lemma_split_commas_go_len(Seq::empty(), s.skip(1))
    } else {
        lemma_split_commas_go_len(piece.push(s[0]), s.skip(1))
    }
}

/// Split `s` on commas and trim each part.
pub fn split_and_trim(s: &str) -> (r: Vec<String>)
    ensures
        views_of(r@) == split_trimmed(s@),
        r@.len() >= 1,
{
    let cs = chars_of(s);
    let n = cs.len();
    let mut piece: Vec<char> = Vec::new();
    let mut parts: Vec<String> = Vec::new();
    let ghost mut done: Seq<Seq<char>> = Seq::empty();
    proof {
        assert(s@.skip(0) =~= s@);
        assert(Seq::<Seq<char>>::empty() + split_commas(s@) =~= split_commas(s@));
    }
    let mut i: usize = 0;
    while i < n
        invariant
            i <= n,
            n == cs@.len(),
            cs@ == s@,
            split_commas(s@) == done + split_commas_go(piece@, s@.skip(i as int)),
            parts@.len() == done.len(),
            forall|k: int| 0 <= k < done.len() ==> #[trigger] parts@[k]@ == trimmed(done[k]),
        decreases n - i,
    {
        let ghost iold = i as int;
        let ghost done0 = done;
        proof {
            assert(s@.skip(iold)[0] == s@[iold]);
        }
        let c = cs[i];
        if c == ',' {
            let ghost piece0 = piece@;
            let part = trimmed_string(&piece);
            parts.push(part);
            piece = Vec::new();
            i = i + 1;
            proof {
                assert(s@.skip(iold).skip(1) =~= s@.skip(iold + 1));
                done = done0.push(piece0);
                assert(done0 + (seq![piece0] + split_commas_go(Seq::empty(), s@.skip(iold + 1)))
                    =~= done + split_commas_go(Seq::empty(), s@.skip(iold + 1)));
            }
        } else {
            piece.push(c);
            i = i + 1;
            proof {
                assert(s@.skip(iold).skip(1) =~= s@.skip(iold + 1));
            }
        }
    }
    let ghost piece0 = piece@;
    let part = trimmed_string(&piece);
    parts.push(part);
    proof {
        assert(s@.skip(n as int) =~= Seq::<char>::empty());
        assert(done + seq![piece0] =~= done.push(piece0));
        assert(split_commas(s@) == done.push(piece0));
        assert(views_of(parts@) =~= split_trimmed(s@));
        lemma_split_commas_go_len(Seq::empty(), s@);
    }
    parts
}

/// The parts joined with `sep` between each two.
pub open spec fn join_sep(parts: Seq<Seq<char>>, sep: Seq<char>) -> Seq<char>
    decreases parts.len(),
{
    if parts.len() == 0 {
        Seq::empty()
    } else if parts.len() == 1 {
        parts[0]
    } else {
        join_sep(parts.drop_last(), sep) + sep + parts.last()
    }
}

/// Join the strings with `sep` between each two.
pub fn join_strings(parts: &Vec<String>, sep: &str) -> (r: String)
    ensures
        r@ == join_sep(views_of(parts@), sep@),
{
    let mut r = String::new();
    let mut i: usize = 0;
    while i < parts.len()
        invariant
            i <= parts@.len(),
            r@ == join_sep(views_of(parts@).take(i as int), sep@),
        decreases parts@.len() - i,
    {
        if i > 0 {
            r.append(sep);
        }
        r.append(parts[i].as_str());
        i = i + 1;
        proof {
            let pv = views_of(parts@);
            assert(pv.take(i as int).drop_last() =~= pv.take(i - 1));
            assert(pv.take(i as int).last() == pv[i - 1]);
            if i == 1 {
                assert(Seq::<char>::empty() + pv[0] =~= pv[0]);
                assert(r@ =~= join_sep(pv.take(1), sep@));
            }
        }
    }
    proof {
        assert(views_of(parts@).take(parts@.len() as int) =~= views_of(parts@));
    }
    r
}


/// Split `s` on commas, keeping the parts as they are.
pub fn split_plain(s: &str) -> (r: Vec<String>)
    ensures
        views_of(r@) == split_commas(s@),
        r@.len() >= 1,
{
    let cs = chars_of(s);
    let n = cs.len();
    let mut piece: Vec<char> = Vec::new();
    let mut parts: Vec<String> = Vec::new();
    let ghost mut done: Seq<Seq<char>> = Seq::empty();
    proof {
        assert(s@.skip(0) =~= s@);
        assert(Seq::<Seq<char>>::empty() + split_commas(s@) =~= split_commas(s@));
    }
    let mut i: usize = 0;
    while i < n
        invariant
            i <= n,
            n == cs@.len(),
            cs@ == s@,
            split_commas(s@) == done + split_commas_go(piece@, s@.skip(i as int)),
            parts@.len() == done.len(),
            forall|k: int| 0 <= k < done.len() ==> #[trigger] parts@[k]@ == done[k],
        decreases n - i,
    {
        let ghost iold = i as int;
        let ghost done0 = done;
        proof {
            assert(s@.skip(iold)[0] == s@[iold]);
        }
        let c = cs[i];
        if c == ',' {
            let ghost piece0 = piece@;
            let part = string_from(&piece);
            parts.push(part);
            piece = Vec::new();
            i = i + 1;
            proof {
                assert(s@.skip(iold).skip(1) =~= s@.skip(iold + 1));
                done = done0.push(piece0);
                assert(done0 + (seq![piece0] + split_commas_go(Seq::empty(), s@.skip(iold + 1)))
                    =~= done + split_commas_go(Seq::empty(), s@.skip(iold + 1)));
            }
        } else {
            piece.push(c);
            i = i + 1;
            proof {
                assert(s@.skip(iold).skip(1) =~= s@.skip(iold + 1));
            }
        }
    }
    let ghost piece0 = piece@;
    let part = string_from(&piece);
    parts.push(part);
    proof {
        assert(s@.skip(n as int) =~= Seq::<char>::empty());
        assert(done + seq![piece0] =~= done.push(piece0));
        assert(split_commas(s@) == done.push(piece0));
        assert(views_of(parts@) =~= split_commas(s@));
        lemma_split_commas_go_len(Seq::empty(), s@);
    }
    parts
}

/// `s` with whitespace removed from both ends, as a fresh string.
pub fn trim_string(s: &str) -> (r: String)
    ensures
        r@ == trimmed(s@),
{
    let cs = chars_of(s);
    trimmed_string(&cs)
}

/// All occurrences of a label among others, removed, keeping the order.
pub open spec fn remove_label(ls: Seq<Seq<char>>, x: Seq<char>) -> Seq<Seq<char>>
    decreases ls.len(),
{
    if ls.len() == 0 {
        Seq::empty()
    } else {
        remove_label(ls.drop_last(), x) + (if ls.last() == x {
            Seq::empty()
        } else {
            seq![ls.last()]
        })
    }
}

/// Remove every string equal to `x` from `ls`, keeping the order.
pub fn remove_string(ls: &mut Vec<String>, x: &str)
    ensures
        views_of(final(ls)@) == remove_label(views_of(old(ls)@), x@),
{
    let ghost lv = views_of(old(ls)@);
    let mut out: Vec<String> = Vec::new();
    proof {
        assert(lv.take(0) =~= Seq::<Seq<char>>::empty());
    }
    let mut i: usize = 0;
    while i < ls.len()
        invariant
            i <= ls@.len(),
            ls@ == old(ls)@,
            lv == views_of(old(ls)@),
            out@.len() == remove_label(lv.take(i as int), x@).len(),
            forall|k: int|
                0 <= k < out@.len() ==> #[trigger] out@[k]@ == remove_label(
                    lv.take(i as int),
                    x@,
                )[k],
        decreases ls@.len() - i,
    {
        let keep = !str_eq(ls[i].as_str(), x);
        proof {
            assert(lv.take(i + 1).drop_last() =~= lv.take(i as int));
            assert(lv.take(i + 1).last() == lv[i as int]);
            assert(lv[i as int] == ls@[i as int]@);
            if keep {
                assert(remove_label(lv.take(i + 1), x@) =~= remove_label(
                    lv.take(i as int),
                    x@,
                ).push(lv[i as int]));
            } else {
                assert(remove_label(lv.take(i + 1), x@) =~= remove_label(lv.take(i as int), x@));
            }
        }
        if keep {
            out.push(ls[i].clone());
        }
        i = i + 1;
    }
    proof {
        assert(lv.take(ls@.len() as int) =~= lv);
    }
    *ls = out;
    proof {
        assert(views_of(ls@) =~= remove_label(lv, x@));
    }
}


/// The character of one decimal digit.
pub open spec fn dec_digit(d: int) -> char {
    if d == 0 {
        '0'
    } else if d == 1 {
        '1'
    } else if d == 2 {
        '2'
    } else if d == 3 {
        '3'
    } else if d == 4 {
        '4'
    } else if d == 5 {
        '5'
    } else if d == 6 {
        '6'
    } else if d == 7 {
        '7'
    } else if d == 8 {
        '8'
    } else {
        '9'
    }
}

/// The decimal rendering of `n`, most significant digit first.
pub open spec fn dec_str(n: nat) -> Seq<char>
    decreases n,
{
    if n < 10 {
        seq![dec_digit(n as int)]
    } else {
        dec_str(n / 10) + seq![dec_digit((n % 10) as int)]
    }
}

/// Append the decimal rendering of `n` to `s`.
fn push_dec(s: &mut String, n: usize)
    ensures
        final(s)@ == old(s)@ + dec_str(n as nat),
    decreases n,
{
    if n >= 10 {
        push_dec(s, n / 10);
    }
    let d = n % 10;
    let c: char = if d == 0 {
        '0'
    } else if d == 1 {
        '1'
    } else if d == 2 {
        '2'
    } else if d == 3 {
        '3'
    } else if d == 4 {
        '4'
    } else if d == 5 {
        '5'
    } else if d == 6 {
        '6'
    } else if d == 7 {
        '7'
    } else if d == 8 {
        '8'
    } else {
        '9'
    };
    push_char(s, c);
    proof {
        if n < 10 {
            assert(old(s)@ + dec_str(n as nat) =~= old(s)@.push(c));
        } else {
            assert(old(s)@ + dec_str(n as nat) =~= (old(s)@ + dec_str((n / 10) as nat)).push(c));
        }
    }
}

/// The decimal rendering of `n` as a string.
pub fn usize_to_string(n: usize) -> (r: String)
    ensures
        r@ == dec_str(n as nat),
{
    let mut r = String::new();
    push_dec(&mut r, n);
    proof {
        assert(Seq::<char>::empty() + dec_str(n as nat) =~= dec_str(n as nat));
    }
    r
}


/// The ASCII-lowercase image of one character; everything outside `A`..`Z`
/// is unchanged.
pub open spec fn ascii_lower_char(c: char) -> char {
    if c == 'A' {
        'a'
    } else if c == 'B' {
        'b'
    } else if c == 'C' {
        'c'
    } else if c == 'D' {
        'd'
    } else if c == 'E' {
        'e'
    } else if c == 'F' {
        'f'
    } else if c == 'G' {
        'g'
    } else if c == 'H' {
        'h'
    } else if c == 'I' {
        'i'
    } else if c == 'J' {
        'j'
    } else if c == 'K' {
        'k'
    } else if c == 'L' {
        'l'
    } else if c == 'M' {
        'm'
    } else if c == 'N' {
        'n'
    } else if c == 'O' {
        'o'
    } else if c == 'P' {
        'p'
    } else if c == 'Q' {
        'q'
    } else if c == 'R' {
        'r'
    } else if c == 'S' {
        's'
    } else if c == 'T' {
        't'
    } else if c == 'U' {
        'u'
    } else if c == 'V' {
        'v'
    } else if c == 'W' {
        'w'
    } else if c == 'X' {
        'x'
    } else if c == 'Y' {
        'y'
    } else if c == 'Z' {
        'z'
    } else {
        c
    }
}

/// The ASCII-lowercase image of a character sequence.
pub open spec fn ascii_lower(s: Seq<char>) -> Seq<char> {
    s.map_values(|c: char| ascii_lower_char(c))
}

/// Lowercase the ASCII letters of `cs`.
pub fn lower_chars(cs: &Vec<char>) -> (r: Vec<char>)
    ensures
        r@ == ascii_lower(cs@),
{
    let mut r: Vec<char> = Vec::new();
    let mut i: usize = 0;
    while i < cs.len()
        invariant
            i <= cs@.len(),
            r@.len() == i,
            forall|k: int| 0 <= k < i ==> #[trigger] r@[k] == ascii_lower_char(cs@[k]),
        decreases cs@.len() - i,
    {
        let c = cs[i];
        let low: char = match c {
        'A' => 'a',
        'B' => 'b',
        'C' => 'c',
        'D' => 'd',
        'E' => 'e',
        'F' => 'f',
        'G' => 'g',
        'H' => 'h',
        'I' => 'i',
        'J' => 'j',
        'K' => 'k',
        'L' => 'l',
        'M' => 'm',
        'N' => 'n',
        'O' => 'o',
        'P' => 'p',
        'Q' => 'q',
        'R' => 'r',
        'S' => 's',
        'T' => 't',
        'U' => 'u',
        'V' => 'v',
        'W' => 'w',
        'X' => 'x',
        'Y' => 'y',
        'Z' => 'z',
            other => other,
        };
        r.push(low);
        i = i + 1;
    }
    proof {
        assert(r@ =~= ascii_lower(cs@));
    }
    r
}

/// Whether `c` is a decimal digit.
pub open spec fn is_dec_digit(c: char) -> bool {
    '0' <= c && c <= '9'
}

/// The value of one decimal digit; defined only over digits.
pub open spec fn digit_value(c: char) -> int {
    if c == '0' {
        0
    } else if c == '1' {
        1
    } else if c == '2' {
        2
    } else if c == '3' {
        3
    } else if c == '4' {
        4
    } else if c == '5' {
        5
    } else if c == '6' {
        6
    } else if c == '7' {
        7
    } else if c == '8' {
        8
    } else if c == '9' {
        9
    } else {
        0
    }
}

/// How reading a number out of a string can fail.
#[derive(Clone, Copy, PartialEq, Eq, Structural, Debug)]
pub enum NumParseError {
    /// The string is empty.
    Empty,
    /// A character is not a decimal digit.
    InvalidDigit,
    /// The value does not fit the target type.
    TooLarge,
}

/// Scan decimal digits left to right onto the accumulator `acc`, stopping
/// at the first character that is not a digit or the first step past `max`.
pub open spec fn parse_scan(s: Seq<char>, acc: nat, max: nat) -> Result<nat, NumParseError>
    decreases s.len(),
{
    if s.len() == 0 {
        Ok(acc)
    } else if !is_dec_digit(s[0]) {
        Err(NumParseError::InvalidDigit)
    } else if acc * 10 + digit_value(s[0]) > max {
        Err(NumParseError::TooLarge)
    } else {
        parse_scan(s.skip(1), (acc * 10 + digit_value(s[0])) as nat, max)
    }
}

/// What parsing a `usize` from `s` yields: an optional leading `+`, then at
/// least one decimal digit, with the value within range; the first offending
/// character decides the error.
pub open spec fn spec_parse_usize(s: Seq<char>) -> Result<nat, NumParseError> {
    if s.len() == 0 {
        Err(NumParseError::Empty)
    } else {
        let body = if s[0] == '+' {
            s.skip(1)
        } else {
            s
        };
        if body.len() == 0 {
            Err(NumParseError::InvalidDigit)
        } else {
            parse_scan(body, 0, usize::MAX as nat)
        }
    }
}

/// Read a `usize` out of `s`: an optional leading `+` and decimal digits.
pub fn parse_usize(s: &str) -> (r: Result<usize, NumParseError>)
    ensures
        match (r, spec_parse_usize(s@)) {
            (Ok(v), Ok(sv)) => v as nat == sv,
            (Err(e), Err(se)) => e == se,
            _ => false,
        },
{
    let cs = chars_of(s);
    let n = cs.len();
    if n == 0 {
        return Err(NumParseError::Empty);
    }
    let start: usize = if cs[0] == '+' {
        1
    } else {
        0
    };
    let ghost body = if s@[0] == '+' {
        s@.skip(1)
    } else {
        s@
    };
    if start == n {
        return Err(NumParseError::InvalidDigit);
    }
    proof {
        assert(body.len() == n - start);
        assert(body.skip(0) =~= body);
    }
    let mut val: usize = 0;
    let mut i: usize = start;
    while i < n
        invariant
            start <= i <= n,
            n == cs@.len(),
            cs@ == s@,
            body == (if s@[0] == '+' {
                s@.skip(1)
            } else {
                s@
            }),
            s@.len() > 0,
            body.len() == n - start,
            parse_scan(body, 0, usize::MAX as nat) == parse_scan(
                body.skip(i - start),
                val as nat,
                usize::MAX as nat,
            ),
        decreases n - i,
    {
        let ghost iold = i as int;
        let ghost rest = body.skip(iold - start as int);
        proof {
            assert(rest[0] == body[iold - start as int]);
            assert(body[iold - start as int] == s@[iold]);
            assert(rest.skip(1) =~= body.skip(iold + 1 - start as int));
        }
        let c = cs[i];
        let d: usize = match c {
            '0' => 0,
            '1' => 1,
            '2' => 2,
            '3' => 3,
            '4' => 4,
            '5' => 5,
            '6' => 6,
            '7' => 7,
            '8' => 8,
            '9' => 9,
            _ => {
                proof {
                    assert(!is_dec_digit(rest[0]));
                }
                return Err(NumParseError::InvalidDigit);
            },
        };
        proof {
            assert(digit_value(rest[0]) == d as int);
        }
        if val > usize::MAX / 10 || (val == usize::MAX / 10 && d > usize::MAX % 10) {
            proof {
                assert(usize::MAX as int == 10 * ((usize::MAX / 10) as int) + ((usize::MAX
                    % 10) as int));
                assert((val as int) * 10 + (d as int) > usize::MAX as int);
            }
            return Err(NumParseError::TooLarge);
        }
        proof {
            assert(usize::MAX as int == 10 * ((usize::MAX / 10) as int) + ((usize::MAX
                % 10) as int));
            assert((val as int) * 10 + (d as int) <= usize::MAX as int);
        }
        val = val * 10 + d;
        i = i + 1;
    }
    proof {
        assert(body.skip(body.len() as int) =~= Seq::<char>::empty());
    }
    Ok(val)
}

} // verus!
