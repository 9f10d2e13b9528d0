//! Line searching: splitting a text into lines exactly as `str::lines`
//! does, substring containment, and the two search modes — case-sensitive
//! and case-insensitive — over the lines of a text, together with the
//! run configuration that selects between them.

use vstd::prelude::*;

verus! {

/// A line-break candidate with its carriage return removed: the final
/// `'\r'` of a segment that sat before a `'\n'`.
pub open spec fn strip_cr(t: Seq<char>) -> Seq<char> {
    if t.len() > 0 && t.last() == '\r' {
        t.drop_last()
    } else {
        t
    }
}

/// The lines of `s` from a scan that has `cur` accumulated as the current,
/// unfinished line. A `'\n'` closes the current line, stripping a `'\r'`
/// just before it; an unfinished non-empty line at the end of the text
/// still counts, so a final line break is optional.
pub open spec fn lines_from(s: Seq<char>, cur: Seq<char>) -> Seq<Seq<char>>
    decreases s.len(),
{
    if s.len() == 0 {
        if cur.len() == 0 {
            Seq::empty()
        } else {
            seq![cur]
        }
    } else if s.first() == '\n' {
        seq![strip_cr(cur)] + lines_from(s.drop_first(), Seq::empty())
    } else {
        lines_from(s.drop_first(), cur.push(s.first()))
    }
}

/// The lines of a text, as `str::lines` yields them: split at `'\n'` or
/// `"\r\n"`, with the final line break optional.
pub open spec fn spec_lines(s: Seq<char>) -> Seq<Seq<char>> {
    lines_from(s, Seq::empty())
}

/// Whether `needle` occurs contiguously somewhere in `hay` (anywhere, and
/// the empty needle occurs in everything).
pub open spec fn spec_contains(hay: Seq<char>, needle: Seq<char>) -> bool {
    exists|i: int|
        0 <= i <= hay.len() - needle.len() && #[trigger] hay.subrange(i, i + needle.len())
            == needle
}

/// The subsequence of `ls` whose members contain `q`, in their original
/// order.
pub open spec fn matching_lines(q: Seq<char>, ls: Seq<Seq<char>>) -> Seq<Seq<char>>
    decreases ls.len(),
{
    if ls.len() == 0 {
        Seq::empty()
    } else {
        let rest = matching_lines(q, ls.drop_last());
        if spec_contains(ls.last(), q) {
            rest.push(ls.last())
        } else {
            rest
        }
    }
}

/// What the case-sensitive search returns: the lines of `contents` that
/// contain `query`, in order.
pub open spec fn spec_search(query: Seq<char>, contents: Seq<char>) -> Seq<Seq<char>> {
    matching_lines(query, spec_lines(contents))
}

/// The Unicode lowercase mapping of a text, as `str::to_lowercase`
/// computes it.
pub uninterp spec fn lower_of(s: Seq<char>) -> Seq<char>;

/// The subsequence of `ls` whose members contain `ql` once lowercased,
/// in their original order; `ql` is already lowercase.
pub open spec fn matching_lines_ci(ql: Seq<char>, ls: Seq<Seq<char>>) -> Seq<Seq<char>>
    decreases ls.len(),
{
    if ls.len() == 0 {
        Seq::empty()
    } else {
        let rest = matching_lines_ci(ql, ls.drop_last());
        if spec_contains(lower_of(ls.last()), ql) {
            rest.push(ls.last())
        } else {
            rest
        }
    }
}

/// What the case-insensitive search returns: the lines of `contents` whose
/// lowercase form contains the lowercase form of `query`, in order. The
/// lines themselves are returned as written, not lowercased.
pub open spec fn spec_search_ci(query: Seq<char>, contents: Seq<char>) -> Seq<Seq<char>> {
    matching_lines_ci(lower_of(query), spec_lines(contents))
}

/// Relies on str::to_lowercase: the result is the Unicode lowercase
/// mapping of the input and depends on the input characters alone.
#[verifier::external_body]
fn to_lowercase(s: &str) -> (r: String)
    ensures
        r@ == lower_of(s@),
{
    s.to_lowercase()
}

/// Splits a text into its lines, exactly as `str::lines` does.
pub fn str_lines<'a>(contents: &'a str) -> (r: Vec<&'a str>)
    ensures
        r.deep_view() == spec_lines(contents@),
{
    let ghost s = contents@;
    let n = contents.unicode_len();
    let mut r: Vec<&'a str> = Vec::new();
    let mut start: usize = 0;
    let mut i: usize = 0;
    proof {
        assert(s.skip(0) =~= s);
        assert(s.subrange(0, 0) =~= Seq::<char>::empty());
    }
    while i < n
        invariant
            n == s.len(),
            s == contents@,
            start <= i <= n,
            spec_lines(s) == r.deep_view() + lines_from(
                s.skip(i as int),
                s.subrange(start as int, i as int),
            ),
        decreases n - i,
    {
        let ghost r_old = r.deep_view();
        let ghost cur = s.subrange(start as int, i as int);
        let c = contents.get_char(i);
        if c == '\n' {
            let line_end = if i > start && contents.get_char(i - 1) == '\r' {
                i - 1
            } else {
                i
            };
            let line = contents.substring_char(start, line_end);
            r.push(line);
            proof {
                assert(s.skip(i as int).first() == '\n');
                assert(s.skip(i as int).drop_first() =~= s.skip(i as int + 1));
                if i > start && s[i as int - 1] == '\r' {
                    assert(cur.last() == '\r');
                    assert(strip_cr(cur) =~= s.subrange(start as int, i as int - 1));
                } else {
                    assert(strip_cr(cur) =~= cur);
                }
                assert(line@ == strip_cr(cur));
                assert(r.deep_view() =~= r_old.push(strip_cr(cur)));
                assert(r.deep_view() + lines_from(s.skip(i as int + 1), Seq::empty())
                    =~= r_old + (seq![strip_cr(cur)] + lines_from(
                        s.skip(i as int + 1),
                        Seq::empty(),
                    )));
                assert(s.subrange(i as int + 1, i as int + 1) =~= Seq::<char>::empty());
            }
            start = i + 1;
            i = i + 1;
        } else {
            proof {
                assert(s.skip(i as int).first() == s[i as int]);
                assert(s.skip(i as int).drop_first() =~= s.skip(i as int + 1));
                assert(cur.push(s[i as int]) =~= s.subrange(start as int, i as int + 1));
            }
            i = i + 1;
        }
    }
    proof {
        assert(s.skip(n as int).len() == 0);
    }
    if start < n {
        let line = contents.substring_char(start, n);
        r.push(line);
        proof {
            assert(r.deep_view() =~= r.deep_view().subrange(0, r.deep_view().len() - 1).push(
                s.subrange(start as int, n as int),
            ));
            assert(spec_lines(s) =~= r.deep_view());
        }
    } else {
        proof {
            assert(s.subrange(start as int, n as int).len() == 0);
            assert(spec_lines(s) =~= r.deep_view());
        }
    }
    r
}

fn match_at(hay: &str, needle: &str, at: usize) -> (r: bool)
    requires
        at + needle@.len() <= hay@.len(),
    ensures
        r == (hay@.subrange(at as int, at + needle@.len()) == needle@),
{
    let hn = hay.unicode_len();
    let m = needle.unicode_len();
    let mut k: usize = 0;
    while k < m
        invariant
            hn == hay@.len(),
            m == needle@.len(),
            at + m <= hay@.len(),
            k <= m,
            forall|j: int| 0 <= j < k ==> hay@[at + j] == needle@[j],
        decreases m - k,
    {
        let hc = hay.get_char(at + k);
        let nc = needle.get_char(k);
        if hc != nc {
            proof {
                let sub = hay@.subrange(at as int, at + m as int);
                assert(sub[k as int] == hay@[at + k]);
                assert(sub != needle@);
            }
            return false;
        }
        k = k + 1;
    }
    proof {
        assert(hay@.subrange(at as int, at + m as int) =~= needle@);
    }
    true
}

/// Whether `needle` occurs contiguously in `hay`, as `str::contains`
/// decides it for textual patterns.
pub fn str_contains(hay: &str, needle: &str) -> (r: bool)
    ensures
        r == spec_contains(hay@, needle@),
{
    let n = hay.unicode_len();
    let m = needle.unicode_len();
    if m > n {
        return false;
    }
    if m == 0 {
        proof {
            assert(hay@.subrange(0, 0 + needle@.len() as int) =~= needle@);
        }
        return true;
    }
    let mut i: usize = 0;
    while i <= n - m
        invariant
            n == hay@.len(),
            m == needle@.len(),
            1 <= m <= n,
            i <= n - m + 1,
            forall|j: int| 0 <= j < i ==> #[trigger] hay@.subrange(j, j + m) != needle@,
        decreases n - i,
    {
        if match_at(hay, needle, i) {
            proof {
                assert(hay@.subrange(i as int, i + m as int) == needle@);
            }
            return true;
        }
        i = i + 1;
    }
    proof {
        assert forall|j: int| 0 <= j <= hay@.len() - needle@.len() implies #[trigger] hay@.subrange(
            j,
            j + needle@.len(),
        ) != needle@ by {
            assert(j < i);
        }
    }
    false
}

/// Case-sensitive search: the lines of `contents` that contain `query`,
/// in their original order.
pub fn search<'a>(query: &str, contents: &'a str) -> (r: Vec<&'a str>)
    ensures
        r.deep_view() == spec_search(query@, contents@),
{
    let lines = str_lines(contents);
    let mut r: Vec<&'a str> = Vec::new();
    let mut i: usize = 0;
    while i < lines.len()
        invariant
            i <= lines@.len(),
            lines.deep_view() == spec_lines(contents@),
            r.deep_view() == matching_lines(query@, lines.deep_view().take(i as int)),
        decreases lines@.len() - i,
    {
        let ghost r_old = r.deep_view();
        let ghost taken = lines.deep_view().take(i as int + 1);
        let line = lines[i];
        if str_contains(line, query) {
            r.push(line);
            proof {
                assert(r.deep_view() =~= r_old.push(line@));
            }
        }
        i = i + 1;
        proof {
            assert(taken.drop_last() =~= lines.deep_view().take(i as int - 1));
            assert(taken.last() == line@);
        }
    }
    proof {
        assert(lines.deep_view().take(lines@.len() as int) =~= lines.deep_view());
    }
    r
}

/// Case-insensitive search: the lines of `contents` whose lowercase form
/// contains the lowercase form of `query`, in their original order and as
/// originally written.
pub fn search_case_insensitive<'a>(query: &str, contents: &'a str) -> (r: Vec<&'a str>)
    ensures
        r.deep_view() == spec_search_ci(query@, contents@),
{
    let lowered_query = to_lowercase(query);
    let lines = str_lines(contents);
    let mut r: Vec<&'a str> = Vec::new();
    let mut i: usize = 0;
    while i < lines.len()
        invariant
            i <= lines@.len(),
            lines.deep_view() == spec_lines(contents@),
            lowered_query@ == lower_of(query@),
            r.deep_view() == matching_lines_ci(lower_of(query@), lines.deep_view().take(i as int)),
        decreases lines@.len() - i,
    {
        let ghost r_old = r.deep_view();
        let ghost taken = lines.deep_view().take(i as int + 1);
        let line = lines[i];
        let lowered_line = to_lowercase(line);
        if str_contains(lowered_line.as_str(), lowered_query.as_str()) {
            r.push(line);
            proof {
                assert(r.deep_view() =~= r_old.push(line@));
            }
        }
        i = i + 1;
        proof {
            assert(taken.drop_last() =~= lines.deep_view().take(i as int - 1));
            assert(taken.last() == line@);
        }
    }
    proof {
        assert(lines.deep_view().take(lines@.len() as int) =~= lines.deep_view());
    }
    r
}

/// How one search run is set up: what to look for, where, and whether case
/// matters.
pub struct Config {
    pub query: String,
    pub filename: String,
    pub case_sensitive: bool,
}

impl Config {
    /// Builds a run configuration from the command-line arguments, of which
    /// the first is the program name and is skipped: the second is the
    /// query and the third the file name. Whether case matters comes from
    /// the environment and is handed in by the caller. Fewer than three
    /// arguments are not enough.
    pub fn new(args: Vec<String>, case_sensitive: bool) -> (r: Result<Config, &'static str>)
        ensures
            match r {
                Ok(c) => args@.len() >= 3 && c.query@ == args@[1]@ && c.filename@ == args@[2]@
                    && c.case_sensitive == case_sensitive,
                Err(m) => args@.len() < 3 && m@ == "not enough arguments"@,
            },
    {
        if args.len() < 3 {
            return Err("not enough arguments");
        }
        let query = args[1].clone();
        let filename = args[2].clone();
        Ok(Config { query, filename, case_sensitive })
    }
}

/// The search a run performs once the file's contents are in hand: the
/// configured query over the contents, case-sensitively or not as the
/// configuration says.
pub fn run_search<'a>(config: &Config, contents: &'a str) -> (r: Vec<&'a str>)
    ensures
        r.deep_view() == if config.case_sensitive {
            spec_search(config.query@, contents@)
        } else {
            spec_search_ci(config.query@, contents@)
        },
{
    if config.case_sensitive {
        search(config.query.as_str(), contents)
    } else {
        search_case_insensitive(config.query.as_str(), contents)
    }
}

} // verus!
