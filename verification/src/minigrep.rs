//! Line search: split a text into lines and keep the lines that contain a
//! query, case-sensitively or not.
//!
//! The line and substring semantics are specified from scratch over
//! character sequences: lines are split at `'\n'`, a `'\r'` immediately
//! before the split is dropped, and a trailing empty line is not reported.
//! Only Unicode case folding is taken on trust, from the standard library.

use vstd::prelude::*;
use crate::text::first_index_of;
use crate::text::lemma_first_index_of_at;
use crate::text::lemma_first_index_of_bounds;

verus! {

/// A line as reported: without the `'\r'` that preceded the line break.
pub open spec fn chop_cr(line: Seq<char>) -> Seq<char> {
    if line.len() > 0 && line.last() == '\r' {
        line.drop_last()
    } else {
        line
    }
}

/// The lines of `s`: split at each `'\n'`, a `'\r'` just before the split
/// dropped, and no empty final line after a trailing `'\n'`.
pub open spec fn line_split(s: Seq<char>) -> Seq<Seq<char>>
    decreases s.len(),
    via line_split_decreases
{
    if s.len() == 0 {
        Seq::empty()
    } else if !s.contains('\n') {
        seq![s]
    } else {
        seq![chop_cr(s.take(first_index_of(s, '\n')))] + line_split(s.skip(first_index_of(s, '\n') + 1))
    }
}

#[via_fn]
proof fn line_split_decreases(s: Seq<char>) {
    if s.len() != 0 && s.contains('\n') {
        lemma_first_index_of_bounds(s, '\n');
    }
}

/// `needle` occurs contiguously somewhere in `hay`.
pub open spec fn contains_seq(hay: Seq<char>, needle: Seq<char>) -> bool {
    exists|i: int|
        0 <= i && i + needle.len() <= hay.len() && #[trigger] hay.subrange(
            i,
            i + needle.len() as int,
        ) == needle
}

/// What `str::to_lowercase` returns; a function of the characters alone.
pub uninterp spec fn lower_of(s: Seq<char>) -> Seq<char>;

/// The views of a sequence of owned strings.
pub open spec fn string_views(v: Seq<String>) -> Seq<Seq<char>> {
    v.map_values(|s: String| s@)
}

/// The lines of `contents` that contain `query`, in order.
pub open spec fn matching_lines(query: Seq<char>, contents: Seq<char>) -> Seq<Seq<char>> {
    line_split(contents).filter(|l: Seq<char>| contains_seq(l, query))
}

/// The lines of `contents` whose lowercased form contains the lowercased
/// query, in order.
pub open spec fn matching_lines_insensitive(query: Seq<char>, contents: Seq<char>) -> Seq<
    Seq<char>,
> {
    line_split(contents).filter(|l: Seq<char>| contains_seq(lower_of(l), lower_of(query)))
}

/// Relies on str::to_lowercase: the result depends on the characters of
/// the input alone, so it is named rather than written out.
#[verifier::external_body]
fn to_lowercase(s: &str) -> (r: String)
    ensures
        r@ == lower_of(s@),
{
    s.to_lowercase()
}

/// Whether `needle` occurs contiguously in `hay`, by direct scan.
pub fn str_contains(hay: &str, needle: &str) -> (r: bool)
    ensures
        r == contains_seq(hay@, needle@),
{
    let hn = hay.unicode_len();
    let n = needle.unicode_len();
    if n > hn {
        return false;
    }
    let mut i: usize = 0;
    while i <= hn - n
        invariant
            n <= hn,
            hn == hay@.len(),
            n == needle@.len(),
            i <= hn - n + 1,
            forall|i0: int|
                0 <= i0 < i ==> #[trigger] hay@.subrange(i0, i0 + needle@.len() as int)
                    != needle@,
        decreases hn + 1 - n - i,
    {
        let mut j: usize = 0;
        let mut mismatch = false;
        while j < n
            invariant
                i + n <= hn,
                hn == hay@.len(),
                n == needle@.len(),
                j <= n,
                !mismatch ==> forall|j0: int| 0 <= j0 < j ==> hay@[i + j0] == needle@[j0],
                mismatch ==> n >= 1 && hay@.subrange(i as int, i + needle@.len() as int)
                    != needle@,
            decreases n - j,
        {
            if hay.get_char(i + j) != needle.get_char(j) {
                proof {
                    if hay@.subrange(i as int, i + needle@.len() as int) == needle@ {
                        assert(hay@.subrange(i as int, i + needle@.len() as int)[j as int]
                            == hay@[i + j]);
                    }
                }
                mismatch = true;
                j = n;
            } else {
                j = j + 1;
            }
        }
        if !mismatch {
            proof {
                assert(hay@.subrange(i as int, i + needle@.len() as int) =~= needle@);
            }
            return true;
        }
        i = i + 1;
    }
    proof {
        assert forall|i0: int| 0 <= i0 && i0 + needle@.len() <= hay@.len() implies #[trigger] hay@.subrange(
            i0,
            i0 + needle@.len() as int,
        ) != needle@ by {
            assert(i0 < i);
        }
    }
    false
}

/// The lines of `contents` as owned strings, exactly `line_split` of its
/// characters.
pub fn split_into_lines(contents: &str) -> (r: Vec<String>)
    ensures
        string_views(r@) == line_split(contents@),
{
    let n = contents.unicode_len();
    let mut result: Vec<String> = Vec::new();
    let mut start: usize = 0;
    let mut i: usize = 0;
    proof {
        assert(string_views(result@) =~= Seq::<Seq<char>>::empty());
        assert(contents@.skip(0) =~= contents@);
        assert(Seq::<Seq<char>>::empty() + line_split(contents@) =~= line_split(contents@));
    }
    while i < n
        invariant
            start <= i <= n,
            n == contents@.len(),
            forall|j: int| start <= j < i ==> contents@[j] != '\n',
            line_split(contents@) == string_views(result@) + line_split(
                contents@.skip(start as int),
            ),
        decreases n - i,
    {
        if contents.get_char(i) == '\n' {
            let ghost s = contents@.skip(start as int);
            let ghost prev = result@;
            proof {
                assert(s[i - start as int] == '\n');
                assert(s.contains('\n'));
                assert forall|j: int| 0 <= j < i - start as int implies s[j] != '\n' by {
                    assert(s[j] == contents@[start + j]);
                }
                lemma_first_index_of_at(s, '\n', i - start as int);
                assert(s.take(i - start as int) =~= contents@.subrange(start as int, i as int));
                assert(s.skip(i - start as int + 1) =~= contents@.skip(i as int + 1));
            }
            let line_end = if i > start && contents.get_char(i - 1) == '\r' {
                i - 1
            } else {
                i
            };
            proof {
                if i > start && contents@[i - 1] == '\r' {
                    assert(chop_cr(contents@.subrange(start as int, i as int))
                        =~= contents@.subrange(start as int, line_end as int));
                } else {
                    assert(chop_cr(contents@.subrange(start as int, i as int))
                        =~= contents@.subrange(start as int, line_end as int));
                }
            }
            let line = contents.substring_char(start, line_end);
            result.push(line.to_owned());
            proof {
                assert(string_views(result@) =~= string_views(prev).push(line@));
                assert(string_views(prev).push(line@) + line_split(contents@.skip(i as int + 1))
                    =~= string_views(prev) + line_split(s));
            }
            start = i + 1;
        }
        i = i + 1;
    }
    if start < n {
        let ghost s = contents@.skip(start as int);
        let ghost prev = result@;
        proof {
            assert(forall|j: int| 0 <= j < s.len() ==> #[trigger] s[j] == contents@[start + j]);
            assert(!s.contains('\n'));
            assert(s =~= contents@.subrange(start as int, n as int));
        }
        let line = contents.substring_char(start, n);
        result.push(line.to_owned());
        proof {
            assert(string_views(result@) =~= string_views(prev).push(line@));
            assert(string_views(prev).push(line@) =~= string_views(prev) + line_split(s));
            assert(string_views(result@) =~= line_split(contents@));
        }
    } else {
        proof {
            assert(contents@.skip(start as int) =~= Seq::<char>::empty());
            assert(string_views(result@) =~= line_split(contents@));
        }
    }
    result
}

/// The lines of `contents` that contain `query`, as owned strings, in
/// their original order and original spelling.
pub fn search(query: &str, contents: &str) -> (r: Vec<String>)
    ensures
        string_views(r@) == matching_lines(query@, contents@),
{
    let lines = split_into_lines(contents);
    let ghost lv = string_views(lines@);
    let mut results: Vec<String> = Vec::new();
    let mut idx: usize = 0;
    while idx < lines.len()
        invariant
            idx <= lines@.len(),
            lv == string_views(lines@),
            lv == line_split(contents@),
            string_views(results@) == lv.take(idx as int).filter(
                |l: Seq<char>| contains_seq(l, query@),
            ),
        decreases lines@.len() - idx,
    {
        let ghost prev = results@;
        proof {
            assert(lv.take(idx as int + 1).drop_last() =~= lv.take(idx as int));
            assert(lv.take(idx as int + 1).last() == lv[idx as int]);
            assert(lv[idx as int] == lines@[idx as int]@);
            reveal_with_fuel(Seq::filter, 2);
        }
        let line = &lines[idx];
        if str_contains(line.as_str(), query) {
            results.push(line.clone());
            proof {
                assert(string_views(results@) =~= string_views(prev).push(line@));
            }
        }
        idx = idx + 1;
    }
    proof {
        assert(lv.take(lv.len() as int) =~= lv);
    }
    results
}

/// The lines of `contents` whose lowercased form contains the lowercased
/// query, as owned strings, in their original order and original
/// spelling.
pub fn search_case_insensitive(query: &str, contents: &str) -> (r: Vec<String>)
    ensures
        string_views(r@) == matching_lines_insensitive(query@, contents@),
{
    let query_lower = to_lowercase(query);
    let lines = split_into_lines(contents);
    let ghost lv = string_views(lines@);
    let mut results: Vec<String> = Vec::new();
    let mut idx: usize = 0;
    while idx < lines.len()
        invariant
            idx <= lines@.len(),
            lv == string_views(lines@),
            lv == line_split(contents@),
            query_lower@ == lower_of(query@),
            string_views(results@) == lv.take(idx as int).filter(
                |l: Seq<char>| contains_seq(lower_of(l), lower_of(query@)),
            ),
        decreases lines@.len() - idx,
    {
        let ghost prev = results@;
        proof {
            assert(lv.take(idx as int + 1).drop_last() =~= lv.take(idx as int));
            assert(lv.take(idx as int + 1).last() == lv[idx as int]);
            assert(lv[idx as int] == lines@[idx as int]@);
            reveal_with_fuel(Seq::filter, 2);
        }
        let line = &lines[idx];
        let line_lower = to_lowercase(line.as_str());
        if str_contains(line_lower.as_str(), query_lower.as_str()) {
            results.push(line.clone());
            proof {
                assert(string_views(results@) =~= string_views(prev).push(line@));
            }
        }
        idx = idx + 1;
    }
    proof {
        assert(lv.take(lv.len() as int) =~= lv);
    }
    results
}

/// What a search run needs to know: the query, where to read, and whether
/// case matters.
pub struct Config {
    pub query: String,
    pub filename: String,
    pub case_sensitive: bool,
}

impl Config {
    /// Build a configuration from the command-line arguments (the first
    /// argument is the program's own name) and the already-read
    /// environment choice. Too few arguments name the first missing one.
    pub fn new(args: &Vec<String>, case_sensitive: bool) -> (r: Result<Config, &'static str>)
        ensures
            args@.len() < 2 ==> (r matches Err(e) && e@ == "Didn't get a query string"@),
            args@.len() == 2 ==> (r matches Err(e) && e@ == "Didn't get a file name"@),
            args@.len() >= 3 ==> (r matches Ok(c) && c.query == args@[1] && c.filename
                == args@[2] && c.case_sensitive == case_sensitive),
    {
        if args.len() < 2 {
            return Err("Didn't get a query string");
        }
        if args.len() < 3 {
            return Err("Didn't get a file name");
        }
        let query = args[1].clone();
        let filename = args[2].clone();
        Ok(Config { query, filename, case_sensitive })
    }
}

/// One search over already-read file contents, honouring the
/// configuration's case choice.
pub fn run_search(config: &Config, contents: &str) -> (r: Vec<String>)
    ensures
        config.case_sensitive ==> string_views(r@) == matching_lines(config.query@, contents@),
        !config.case_sensitive ==> string_views(r@) == matching_lines_insensitive(
            config.query@,
            contents@,
        ),
{
    if config.case_sensitive {
        search(config.query.as_str(), contents)
    } else {
        search_case_insensitive(config.query.as_str(), contents)
    }
}

} // verus!
