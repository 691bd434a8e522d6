//! Searching a text for lines that mention a query, case sensitively or not.

use vstd::prelude::*;
use vstd::string::StringExecFns;
use crate::text::lower_of;
use crate::text::spec_contains;
use crate::text::spec_lines;
use crate::text::split_lines;
use crate::text::str_contains;
use crate::text::to_lowercase;

verus! {

/// What a search run needs to know: what to look for, in which file, and
/// whether letter case matters.
pub struct Config {
    pub query: String,
    pub filename: String,
    pub case_sensitive: bool,
}

impl Config {
    /// Builds a `Config` from the command-line arguments: after the program
    /// name come the query and the file name. The caller reads the
    /// environment and hands in the `case_sensitive` flag.
    pub fn new(args: &Vec<String>, case_sensitive: bool) -> (res: Result<Config, &'static str>)
        ensures
            args@.len() >= 3 ==> (res matches Ok(c)
                && c.query@ == args@[1]@
                && c.filename@ == args@[2]@
                && c.case_sensitive == case_sensitive),
            args@.len() < 2 ==> (res matches Err(e) && e@ == "Didn't get a query"@),
            args@.len() == 2 ==> (res matches Err(e) && e@ == "Didn't get a filename"@),
    {
        if args.len() < 2 {
            return Err("Didn't get a query");
        }
        if args.len() < 3 {
            return Err("Didn't get a filename");
        }
        let query = args[1].clone();
        let filename = args[2].clone();
        Ok(Config { query, filename, case_sensitive })
    }
}

/// Appends ".txt" to a file name that does not already mention it.
pub fn ensure_txt_filename(filename: &String) -> (fixed: String)
    ensures
        spec_contains(filename@, ".txt"@) ==> fixed@ == filename@,
        !spec_contains(filename@, ".txt"@) ==> fixed@ == filename@ + ".txt"@,
{
    if str_contains(filename.as_str(), ".txt") {
        filename.clone()
    } else {
        filename.clone().concat(".txt")
    }
}

/// Returns, in order, the lines of `contents` in which `query` occurs.
pub fn search<'a>(query: &str, contents: &'a str) -> (results: Vec<&'a str>)
    ensures
        results.deep_view() == spec_lines(contents@).filter(
            |l: Seq<char>| spec_contains(l, query@),
        ),
{
    let lines = split_lines(contents);
    let mut results: Vec<&'a str> = Vec::new();
    let n = lines.len();
    let mut i: usize = 0;
    while i < n
        invariant
            n == lines@.len(),
            i <= n,
            lines.deep_view() == spec_lines(contents@),
            results.deep_view() == lines.deep_view().take(i as int).filter(
                |l: Seq<char>| spec_contains(l, query@),
            ),
        decreases n - i,
    {
        let ghost pred = |l: Seq<char>| spec_contains(l, query@);
        let ghost prev = results.deep_view();
        let line = lines[i];
        if str_contains(line, query) {
            results.push(line);
            proof {
                assert(results.deep_view() =~= prev.push(line@));
            }
        }
        proof {
            let ldv = lines.deep_view();
            assert(ldv.take(i + 1) =~= ldv.take(i as int).push(ldv[i as int]));
            ldv.take(i as int).lemma_filter_push(ldv[i as int], pred);
        }
        i += 1;
    }
    proof {
        let ldv = lines.deep_view();
        assert(ldv.take(n as int) =~= ldv);
    }
    results
}

/// Returns, in order, the lines of `contents` in which `query` occurs once
/// both are taken to lowercase.
pub fn search_case_insensitive<'a>(query: &str, contents: &'a str) -> (results: Vec<&'a str>)
    ensures
        results.deep_view() == spec_lines(contents@).filter(
            |l: Seq<char>| spec_contains(lower_of(l), lower_of(query@)),
        ),
{
    let query_lower = to_lowercase(query);
    let lines = split_lines(contents);
    let mut results: Vec<&'a str> = Vec::new();
    let n = lines.len();
    let mut i: usize = 0;
    while i < n
        invariant
            n == lines@.len(),
            i <= n,
            query_lower@ == lower_of(query@),
            lines.deep_view() == spec_lines(contents@),
            results.deep_view() == lines.deep_view().take(i as int).filter(
                |l: Seq<char>| spec_contains(lower_of(l), lower_of(query@)),
            ),
        decreases n - i,
    {
        let ghost pred = |l: Seq<char>| spec_contains(lower_of(l), lower_of(query@));
        let ghost prev = results.deep_view();
        let line = lines[i];
        let line_lower = to_lowercase(line);
        if str_contains(line_lower.as_str(), query_lower.as_str()) {
            results.push(line);
            proof {
                assert(results.deep_view() =~= prev.push(line@));
            }
        }
        proof {
            let ldv = lines.deep_view();
            assert(ldv.take(i + 1) =~= ldv.take(i as int).push(ldv[i as int]));
            ldv.take(i as int).lemma_filter_push(ldv[i as int], pred);
        }
        i += 1;
    }
    proof {
        let ldv = lines.deep_view();
        assert(ldv.take(n as int) =~= ldv);
    }
    results
}

} // verus!
