//! Searching a text for the lines that contain a query.

use std::str::Lines;
use vstd::prelude::*;

verus! {

/// The settings of one search.
pub struct Config {
    query: String,
    file_path: String,
    ignore_case: bool,
}

/// What a configuration says.
pub struct Settings {
    /// The text to look for.
    pub query: Seq<char>,
    /// The path of the file to search.
    pub file_path: Seq<char>,
    /// Whether the search is to ignore the case of letters.
    pub ignore_case: bool,
}

impl View for Config {
    type V = Settings;

    closed spec fn view(&self) -> Settings {
        Settings {
            query: self.query@,
            file_path: self.file_path@,
            ignore_case: self.ignore_case,
        }
    }
}

impl Config {
    /// Reads the settings from the words of a command line: the program's
    /// name, the query, the path of the file to search. Further words are
    /// ignored. `ignore_case` is taken as given. With fewer than three words
    /// there is no configuration, and the error says so.
    pub fn build(args: Vec<String>, ignore_case: bool) -> (built: Result<Config, &'static str>)
        ensures
            match built {
                Ok(config) => {
                    &&& args@.len() >= 3
                    &&& config@ == (Settings {
                        query: args@[1]@,
                        file_path: args@[2]@,
                        ignore_case,
                    })
                },
                Err(message) => args@.len() < 3 && message@ == "Didn't get a query string"@,
            },
    {
        if args.len() < 3 {
            return Err("Didn't get a query string");
        }
        Ok(Config { query: args[1].clone(), file_path: args[2].clone(), ignore_case })
    }

    /// The text to look for.
    pub fn query(&self) -> (query: &str)
        ensures
            query@ == self@.query,
    {
        self.query.as_str()
    }

    /// The path of the file to search.
    pub fn file_path(&self) -> (path: &str)
        ensures
            path@ == self@.file_path,
    {
        self.file_path.as_str()
    }

    /// Whether the search is to ignore the case of letters.
    pub fn ignore_case(&self) -> (ignore: bool)
        ensures
            ignore == self@.ignore_case,
    {
        self.ignore_case
    }
}

/// `line` without one carriage return at its end, if it has one.
pub open spec fn without_return(line: Seq<char>) -> Seq<char> {
    if line.len() > 0 && line.last() == '\r' {
        line.drop_last()
    } else {
        line
    }
}

/// The place of the first line feed in `text`, or the length of `text` if it
/// has none.
pub open spec fn first_feed(text: Seq<char>) -> int
    decreases text.len(),
{
    if text.len() == 0 || text[0] == '\n' {
        0
    } else {
        1 + first_feed(text.skip(1))
    }
}

/// The lines of `text`. A line ends at a line feed, or at a carriage return
/// followed by a line feed; neither belongs to the line. What follows the
/// last line feed is a line if it is not empty, carriage returns and all.
pub open spec fn lines_of(text: Seq<char>) -> Seq<Seq<char>>
    decreases text.len(),
{
    let end = first_feed(text);
    if text.len() == 0 {
        Seq::empty()
    } else if 0 <= end < text.len() {
        seq![without_return(text.take(end))] + lines_of(text.skip(end + 1))
    } else {
        seq![text]
    }
}

/// `needle` occurs in `text` as a run of consecutive characters.
pub open spec fn occurs_in(needle: Seq<char>, text: Seq<char>) -> bool {
    exists|at: int|
        0 <= at <= text.len() - needle.len() && #[trigger] text.subrange(at, at + needle.len())
            == needle
}

#[verifier::external_type_specification]
#[verifier::external_body]
pub struct ExLines<'a>(Lines<'a>);

/// The lines that an iterator over lines has yet to yield.
pub uninterp spec fn lines_left(lines: Lines<'_>) -> Seq<Seq<char>>;

/// `str::lines`: an iterator over the lines of `text`, as the standard
/// library splits them.
#[verifier::external_body]
fn lines<'a>(text: &'a str) -> (lines: Lines<'a>)
    ensures
        lines_left(lines) == lines_of(text@),
{
    text.lines()
}

/// `Iterator::next` on `str::Lines`: yields the first of the lines that are
/// left and keeps the rest, or yields nothing when none is left.
#[verifier::external_body]
fn next_line<'a>(lines: &mut Lines<'a>) -> (line: Option<&'a str>)
    ensures
        match line {
            Some(line) => {
                &&& lines_left(*old(lines)).len() > 0
                &&& line@ == lines_left(*old(lines))[0]
                &&& lines_left(*final(lines)) == lines_left(*old(lines)).skip(1)
            },
            None => {
                &&& lines_left(*old(lines)).len() == 0
                &&& lines_left(*final(lines)).len() == 0
            },
        },
{
    lines.next()
}

/// `str::contains` with a string as the pattern: whether `needle` occurs in
/// `text`.
#[verifier::external_body]
fn contains(text: &str, needle: &str) -> (found: bool)
    ensures
        found == occurs_in(needle@, text@),
{
    text.contains(needle)
}

/// The lines of `contents` that contain `query`, in their order.
pub fn search<'a>(query: &str, contents: &'a str) -> (found: Vec<&'a str>)
    ensures
        found@.map_values(|line: &str| line@) == lines_of(contents@).filter(
            |line: Seq<char>| occurs_in(query@, line),
        ),
{
    let mut found: Vec<&'a str> = Vec::new();
    let mut rest = lines(contents);
    let ghost all = lines_of(contents@);
    let ghost wanted = |line: Seq<char>| occurs_in(query@, line);
    let ghost mut seen: int = 0;
    loop
        invariant
            0 <= seen <= all.len(),
            all == lines_of(contents@),
            wanted == |line: Seq<char>| occurs_in(query@, line),
            lines_left(rest) == all.skip(seen),
            found@.map_values(|line: &str| line@) == all.take(seen).filter(wanted),
        ensures
            found@.map_values(|line: &str| line@) == all.filter(wanted),
        decreases all.len() - seen,
    {
        match next_line(&mut rest) {
            Some(line) => {
                proof {
                    assert(all.take(seen + 1) =~= all.take(seen).push(all[seen]));
                    assert(all.skip(seen).skip(1) =~= all.skip(seen + 1));
                    filter_of_push(all.take(seen), all[seen], wanted);
                }
                if contains(line, query) {
                    found.push(line);
                    assert(found@.map_values(|line: &str| line@) =~= all.take(seen).filter(
                        wanted,
                    ).push(all[seen]));
                }
                proof {
                    seen = seen + 1;
                }
            },
            None => {
                assert(all.take(seen) =~= all);
                break ;
            },
        }
    }
    found
}

/// Filtering a sequence with one more item at its end keeps that item
/// exactly when it passes.
proof fn filter_of_push<A>(s: Seq<A>, last: A, keep: spec_fn(A) -> bool)
    ensures
        s.push(last).filter(keep) == if keep(last) {
            s.filter(keep).push(last)
        } else {
            s.filter(keep)
        },
{
    reveal(Seq::filter);
    assert(s.push(last).drop_last() =~= s);
}

} // verus!
