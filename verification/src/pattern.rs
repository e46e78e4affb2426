//! Regular expressions, compiled by the `regex` crate, and the replacements
//! that the client makes with them.

use vstd::prelude::*;

verus! {

#[verifier::external_type_specification]
#[verifier::external_body]
pub struct ExRegex(regex::Regex);

#[verifier::external_type_specification]
#[verifier::external_body]
pub struct ExRegexError(regex::Error);

/// Whether `regex::RegexBuilder` compiles `pattern` with the given flags.
pub uninterp spec fn compiles(pattern: Seq<char>, dot_matches_new_line: bool, multi_line: bool) -> bool;

/// What `Regex::replace` gives for a regex compiled from `pattern` with the
/// given flags: `text` with its first match replaced by `replacement`, in
/// which `$name` and `${name}` stand for capture groups.
pub uninterp spec fn replaced_first(
    pattern: Seq<char>,
    dot_matches_new_line: bool,
    multi_line: bool,
    text: Seq<char>,
    replacement: Seq<char>,
) -> Seq<char>;

/// What `Regex::replace_all` gives for a regex compiled from `pattern` with
/// the given flags: `text` with every non-overlapping match replaced by
/// `replacement`, in which `$name` and `${name}` stand for capture groups.
pub uninterp spec fn replaced_all(
    pattern: Seq<char>,
    dot_matches_new_line: bool,
    multi_line: bool,
    text: Seq<char>,
    replacement: Seq<char>,
) -> Seq<char>;

/// A compiled regular expression together with the source and flags it was
/// compiled from. Only `Pattern::new` makes one, so the regex is always the
/// one that the source and flags describe.
pub struct Pattern {
    regex: regex::Regex,
    source: String,
    dot_matches_new_line: bool,
    multi_line: bool,
}

/// `RegexBuilder::new(pattern)`, with `dot_matches_new_line` and `multi_line`
/// set as given, then `build()`. The contract claims that whether it
/// compiles depends on the pattern and flags alone (`compiles`); what the
/// error holds is left unsaid.
#[verifier::external_body]
fn build_regex(pattern: &str, dot_matches_new_line: bool, multi_line: bool) -> (r: Result<
    regex::Regex,
    regex::Error,
>)
    ensures
        r is Ok <==> compiles(pattern@, dot_matches_new_line, multi_line),
{
    regex::RegexBuilder::new(pattern).dot_matches_new_line(dot_matches_new_line).multi_line(
        multi_line,
    ).build()
}

/// `Regex::replace`: the contract claims that the result is
/// `replaced_first` of the source and flags the regex was compiled from,
/// the text and the replacement.
#[verifier::external_body]
fn regex_replace(p: &Pattern, text: &str, replacement: &str) -> (r: String)
    ensures
        r@ == replaced_first(p.source@, p.dot_matches_new_line, p.multi_line, text@, replacement@),
{
    p.regex.replace(text, replacement).into_owned()
}

/// `Regex::replace_all`: the contract claims that the result is
/// `replaced_all` of the source and flags the regex was compiled from, the
/// text and the replacement.
#[verifier::external_body]
fn regex_replace_all(p: &Pattern, text: &str, replacement: &str) -> (r: String)
    ensures
        r@ == replaced_all(p.source@, p.dot_matches_new_line, p.multi_line, text@, replacement@),
{
    p.regex.replace_all(text, replacement).into_owned()
}

impl Pattern {
    /// The source the pattern was compiled from.
    pub closed spec fn source(&self) -> Seq<char> {
        self.source@
    }

    /// Whether `.` matches a line break too.
    pub closed spec fn dot_all(&self) -> bool {
        self.dot_matches_new_line
    }

    /// Whether `^` and `$` match at line breaks too.
    pub closed spec fn lines(&self) -> bool {
        self.multi_line
    }

    /// Compiles `source` with the given flags.
    pub fn new(source: &str, dot_matches_new_line: bool, multi_line: bool) -> (r: Result<
        Pattern,
        regex::Error,
    >)
        ensures
            r is Ok <==> compiles(source@, dot_matches_new_line, multi_line),
            r matches Ok(p) ==> p.source() == source@ && p.dot_all() == dot_matches_new_line
                && p.lines() == multi_line,
    {
        match build_regex(source, dot_matches_new_line, multi_line) {
            Ok(regex) => Ok(
                Pattern {
                    regex,
                    source: String::from_str(source),
                    dot_matches_new_line,
                    multi_line,
                },
            ),
            Err(e) => Err(e),
        }
    }

    /// `text` with the first match replaced by `replacement`.
    pub fn replace_first(&self, text: &str, replacement: &str) -> (r: String)
        ensures
            r@ == replaced_first(self.source(), self.dot_all(), self.lines(), text@, replacement@),
    {
        regex_replace(self, text, replacement)
    }

    /// `text` with every match replaced by `replacement`.
    pub fn replace_all(&self, text: &str, replacement: &str) -> (r: String)
        ensures
            r@ == replaced_all(self.source(), self.dot_all(), self.lines(), text@, replacement@),
    {
        regex_replace_all(self, text, replacement)
    }
}

} // verus!
