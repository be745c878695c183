use vstd::prelude::*;
use regex::Regex;

verus! {

#[verifier::external_type_specification]
#[verifier::external_body]
pub struct ExRegex(Regex);

/// Whether `regex::Regex::new` accepts a pattern.
pub uninterp spec fn regex_compiles(pattern: Seq<char>) -> bool;

/// What `regex::Regex::captures` finds for a pattern in a haystack: `None`
/// where the pattern does not match, else the text of each capture group
/// (group 0 being the whole match), `None` for a group that took no part.
pub uninterp spec fn regex_captures(pattern: Seq<char>, haystack: Seq<char>) -> Option<
    Seq<Option<Seq<char>>>,
>;

/// The texts of capture groups.
pub open spec fn groups_view(v: Seq<Option<String>>) -> Seq<Option<Seq<char>>> {
    v.map_values(
        |o: Option<String>|
            match o {
                Some(s) => Some(s@),
                None => None,
            },
    )
}

/// Compiles a pattern with `regex::Regex::new`; the claim is only that it
/// succeeds exactly for the patterns that `regex_compiles` names.
#[verifier::external_body]
fn compile_regex(pattern: &str) -> (r: Option<Regex>)
    ensures
        r is Some <==> regex_compiles(pattern@),
{
    Regex::new(pattern).ok()
}

/// A compiled pattern together with the source text it was compiled from.
/// Its fields are private and `new` is its only constructor, so the regex
/// always is the compilation of the source.
pub struct LinePattern {
    source: String,
    regex: Regex,
}

impl LinePattern {
    pub closed spec fn source(&self) -> Seq<char> {
        self.source@
    }

    /// Compiles a pattern; `None` where the regex crate refuses it.
    pub fn new(source: &str) -> (r: Option<LinePattern>)
        ensures
            r is Some <==> regex_compiles(source@),
            r matches Some(p) ==> p.source() == source@,
    {
        match compile_regex(source) {
            Some(regex) => Some(LinePattern { source: source.to_owned(), regex }),
            None => None,
        }
    }
}

/// Runs `regex::Regex::captures` of a compiled pattern on a haystack and
/// hands out the text of each group. The claim is that the result is the one
/// `regex_captures` names for the pattern's source and the haystack; this
/// rests on the pattern's regex being compiled from its source, which its
/// constructor guarantees.
#[verifier::external_body]
pub(crate) fn captures_of(pattern: &LinePattern, haystack: &str) -> (r: Option<Vec<Option<String>>>)
    ensures
        match regex_captures(pattern.source(), haystack@) {
            None => r is None,
            Some(g) => r matches Some(v) && groups_view(v@) == g,
        },
{
    let caps = pattern.regex.captures(haystack)?;
    let mut groups = Vec::new();
    for m in caps.iter() {
        groups.push(match m {
            Some(m) => Some(m.as_str().to_string()),
            None => None,
        });
    }
    Some(groups)
}

} // verus!
