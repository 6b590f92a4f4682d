//! Keep/exclude filtering of log lines. Patterns are compiled once at
//! startup; a pattern that does not compile is a fatal configuration error.
//! The regex engine is an outside collaborator: compilation and matching are
//! trusted at their interface, everything around them is verified.

use vstd::prelude::*;
use crate::models::LogMessage;

verus! {

#[verifier::external_type_specification]
#[verifier::external_body]
pub struct ExRegex(regex::Regex);

/// Whether `regex::Regex::new` accepts a pattern text.
pub uninterp spec fn regex_ok(pattern: Seq<char>) -> bool;

/// What `regex::Regex::is_match` returns for a pattern and a haystack.
pub uninterp spec fn regex_match(pattern: Seq<char>, text: Seq<char>) -> bool;

/// A compiled pattern, kept together with the text it was compiled from;
/// its value is that text.
pub struct Pattern {
    regex: regex::Regex,
    source: String,
}

impl Pattern {
    pub closed spec fn view(&self) -> Seq<char> {
        self.source@
    }
}

/// Relies on `regex::Regex::new`: whether compilation succeeds depends on
/// the pattern text alone, and the value it returns matches as that pattern.
/// On failure the error's rendering is handed back as the cause.
#[verifier::external_body]
fn compile_pattern(pattern: &str) -> (r: Result<Pattern, String>)
    ensures
        r is Ok <==> regex_ok(pattern@),
        r is Ok ==> r->Ok_0@ == pattern@,
{
    match regex::Regex::new(pattern) {
        Ok(regex) => Ok(Pattern { regex, source: pattern.to_string() }),
        Err(e) => Err(format!("{}", e)),
    }
}

/// Relies on `regex::Regex::is_match`: whether the pattern matches anywhere
/// in the text depends on the pattern and the text alone.
#[verifier::external_body]
fn pattern_matches(p: &Pattern, text: &str) -> (r: bool)
    ensures
        r == regex_match(p@, text@),
{
    p.regex.is_match(text)
}

/// Why a filter could not be built; the payload is the cause reported by the
/// regex engine.
pub enum FilterError {
    InvalidFilter(String),
    InvalidExclude(String),
}

/// Zero or one keep-only ("filter") pattern and zero or one exclude pattern, compiled
/// once. Immutable after construction.
pub struct FilterSpec {
    filter: Option<Pattern>,
    exclude: Option<Pattern>,
}

impl FilterSpec {
    /// The filter (keep-only) pattern's text, if one is set.
    pub closed spec fn filter_pat(&self) -> Option<Seq<char>> {
        match self.filter {
            Some(p) => Some(p@),
            None => None,
        }
    }

    /// The exclude pattern's text, if one is set.
    pub closed spec fn exclude_pat(&self) -> Option<Seq<char>> {
        match self.exclude {
            Some(p) => Some(p@),
            None => None,
        }
    }

    /// Law: a message is kept iff no exclude pattern is set or the exclude
    /// does not match, and no filter pattern is set or the filter matches.
    pub open spec fn keeps(&self, text: Seq<char>) -> bool {
        &&& match self.exclude_pat() {
            Some(p) => !regex_match(p, text),
            None => true,
        }
        &&& match self.filter_pat() {
            Some(p) => regex_match(p, text),
            None => true,
        }
    }

    /// Compile the operator-supplied patterns. A pattern that does not
    /// compile is reported with its cause, the filter pattern first, and no
    /// filter is built.
    pub fn new(filter: Option<String>, exclude: Option<String>) -> (r: Result<
        FilterSpec,
        FilterError,
    >)
        ensures
            r is Ok <==> ((match filter {
                Some(s) => regex_ok(s@),
                None => true,
            }) && (match exclude {
                Some(s) => regex_ok(s@),
                None => true,
            })),
            r is Ok ==> r->Ok_0.filter_pat() == (match filter {
                Some(s) => Some(s@),
                None => None::<Seq<char>>,
            }),
            r is Ok ==> r->Ok_0.exclude_pat() == (match exclude {
                Some(s) => Some(s@),
                None => None::<Seq<char>>,
            }),
            r is Err ==> match r->Err_0 {
                FilterError::InvalidFilter(_) => filter is Some && !(match filter {
                    Some(s) => regex_ok(s@),
                    None => true,
                }),
                FilterError::InvalidExclude(_) => exclude is Some && !(match exclude {
                    Some(s) => regex_ok(s@),
                    None => true,
                }) && (match filter {
                    Some(s) => regex_ok(s@),
                    None => true,
                }),
            },
    {
        let inc = match filter {
            Some(s) => match compile_pattern(s.as_str()) {
                Ok(p) => Some(p),
                Err(cause) => {
                    return Err(FilterError::InvalidFilter(cause));
                },
            },
            None => None,
        };
        let exc = match exclude {
            Some(s) => match compile_pattern(s.as_str()) {
                Ok(p) => Some(p),
                Err(cause) => {
                    return Err(FilterError::InvalidExclude(cause));
                },
            },
            None => None,
        };
        Ok(FilterSpec { filter: inc, exclude: exc })
    }

    /// Whether the message survives filtering; only its text is consulted.
    pub fn keep(&self, m: &LogMessage) -> (r: bool)
        ensures
            r == self.keeps(m@.message),
    {
        if let Some(p) = &self.exclude {
            if pattern_matches(p, m.message.as_str()) {
                return false;
            }
        }
        if let Some(p) = &self.filter {
            if !pattern_matches(p, m.message.as_str()) {
                return false;
            }
        }
        true
    }
}

/// Law: a matching exclude pattern always discards the message, whatever a
/// filter pattern would say.
pub proof fn lemma_exclude_wins(f: FilterSpec, p: Seq<char>, text: Seq<char>)
    requires
        f.exclude_pat() == Some(p),
        regex_match(p, text),
    ensures
        !f.keeps(text),
{
}

} // verus!
