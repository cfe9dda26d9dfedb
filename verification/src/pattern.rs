//! Detection patterns: regular expressions that a scanned serial number is
//! matched against.
use vstd::prelude::*;
use crate::error::{AppError, validation_failure};
use crate::text::opt_text;

verus! {

#[verifier::external_type_specification]
#[verifier::external_body]
pub struct ExRegex(regex::Regex);

/// What `regex::Regex::new(pattern)` gives: `None` when the pattern
/// compiles, else the text (`Display`) of the compile error.
pub uninterp spec fn regex_compile_error(pattern: Seq<char>) -> Option<Seq<char>>;

/// What `is_match(text)` answers for the regex compiled from `pattern`.
pub uninterp spec fn regex_finds_match(pattern: Seq<char>, text: Seq<char>) -> bool;

/// A pattern together with the regex compiled from it.
pub struct CompiledPattern {
    source: String,
    regex: regex::Regex,
}

impl CompiledPattern {
    /// The pattern text this regex was compiled from.
    pub closed spec fn source(&self) -> Seq<char> {
        self.source@
    }
}

/// `regex::Regex::new`: `Ok` exactly when the pattern compiles, else the
/// error's text.
#[verifier::external_body]
fn compile(pattern: &str) -> (r: Result<CompiledPattern, String>)
    ensures
        match r {
            Ok(c) => regex_compile_error(pattern@) is None && c.source() == pattern@,
            Err(m) => regex_compile_error(pattern@) == Some(m@),
        },
{
    match regex::Regex::new(pattern) {
        Ok(regex) => Ok(CompiledPattern { source: pattern.to_string(), regex }),
        Err(e) => Err(e.to_string()),
    }
}

/// `regex::Regex::is_match`.
#[verifier::external_body]
fn is_match(c: &CompiledPattern, text: &str) -> (b: bool)
    ensures
        b == regex_finds_match(c.source(), text@),
{
    c.regex.is_match(text)
}

/// The message that rejects a detection pattern whose compile error reads `e`.
pub open spec fn invalid_pattern_text(e: Seq<char>) -> Seq<char> {
    "motif de détection invalide: "@ + e
}

/// The message that rejects a pattern that does not compile.
pub open spec fn pattern_rejection(p: Seq<char>) -> Seq<char> {
    match regex_compile_error(p) {
        Some(e) => invalid_pattern_text(e),
        None => Seq::empty(),
    }
}

/// A pattern is acceptable when absent or when it compiles.
pub open spec fn pattern_ok(pattern: Option<Seq<char>>) -> bool {
    match pattern {
        Some(p) => regex_compile_error(p) is None,
        None => true,
    }
}

/// Checks that a detection pattern, when given, compiles.
pub fn validate_pattern(pattern: &Option<String>) -> (r: Result<(), AppError>)
    ensures
        r is Ok <==> pattern_ok(opt_text(*pattern)),
        !pattern_ok(opt_text(*pattern)) ==> validation_failure(
            r,
            pattern_rejection(opt_text(*pattern)->0),
        ),
{
    match pattern {
        Some(p) => match compile(p.as_str()) {
            Ok(_) => Ok(()),
            Err(e) => {
                let mut m = String::new();
                m.append("motif de détection invalide: ");
                m.append(e.as_str());
                proof {
                    assert(m@ =~= invalid_pattern_text(e@));
                }
                Err(AppError::Validation(m))
            },
        },
        None => Ok(()),
    }
}

/// Whether a detection pattern recognises a scanned value: it must be given,
/// compile, and match somewhere in the value.
pub open spec fn pattern_detects(pattern: Option<Seq<char>>, value: Seq<char>) -> bool {
    match pattern {
        Some(p) => regex_compile_error(p) is None && regex_finds_match(p, value),
        None => false,
    }
}

/// Whether the detection pattern recognises the scanned value; a pattern
/// that does not compile recognises nothing.
pub fn detects(pattern: &Option<String>, value: &str) -> (b: bool)
    ensures
        b == pattern_detects(opt_text(*pattern), value@),
        b == (pattern is Some && regex_compile_error(pattern->0@) is None && regex_finds_match(
            pattern->0@,
            value@,
        )),
{
    match pattern {
        Some(p) => match compile(p.as_str()) {
            Ok(c) => is_match(&c, value),
            Err(_) => false,
        },
        None => false,
    }
}

} // verus!
