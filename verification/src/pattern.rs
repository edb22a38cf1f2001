//! Prompt-detection patterns.
//!
//! When the user configures a prompt regex it overrides the tracker's
//! learning.  The regex engine is the `regex` crate; its compiled value is
//! opaque here, so it is kept next to the pattern it was compiled from,
//! and what compilation and matching return is named by two uninterpreted
//! spec functions applied in the trusted wrappers below.  Only
//! [`compile_prompt_regex`] constructs a [`PromptRegex`], which is what
//! ties the compiled value to its source pattern.

use vstd::prelude::*;

verus! {

#[verifier::external_type_specification]
#[verifier::external_body]
pub struct ExRegex(regex::Regex);

/// Whether `regex::Regex::new` accepts the pattern (with its default size
/// limit): a function of the pattern alone.
pub uninterp spec fn regex_pattern_valid(pattern: Seq<char>) -> bool;

/// Whether the regex compiled from `pattern` matches anywhere in `line`:
/// a function of the pattern and the line alone.
pub uninterp spec fn regex_accepts(pattern: Seq<char>, line: Seq<char>) -> bool;

/// A compiled prompt detector, paired with the pattern it came from.
#[derive(Debug)]
pub struct PromptRegex {
    pattern: String,
    compiled: regex::Regex,
}

impl PromptRegex {
    /// The source pattern of this detector.
    pub closed spec fn spec_pattern(&self) -> Seq<char> {
        self.pattern@
    }

    /// Returns the source pattern of this detector.
    pub fn pattern(&self) -> (r: &str)
        ensures
            r@ == self.spec_pattern(),
    {
        self.pattern.as_str()
    }
}

/// Relies on `regex::Regex::new`: an invalid pattern (and only an invalid
/// pattern) is refused, deterministically in the pattern; the compiled
/// value is stored beside the pattern it came from.
#[verifier::external_body]
pub fn compile_prompt_regex(pattern: &str) -> (r: Option<PromptRegex>)
    ensures
        r is Some <==> regex_pattern_valid(pattern@),
        r matches Some(p) ==> p.spec_pattern() == pattern@,
{
    match regex::Regex::new(pattern) {
        Ok(compiled) => Some(PromptRegex { pattern: pattern.to_owned(), compiled }),
        Err(_) => None,
    }
}

/// Relies on `regex::Regex::is_match`: true exactly when there is a match
/// anywhere in `line`, deterministically in the compiled pattern and the
/// line.  The `compiled` field always holds the regex of `pattern`,
/// because `compile_prompt_regex` is the type's only constructor.
#[verifier::external_body]
pub fn prompt_regex_is_match(re: &PromptRegex, line: &str) -> (r: bool)
    ensures
        r == regex_accepts(re.spec_pattern(), line@),
{
    re.compiled.is_match(line)
}

/// The pattern the overlay will use: the configured one wins over the
/// environment's.
pub open spec fn chosen_pattern(config: Option<Seq<char>>, env: Option<Seq<char>>) -> Option<
    Seq<char>,
> {
    if config is Some {
        config
    } else {
        env
    }
}

/// Picks and compiles the prompt pattern, the configured one first, the
/// environment's otherwise.  `Ok(None)` when neither is given; the invalid
/// pattern itself comes back as the error.
pub fn resolve_prompt_regex(config_pattern: Option<String>, env_pattern: Option<String>) -> (r:
    Result<Option<PromptRegex>, String>)
    ensures
        ({
            let chosen = chosen_pattern(
                match config_pattern {
                    Option::Some(ref s) => Option::Some(s@),
                    Option::None => Option::None,
                },
                match env_pattern {
                    Option::Some(ref s) => Option::Some(s@),
                    Option::None => Option::None,
                },
            );
            match chosen {
                Option::None => r matches Ok(o) && o is None,
                Option::Some(p) => {
                    &&& regex_pattern_valid(p) ==> (r matches Ok(o) && o matches Some(re)
                        && re.spec_pattern() == p)
                    &&& !regex_pattern_valid(p) ==> (r matches Err(raw) && raw@ == p)
                },
            }
        }),
{
    let raw = match config_pattern {
        Option::Some(s) => s,
        Option::None => {
            match env_pattern {
                Option::Some(s) => s,
                Option::None => {
                    return Result::Ok(Option::None);
                },
            }
        },
    };
    match compile_prompt_regex(raw.as_str()) {
        Option::Some(re) => Result::Ok(Option::Some(re)),
        Option::None => Result::Err(raw),
    }
}

/// Picks the prompt-log path: the configured one wins over the
/// environment's.
pub fn resolve_prompt_log(config_path: Option<String>, env_path: Option<String>) -> (r: Option<
    String,
>)
    ensures
        config_path is Some ==> r == config_path,
        config_path is None ==> r == env_path,
{
    match config_path {
        Option::Some(p) => Option::Some(p),
        Option::None => env_path,
    }
}

} // verus!
