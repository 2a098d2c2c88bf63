//! Which names Discord accepts.

use regex::Regex;
use vstd::prelude::*;

verus! {

/// What the names of slash commands and of options are made of.
// https://discord.com/developers/docs/interactions/application-commands
pub const COMMAND_NAME_PATTERN: &'static str = r"^[-_\p{L}\p{N}\p{sc=Deva}\p{sc=Thai}]{1,32}$";

/// What the names of context menu commands are made of: they can hold spaces too.
pub const CONTEXT_MENU_NAME_PATTERN: &'static str =
    r"^[-_ \p{L}\p{N}\p{sc=Deva}\p{sc=Thai}]{1,32}$";

/// A compiled regular expression.
#[verifier::external_type_specification]
#[verifier::external_body]
pub struct ExRegex(Regex);

/// Whether `pattern` is a regular expression.
pub uninterp spec fn is_regex(pattern: Seq<char>) -> bool;

/// The pattern that a regular expression was compiled from.
pub uninterp spec fn regex_source(regex: Regex) -> Seq<char>;

/// Whether the regular expression that is compiled from `pattern` matches `text`.
pub uninterp spec fn regex_match(pattern: Seq<char>, text: Seq<char>) -> bool;

/// `text` in lower case.
pub uninterp spec fn lowercase(text: Seq<char>) -> Seq<char>;

/// `Regex::new`: compiles a pattern if it is a regular expression, which is a function of the
/// pattern that [`is_regex`] names.
#[verifier::external_body]
fn regex_new(pattern: &str) -> (r: Option<Regex>)
    ensures
        r is Some <==> is_regex(pattern@),
        r matches Some(regex) ==> regex_source(regex) == pattern@,
{
    Regex::new(pattern).ok()
}

/// `Regex::is_match`: whether the regular expression matches anywhere in the text, a function of
/// the pattern that it was compiled from and of the text, which [`regex_match`] names.
#[verifier::external_body]
fn regex_is_match(regex: &Regex, text: &str) -> (r: bool)
    ensures
        r == regex_match(regex_source(*regex), text@),
{
    regex.is_match(text)
}

/// `str::to_lowercase`: the lower case equivalent, a function of the text, which [`lowercase`]
/// names.
#[verifier::external_body]
fn to_lowercase(text: &str) -> (r: String)
    ensures
        r@ == lowercase(text@),
{
    text.to_lowercase()
}

/// Whether `pattern` is a regular expression that matches `text`.
pub open spec fn is_matched(pattern: Seq<char>, text: Seq<char>) -> bool {
    is_regex(pattern) && regex_match(pattern, text)
}

/// Whether `name` is made of what command names are made of, and, unless `allow_mixed_case` is
/// set, in lower case.
pub open spec fn is_compliant_name(name: Seq<char>, allow_mixed_case: bool) -> bool {
    is_matched(COMMAND_NAME_PATTERN@, name) && (allow_mixed_case || lowercase(name) == name)
}

/// Whether Discord accepts `name` for a context menu command.
pub open spec fn is_compliant_context_menu_name(name: Seq<char>) -> bool {
    is_matched(CONTEXT_MENU_NAME_PATTERN@, name)
}

/// Whether Discord accepts `name` for a context menu command if `context_menu` is set, else for a
/// slash command or an option.
pub open spec fn is_accepted_name(name: Seq<char>, context_menu: bool) -> bool {
    if context_menu {
        is_compliant_context_menu_name(name)
    } else {
        is_compliant_name(name, false)
    }
}

/// Decides on a name, given whether the pattern for it matched and what it is in lower case.
///
/// If `allow_mixed_case` is false, the name must be lowercase, else the casing is ignored.
pub fn judge_name(
    matched: bool,
    lowercased: &String,
    name: &String,
    allow_mixed_case: bool,
) -> (r: bool)
    ensures
        r == (matched && (allow_mixed_case || lowercased@ == name@)),
{
    matched && (allow_mixed_case || *lowercased == *name)
}

/// Whether `regex` is what [`regex_new`] makes of `pattern`.
spec fn is_compiled(regex: Option<Regex>, pattern: Seq<char>) -> bool {
    match regex {
        Some(regex) => is_regex(pattern) && regex_source(regex) == pattern,
        None => !is_regex(pattern),
    }
}

fn is_match(regex: &Option<Regex>, text: &String, pattern: &str) -> (r: bool)
    requires
        is_compiled(*regex, pattern@),
    ensures
        r == is_matched(pattern@, text@),
{
    match regex {
        Some(regex) => regex_is_match(regex, text.as_str()),
        None => false,
    }
}

/// The patterns for names, compiled.
pub(crate) struct NamePatterns {
    command: Option<Regex>,
    context_menu: Option<Regex>,
}

impl NamePatterns {
    /// Each of the two is what its pattern compiles to.
    #[verifier::type_invariant]
    pub(crate) closed spec fn are_compiled(&self) -> bool {
        &&& is_compiled(self.command, COMMAND_NAME_PATTERN@)
        &&& is_compiled(self.context_menu, CONTEXT_MENU_NAME_PATTERN@)
    }

    /// Compiles the patterns.
    pub(crate) fn new() -> (r: Self)
        ensures
            r.are_compiled(),
    {
        NamePatterns {
            command: regex_new(COMMAND_NAME_PATTERN),
            context_menu: regex_new(CONTEXT_MENU_NAME_PATTERN),
        }
    }

    /// Checks if `name` matches [`COMMAND_NAME_PATTERN`]; see [`check_name`].
    pub(crate) fn check_name(&self, name: &String, allow_mixed_case: bool) -> (r: bool)
        ensures
            r == is_compliant_name(name@, allow_mixed_case),
    {
        proof {
            use_type_invariant(self);
        }
        let matched = is_match(&self.command, name, COMMAND_NAME_PATTERN);
        let lowercased = to_lowercase(name.as_str());
        judge_name(matched, &lowercased, name, allow_mixed_case)
    }

    /// Checks if `name` matches [`CONTEXT_MENU_NAME_PATTERN`]; see [`check_context_menu_name`].
    pub(crate) fn check_context_menu_name(&self, name: &String) -> (r: bool)
        ensures
            r == is_compliant_context_menu_name(name@),
    {
        proof {
            use_type_invariant(self);
        }
        is_match(&self.context_menu, name, CONTEXT_MENU_NAME_PATTERN)
    }

    /// Checks if Discord accepts `name` for a context menu command if `context_menu` is set, else
    /// for a slash command or an option.
    pub(crate) fn check_accepted(&self, name: &String, context_menu: bool) -> (r: bool)
        ensures
            r == is_accepted_name(name@, context_menu),
    {
        if context_menu {
            self.check_context_menu_name(name)
        } else {
            self.check_name(name, false)
        }
    }
}

/// Checks if `name` matches [`COMMAND_NAME_PATTERN`].
///
/// If `allow_mixed_case` is false, the name must be lowercase (slash command names)
/// else the casing is ignored.
///
/// This is used for command names and option names.
pub fn check_name(name: &String, allow_mixed_case: bool) -> (r: bool)
    ensures
        r == is_compliant_name(name@, allow_mixed_case),
{
    NamePatterns::new().check_name(name, allow_mixed_case)
}

/// Checks if `name` matches [`CONTEXT_MENU_NAME_PATTERN`].
///
/// The names of context menu commands may be mixed case and can include spaces.
pub fn check_context_menu_name(name: &String) -> (r: bool)
    ensures
        r == is_compliant_context_menu_name(name@),
{
    NamePatterns::new().check_context_menu_name(name)
}

} // verus!
