//! The window-title pattern: compiled once at startup, then only read.

use regex::Error as CompileError;
use regex::Regex;
use vstd::prelude::*;

verus! {

/// A compiled regular expression of the `regex` crate, carried as an opaque
/// value.
#[verifier::external_type_specification]
#[verifier::external_body]
pub struct ExRegex(Regex);

/// The error of `Regex::new`, carried as an opaque value.
#[verifier::external_type_specification]
#[verifier::external_body]
pub struct ExCompileError(CompileError);

/// Whether `Regex::new` accepts this pattern text.
pub uninterp spec fn pattern_compiles(pattern: Seq<char>) -> bool;

/// Whether the regular expression written as `pattern` has a match anywhere
/// in `title`, as `Regex::is_match` decides it.
pub uninterp spec fn pattern_accepts(pattern: Seq<char>, title: Seq<char>) -> bool;

/// The text that a compiled expression was written as, which `Regex::as_str`
/// returns.
pub uninterp spec fn pattern_text(compiled: Regex) -> Seq<char>;

/// Whether a compiled expression was made by `Regex::new`, which sets no
/// option of its own: its answers are then those of its text alone.
pub uninterp spec fn plainly_compiled(compiled: Regex) -> bool;

/// Calls `Regex::new`. It fails on text that is no valid pattern or compiles
/// to more than the default size limit, and otherwise returns an expression
/// that remembers the text it was given.
#[verifier::external_body]
fn compile(pattern: &str) -> (r: Result<Regex, CompileError>)
    ensures
        r.is_ok() == pattern_compiles(pattern@),
        r matches Ok(compiled) ==> pattern_text(compiled) == pattern@ && plainly_compiled(
            compiled,
        ),
{
    Regex::new(pattern)
}

/// Calls `Regex::is_match`: true if and only if the expression has a match
/// anywhere in the title. The answer is that of the expression's text for an
/// expression that `Regex::new` made; one built with other options may
/// answer otherwise, and is left out.
#[verifier::external_body]
fn is_match(compiled: &Regex, title: &str) -> (found: bool)
    requires
        plainly_compiled(*compiled),
    ensures
        found == pattern_accepts(pattern_text(*compiled), title@),
{
    compiled.is_match(title)
}

/// Calls `Regex::as_str`, which returns the text that the expression was
/// compiled from.
#[verifier::external_body]
fn text_of(compiled: &Regex) -> (text: String)
    ensures
        text@ == pattern_text(*compiled),
{
    compiled.as_str().to_owned()
}

/// Why no matcher could be made.
#[derive(Clone, Copy, Debug, PartialEq, Eq, Structural)]
pub enum PatternError {
    /// The built-in pattern does not compile.
    InvalidDefault,
}

/// Decides from a window's title whether the shortcut is re-sent to it.
///
/// It holds the built-in pattern and, where the configured one compiled, that
/// one too. Neither changes after construction.
pub struct WindowMatcher {
    configured: Option<Regex>,
    fallback: Regex,
}

impl WindowMatcher {
    /// Both expressions were made by `compile`.
    #[verifier::type_invariant]
    spec fn both_plainly_compiled(&self) -> bool {
        &&& plainly_compiled(self.fallback)
        &&& self.configured matches Some(compiled) ==> plainly_compiled(compiled)
    }

    /// Whether the configured pattern compiled and is in force.
    pub closed spec fn is_set(&self) -> bool {
        self.configured.is_some()
    }

    /// The text of the pattern that titles are tested against: the configured
    /// one where it is set, else the built-in one.
    pub closed spec fn pattern(&self) -> Seq<char> {
        match self.configured {
            Some(compiled) => pattern_text(compiled),
            None => pattern_text(self.fallback),
        }
    }

    /// Whether this matcher is what `new` makes of the two pattern texts.
    pub open spec fn built_from(&self, default_pattern: Seq<char>, configured_pattern: Seq<char>) -> bool {
        &&& pattern_compiles(default_pattern)
        &&& self.is_set() == pattern_compiles(configured_pattern)
        &&& self.pattern() == if pattern_compiles(configured_pattern) {
            configured_pattern
        } else {
            default_pattern
        }
    }

    /// Compiles both patterns. A built-in pattern that does not compile is an
    /// error. A configured pattern that does not compile leaves the matcher
    /// unset, with the built-in pattern in force.
    pub fn new(default_pattern: &str, configured_pattern: &str) -> (r: Result<
        WindowMatcher,
        PatternError,
    >)
        ensures
            r.is_ok() == pattern_compiles(default_pattern@),
            r is Err ==> r == Err::<WindowMatcher, PatternError>(PatternError::InvalidDefault),
            r matches Ok(m) ==> m.built_from(default_pattern@, configured_pattern@),
    {
        let fallback = match compile(default_pattern) {
            Ok(compiled) => compiled,
            Err(_) => {
                return Err(PatternError::InvalidDefault);
            },
        };
        let configured = match compile(configured_pattern) {
            Ok(compiled) => Some(compiled),
            Err(_) => None,
        };
        Ok(WindowMatcher { configured, fallback })
    }

    /// Whether the configured pattern is in force.
    pub fn has_configured(&self) -> (set: bool)
        ensures
            set == self.is_set(),
    {
        self.configured.is_some()
    }

    /// The text of the pattern in force.
    pub fn active_pattern(&self) -> (text: String)
        ensures
            text@ == self.pattern(),
    {
        match &self.configured {
            Some(compiled) => text_of(compiled),
            None => text_of(&self.fallback),
        }
    }

    /// Tests a title against the pattern in force. The answer is that of the
    /// pattern itself, for every title, the empty one included.
    pub fn matches(&self, title: &str) -> (found: bool)
        ensures
            found == pattern_accepts(self.pattern(), title@),
    {
        proof {
            use_type_invariant(self);
        }
        match &self.configured {
            Some(compiled) => is_match(compiled, title),
            None => is_match(&self.fallback, title),
        }
    }
}

} // verus!
