//! The two input patterns of the registration dialogue, matched with the
//! `regex` crate.

use vstd::prelude::*;

verus! {

/// The compiled regular expression of the `regex` crate, held opaque.
#[verifier::external_type_specification]
#[verifier::external_body]
pub struct ExRegex(regex::Regex);

/// Whether `regex::Regex::new` accepts `pattern`.
pub uninterp spec fn regex_compiles(pattern: Seq<char>) -> bool;

/// Whether `regex::Regex::is_match` finds a match of `pattern` in `haystack`.
pub uninterp spec fn regex_is_match(pattern: Seq<char>, haystack: Seq<char>) -> bool;

/// A full name: three words of Ukrainian letters (or apostrophes), separated
/// by single spaces.
pub const FULL_NAME_PATTERN: &'static str = "^(?:[а-щА-ЩЬьЮюЯяЇїІіЄєҐґ']+ ){2}[а-щА-ЩЬьЮюЯяЇїІіЄєҐґ']+$";

/// A group code such as `ФБ-96` or `ФІ-11мп`, at the end of the text.
pub const GROUP_PATTERN: &'static str = "Ф(Б|Е|І|Ф)-\\d\\d(мп|мн)?+$";

/// A compiled regular expression together with its source text.
pub struct Pattern {
    source: String,
    regex: regex::Regex,
}

impl View for Pattern {
    type V = Seq<char>;

    /// The source text the expression was compiled from.
    closed spec fn view(&self) -> Seq<char> {
        self.source@
    }
}

impl Pattern {
    /// Compiles `pattern` with `regex::Regex::new`; `None` where the crate
    /// refuses the pattern.
    #[verifier::external_body]
    pub(crate) fn compile(pattern: &str) -> (r: Option<Pattern>)
        ensures
            r is Some <==> regex_compiles(pattern@),
            r matches Some(p) ==> p@ == pattern@,
    {
        match regex::Regex::new(pattern) {
            Ok(regex) => Some(Pattern { source: pattern.to_string(), regex }),
            Err(_) => None,
        }
    }

    /// Whether the expression matches somewhere in `haystack`
    /// (`regex::Regex::is_match`).
    #[verifier::external_body]
    pub(crate) fn is_match(&self, haystack: &str) -> (b: bool)
        ensures
            b == regex_is_match(self@, haystack@),
    {
        self.regex.is_match(haystack)
    }
}

/// The compiled patterns the dialogue checks its answers against.
pub struct Patterns {
    full_name: Pattern,
    group: Pattern,
}

impl Patterns {
    /// The full-name pattern is [`FULL_NAME_PATTERN`] and the group pattern is
    /// [`GROUP_PATTERN`].
    pub closed spec fn wf(&self) -> bool {
        &&& self.full_name@ == FULL_NAME_PATTERN@
        &&& self.group@ == GROUP_PATTERN@
    }

    /// Compiles both patterns; `None` if the regex crate refuses either.
    pub fn new() -> (r: Option<Patterns>)
        ensures
            r is Some <==> regex_compiles(FULL_NAME_PATTERN@) && regex_compiles(GROUP_PATTERN@),
            r matches Some(p) ==> p.wf(),
    {
        let full_name = Pattern::compile(FULL_NAME_PATTERN);
        let group = Pattern::compile(GROUP_PATTERN);
        match (full_name, group) {
            (Some(full_name), Some(group)) => Some(Patterns { full_name, group }),
            _ => None,
        }
    }

    /// Whether `text` is a full name.
    pub fn is_full_name(&self, text: &str) -> (b: bool)
        requires
            self.wf(),
        ensures
            b == regex_is_match(FULL_NAME_PATTERN@, text@),
    {
        self.full_name.is_match(text)
    }

    /// Whether `text` ends in a group code.
    pub fn is_group(&self, text: &str) -> (b: bool)
        requires
            self.wf(),
        ensures
            b == regex_is_match(GROUP_PATTERN@, text@),
    {
        self.group.is_match(text)
    }
}

}
