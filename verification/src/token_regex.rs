use vstd::prelude::*;

verus! {

#[verifier::external_type_specification]
#[verifier::external_body]
pub struct ExRegex(regex::Regex);

/// The leftmost match that a compiled pattern finds in a text, if any:
/// `regex::Regex::find` computes it from the pattern and the text alone,
/// and no short formula says which substring it is.
pub uninterp spec fn regex_found(r: regex::Regex, text: Seq<char>) -> Option<Seq<char>>;

/// Relies on `regex::Regex::find`: the leftmost match depends on the compiled
/// pattern and the haystack alone, and the matched text is a contiguous
/// substring of the haystack, so it is never longer than the haystack.
#[verifier::external_body]
pub(crate) fn regex_find(r: &regex::Regex, text: &str) -> (m: Option<String>)
    ensures
        m is Some <==> regex_found(*r, text@) is Some,
        m matches Some(s) ==> regex_found(*r, text@) == Some(s@) && s@.len() <= text@.len(),
{
    match r.find(text) {
        Some(found) => Some(found.as_str().to_string()),
        None => None,
    }
}

/// One scanning rule: a compiled pattern, the category a match of it gets,
/// and how the engine treats a token of that category.
pub struct TokenRegex<TType> {
    /// The compiled pattern, expected to be anchored to the start of the text.
    pub regex: regex::Regex,
    /// The category a match of this rule is tagged with.
    pub t_type: TType,
    /// A matched token of this rule is consumed without being emitted.
    pub is_skip: bool,
    /// A matched token of this rule starts a new line: consuming it resets
    /// the column to 1 and increments the line.
    pub is_new_line: bool,
}

impl<TType> TokenRegex<TType> {
    pub fn new(regex: regex::Regex, t_type: TType, is_skip: bool, is_new_line: bool) -> (r: Self)
        ensures
            r.regex == regex,
            r.t_type == t_type,
            r.is_skip == is_skip,
            r.is_new_line == is_new_line,
    {
        TokenRegex { regex, t_type, is_skip, is_new_line }
    }
}

} // verus!
