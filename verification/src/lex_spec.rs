use vstd::prelude::*;
use crate::token_regex::TokenRegex;

verus! {

/// The caller-supplied rule set: an ordered collection of rules, earlier
/// rules winning ties of match length, and the category that stands for
/// end of input.
pub struct LexSpec<TType> {
    pub token_regex_collection: Vec<TokenRegex<TType>>,
    pub eof_token: TType,
}

impl<TType> LexSpec<TType> {
    pub fn new(token_regex_collection: Vec<TokenRegex<TType>>, eof_token: TType) -> (r: Self)
        ensures
            r.token_regex_collection == token_regex_collection,
            r.eof_token == eof_token,
    {
        LexSpec { token_regex_collection, eof_token }
    }
}

} // verus!
