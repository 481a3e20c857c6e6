use vstd::prelude::*;
use crate::traceable_token::TraceableToken;

verus! {

/// A source of located tokens: a buffer is supplied once, and tokens are
/// pulled from it one at a time until none are left.
pub trait Lexer<'a, TType> {
    fn load_source(&mut self, source: &'a str);
    fn next_token(&mut self) -> Option<TraceableToken<TType>>;
}

} // verus!
