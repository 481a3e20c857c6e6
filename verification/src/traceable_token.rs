use vstd::prelude::*;
use crate::text_location::TextLocation;
use crate::token::Token;

verus! {

/// A token paired with the location of its first character in the source,
/// measured before the token itself was consumed.
#[derive(Clone, Debug)]
pub struct TraceableToken<TType> {
    pub location: TextLocation,
    pub token: Token<TType>,
}

impl<TType> TraceableToken<TType> {
    pub fn new(location: TextLocation, token: Token<TType>) -> (r: Self)
        ensures
            r.location == location,
            r.token == token,
    {
        TraceableToken { location, token }
    }
}

} // verus!
