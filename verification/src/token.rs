use vstd::prelude::*;

verus! {

/// A classified piece of source text: the category the winning rule assigned
/// to it, and the exact matched text.
#[derive(Clone, Debug)]
pub struct Token<TType> {
    pub t_type: TType,
    pub text: String,
}

impl<TType> Token<TType> {
    pub fn new(t_type: TType, text: String) -> (r: Self)
        ensures
            r.t_type == t_type,
            r.text == text,
    {
        Token { t_type, text }
    }
}

} // verus!
