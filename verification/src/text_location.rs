use vstd::prelude::*;

verus! {

/// A 1-based (column, line) position in a source text.
#[derive(Clone, Copy, Debug)]
pub struct TextLocation {
    pub column: u64,
    pub line: u64,
}

impl TextLocation {
    pub fn new(column: u64, line: u64) -> (r: Self)
        ensures
            r.column == column,
            r.line == line,
    {
        TextLocation { column, line }
    }
}

/// A location is well formed when both axes are 1-based.
pub open spec fn location_wf(loc: TextLocation) -> bool {
    loc.column >= 1 && loc.line >= 1
}

} // verus!
