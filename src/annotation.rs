use vstd::prelude::*;

use crate::enzymes::RestrictionEnzyme;

verus! {

/// A recognition site found on a sequence: the matched range `start..end`
/// (`end` exclusive), the cut position, and the enzyme's name.
#[derive(Debug, Clone, PartialEq, Eq)]
pub struct Annotation {
    pub start: usize,
    pub end: usize,
    pub needle: Option<usize>,
    pub text: String,
}

impl Annotation {
    /// An annotation over `start..end`, cutting at `needle`, named after `enzyme`.
    pub fn new_from_restriction_enzyme(
        start: usize,
        end: usize,
        needle: Option<usize>,
        enzyme: &RestrictionEnzyme,
    ) -> (r: Annotation)
        ensures
            r.start == start,
            r.end == end,
            r.needle == needle,
            r.text@ == enzyme@.name,
    {
        Annotation { start, end, needle, text: enzyme.name().clone() }
    }
}

} // verus!
