use vstd::prelude::*;

use crate::rna::{RnaCodon, RnaNucleotide};

verus! {

/// Up to three RNA bases: a codon still being filled. Every constructor makes
/// one of at most three bases, and `push` keeps it so.
#[derive(Debug, Clone, PartialEq, Eq)]
pub struct RnaPartialCodon {
    bases: Vec<RnaNucleotide>,
}

impl View for RnaPartialCodon {
    type V = Seq<RnaNucleotide>;

    closed spec fn view(&self) -> Seq<RnaNucleotide> {
        self.bases@
    }
}

impl RnaPartialCodon {
    pub fn new() -> (r: Self)
        ensures
            r@ == Seq::<RnaNucleotide>::empty(),
    {
        RnaPartialCodon { bases: Vec::with_capacity(3) }
    }

    /// The first (at most three) bases of `slice`.
    pub fn from_slice(slice: &[RnaNucleotide]) -> (r: RnaPartialCodon)
        ensures
            r@ == slice@.take(if slice@.len() < 3 { slice@.len() as int } else { 3 }),
    {
        let mut pcodon = RnaPartialCodon::new();
        let m = if slice.len() < 3 { slice.len() } else { 3 };
        let mut i: usize = 0;
        while i < m
            invariant
                m <= 3,
                m <= slice@.len(),
                i <= m,
                pcodon@ == slice@.take(i as int),
            decreases m - i,
        {
            let pushed = pcodon.push(slice[i]);
            assert(pushed is Ok);
            assert(slice@.take(i + 1) =~= slice@.take(i as int).push(slice@[i as int]));
            i = i + 1;
        }
        pcodon
    }

    /// Adds a base; refused, leaving the codon as it is, when three are there already.
    pub fn push(&mut self, item: RnaNucleotide) -> (r: Result<(), ()>)
        requires
            old(self)@.len() <= 3,
        ensures
            old(self)@.len() == 3 ==> r is Err && final(self)@ == old(self)@,
            old(self)@.len() < 3 ==> r is Ok && final(self)@ == old(self)@.push(item),
    {
        if self.bases.len() == 3 {
            Err(())
        } else {
            self.bases.push(item);
            Ok(())
        }
    }

    /// Removes the last base and returns it; `None` when there is none.
    pub fn pop(&mut self) -> (r: Option<RnaNucleotide>)
        ensures
            old(self)@.len() == 0 ==> r is None && final(self)@ == old(self)@,
            old(self)@.len() > 0 ==> r == Some(old(self)@.last()) && final(self)@ == old(
                self,
            )@.drop_last(),
    {
        self.bases.pop()
    }

    pub fn nucleobase_count(&self) -> (r: usize)
        ensures
            r == self@.len(),
    {
        self.bases.len()
    }

    /// The codon, once all three bases are there.
    pub fn to_codon(&self) -> (r: Option<RnaCodon>)
        ensures
            r is Some <==> self@.len() == 3,
            r is Some ==> r->0 == RnaCodon(self@[0], self@[1], self@[2]),
    {
        if self.bases.len() == 3 {
            Some(RnaCodon(self.bases[0], self.bases[1], self.bases[2]))
        } else {
            None
        }
    }
}

} // verus!
