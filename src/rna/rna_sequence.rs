use vstd::prelude::*;

use crate::rna::{RnaCodon, RnaNucleotide, RnaPartialCodon};
use crate::seq::{codon_at, GeneticSequence};
use crate::traits::{decodable, decoded, fails_at, Codon};

verus! {

/// An RNA sequence that reports the bases past its last complete codon
/// together with its codons.
pub struct RnaSequence {
    sequence: GeneticSequence<RnaNucleotide, RnaCodon>,
}

impl View for RnaSequence {
    type V = Seq<RnaNucleotide>;

    closed spec fn view(&self) -> Seq<RnaNucleotide> {
        self.sequence@
    }
}

impl RnaSequence {
    pub fn new() -> (r: Self)
        ensures
            r@ == Seq::<RnaNucleotide>::empty(),
    {
        RnaSequence { sequence: GeneticSequence::new() }
    }

    /// Decodes a letter string; `Err` where a character is not an RNA letter.
    pub fn from_str(s: &str) -> (r: Result<RnaSequence, ()>)
        ensures
            r is Ok <==> decodable::<RnaNucleotide>(s@),
            r is Ok ==> r->Ok_0@ == decoded::<RnaNucleotide>(s@),
    {
        let mut builder = RnaSequence::new();
        match builder.load_str(s) {
            Some(()) => {
                assert(decoded::<RnaNucleotide>(s@) =~= Seq::<RnaNucleotide>::empty()
                    + decoded::<RnaNucleotide>(s@));
                Ok(builder)
            },
            None => Err(()),
        }
    }

    /// Decodes the letters of `s` and appends them; `None` at the first character
    /// that is not an RNA letter, the bases before it staying appended.
    pub fn load_str(&mut self, s: &str) -> (r: Option<()>)
        ensures
            r is Some ==> decodable::<RnaNucleotide>(s@) && final(self)@ == old(self)@
                + decoded::<RnaNucleotide>(s@),
            r is None ==> exists|i: int|
                fails_at::<RnaNucleotide>(s@, i) && final(self)@ == old(self)@
                    + decoded::<RnaNucleotide>(s@.take(i)),
    {
        match self.sequence.push_base_str(s) {
            Ok(()) => Some(()),
            Err(_) => None,
        }
    }

    pub fn add_base(&mut self, base: RnaNucleotide)
        ensures
            final(self)@ == old(self)@.push(base),
    {
        self.sequence.push_base(base)
    }

    /// The codons read in frame from the first base, and the one or two bases
    /// past the last of them, if any.
    pub fn codons(&self) -> (r: (Vec<RnaCodon>, Option<RnaPartialCodon>))
        ensures
            r.0@.len() == self@.len() / 3,
            forall|i: int| 0 <= i < r.0@.len() ==> (#[trigger] r.0@[i]).spec_bases() == codon_at(self@, i),
            r.1 is None <==> self@.len() % 3 == 0,
            r.1 is Some ==> r.1->0@ == self@.skip(3 * (self@.len() / 3) as int),
    {
        let codons = self.sequence.codons();
        let bases = self.sequence.as_nucleotides();
        let n = bases.len();
        let full = 3 * codons.len();
        if full == n {
            (codons, None)
        } else {
            let extra = RnaPartialCodon::from_slice(&bases[full..n]);
            assert(bases@.subrange(full as int, n as int) =~= self@.skip(full as int));
            assert(extra@ =~= self@.skip(full as int));
            (codons, Some(extra))
        }
    }
}

} // verus!
