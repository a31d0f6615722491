use vstd::prelude::*;

use crate::eaa::{genetic_code, Eaa};
use crate::error::DecodeError;
use crate::rna::{RnaCodon, RnaNucleotide};
use crate::seq::{codon_at, GeneticSequence};
use crate::traits::{decodable, decoded, fails_at, Codon};

verus! {

/// An RNA sequence read straight into amino acids.
pub struct RnaSequenceBuilder {
    sequence: GeneticSequence<RnaNucleotide, RnaCodon>,
}

impl View for RnaSequenceBuilder {
    type V = Seq<RnaNucleotide>;

    closed spec fn view(&self) -> Seq<RnaNucleotide> {
        self.sequence@
    }
}

impl RnaSequenceBuilder {
    pub fn new() -> (r: Self)
        ensures
            r@ == Seq::<RnaNucleotide>::empty(),
    {
        RnaSequenceBuilder { sequence: GeneticSequence::new() }
    }

    /// Decodes the letters of `s` and appends them; on a character that is not an
    /// RNA letter it stops and reports it, the bases before it staying appended.
    pub fn load_str(&mut self, s: &str) -> (r: Result<(), DecodeError>)
        ensures
            match r {
                Ok(()) => {
                    &&& decodable::<RnaNucleotide>(s@)
                    &&& final(self)@ == old(self)@ + decoded::<RnaNucleotide>(s@)
                },
                Err(DecodeError::InvalidChar(c)) => exists|i: int|
                    {
                        &&& fails_at::<RnaNucleotide>(s@, i)
                        &&& c == s@[i]
                        &&& final(self)@ == old(self)@ + decoded::<RnaNucleotide>(s@.take(i))
                    },
            },
    {
        self.sequence.push_base_str(s)
    }

    /// Decodes a letter string.
    pub fn from_str(s: &str) -> (r: Result<RnaSequenceBuilder, DecodeError>)
        ensures
            match r {
                Ok(b) => decodable::<RnaNucleotide>(s@) && b@ == decoded::<RnaNucleotide>(s@),
                Err(DecodeError::InvalidChar(c)) => exists|i: int|
                    fails_at::<RnaNucleotide>(s@, i) && c == s@[i],
            },
    {
        let mut builder = RnaSequenceBuilder::new();
        match builder.load_str(s) {
            Ok(()) => {
                assert(decoded::<RnaNucleotide>(s@) =~= Seq::<RnaNucleotide>::empty()
                    + decoded::<RnaNucleotide>(s@));
                Ok(builder)
            },
            Err(err) => Err(err),
        }
    }

    pub fn add_base(&mut self, base: RnaNucleotide)
        ensures
            final(self)@ == old(self)@.push(base),
    {
        self.sequence.push_base(base)
    }

    /// The amino acids of the codons read in frame from the first base; bases
    /// past the last complete codon are left out.
    pub fn codons(&self) -> (r: Vec<Eaa>)
        ensures
            r@.len() == self@.len() / 3,
            forall|i: int|
                0 <= i < r@.len() ==> #[trigger] r@[i] == genetic_code(
                    codon_at(self@, i).0,
                    codon_at(self@, i).1,
                    codon_at(self@, i).2,
                ),
    {
        let codons = self.sequence.codons();
        let mut r: Vec<Eaa> = Vec::new();
        let mut i: usize = 0;
        while i < codons.len()
            invariant
                codons@.len() == self@.len() / 3,
                forall|j: int| 0 <= j < codons@.len() ==> (#[trigger] codons@[j]).spec_bases() == codon_at(self@, j),
                i <= codons@.len(),
                r@.len() == i,
                forall|j: int|
                    0 <= j < i ==> #[trigger] r@[j] == genetic_code(
                        codon_at(self@, j).0,
                        codon_at(self@, j).1,
                        codon_at(self@, j).2,
                    ),
            decreases codons@.len() - i,
        {
            r.push(codons[i].translate());
            i = i + 1;
        }
        r
    }
}

} // verus!
