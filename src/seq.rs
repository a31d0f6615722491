use vstd::prelude::*;

use core::marker::PhantomData;

use crate::annotation::Annotation;
use crate::dna::{DnaCodon, DnaNucleotide};
use crate::enzymes::{restriction_enzymes, standard_registry, views, RestrictionEnzyme, ENZYME_COUNT};
use crate::error::DecodeError;
use crate::iupac::{IupacCodon, IupacNucleotide};
use crate::rna::{RnaCodon, RnaNucleotide};
use crate::scan::{all_sites, iupac_of, records_sites, restriction_sites};
use crate::text::push_char;
use crate::traits::{complements, decodable, decoded, fails_at, letters, Codon, NucleoBase};

verus! {

/// An ordered, growable run of nucleotides of one alphabet `B`, read in codons
/// of type `C`, together with the annotations found on it.
pub struct GeneticSequence<B, C> {
    sequence: Vec<B>,
    annotations: Vec<Annotation>,
    phantom: PhantomData<C>,
}

/// A DNA sequence.
pub type DnaSequence = GeneticSequence<DnaNucleotide, DnaCodon>;

/// An RNA sequence.
pub type RnaSequence = GeneticSequence<RnaNucleotide, RnaCodon>;

/// A sequence of IUPAC codes, ambiguity codes and gaps included.
pub type IupacSequence = GeneticSequence<IupacNucleotide, IupacCodon>;

/// The `i`-th codon of `s` when it is read in frame from its first base.
pub open spec fn codon_at<B>(s: Seq<B>, i: int) -> (B, B, B) {
    (s[3 * i], s[3 * i + 1], s[3 * i + 2])
}

/// Position by position, over the positions that both runs have, the base of
/// `s` (as an IUPAC code) matches the code of `pattern`.
pub open spec fn seq_matches<B: NucleoBase, T: NucleoBase>(s: Seq<B>, pattern: Seq<T>) -> bool {
    forall|i: int|
        0 <= i < s.len() && i < pattern.len() ==> (#[trigger] s[i]).spec_iupac().spec_matches(
            pattern[i].spec_iupac(),
        )
}

impl<B, C> View for GeneticSequence<B, C> {
    type V = Seq<B>;

    closed spec fn view(&self) -> Seq<B> {
        self.sequence@
    }
}

impl<B: NucleoBase, C: Codon<B>> GeneticSequence<B, C> {
    /// The annotations recorded on the sequence, oldest first.
    pub closed spec fn spec_annotations(&self) -> Seq<Annotation> {
        self.annotations@
    }

    pub fn new() -> (r: Self)
        ensures
            r@ == Seq::<B>::empty(),
            r.spec_annotations() == Seq::<Annotation>::empty(),
    {
        GeneticSequence { sequence: Vec::new(), annotations: Vec::new(), phantom: PhantomData }
    }

    /// Decodes a letter string, case-insensitively.
    pub fn from_str(s: &str) -> (r: Result<Self, DecodeError>)
        ensures
            match r {
                Ok(seq) => {
                    &&& decodable::<B>(s@)
                    &&& seq@ == decoded::<B>(s@)
                    &&& seq.spec_annotations() == Seq::<Annotation>::empty()
                },
                Err(DecodeError::InvalidChar(c)) => exists|i: int| fails_at::<B>(s@, i) && c == s@[i],
            },
    {
        let mut builder = Self::new();
        match builder.push_base_str(s) {
            Ok(()) => {
                assert(decoded::<B>(s@) =~= Seq::<B>::empty() + decoded::<B>(s@));
                Ok(builder)
            },
            Err(e) => Err(e),
        }
    }

    /// Appends a base at the end.
    pub fn push_base(&mut self, base: B)
        ensures
            final(self)@ == old(self)@.push(base),
            final(self).spec_annotations() == old(self).spec_annotations(),
    {
        self.sequence.push(base);
    }

    /// Decodes the letters of `s` and appends them in order. On a character that
    /// does not decode it stops and reports it; the bases decoded before it stay
    /// appended.
    pub fn push_base_str(&mut self, s: &str) -> (r: Result<(), DecodeError>)
        ensures
            final(self).spec_annotations() == old(self).spec_annotations(),
            match r {
                Ok(()) => {
                    &&& decodable::<B>(s@)
                    &&& final(self)@ == old(self)@ + decoded::<B>(s@)
                },
                Err(DecodeError::InvalidChar(c)) => exists|i: int|
                    {
                        &&& fails_at::<B>(s@, i)
                        &&& c == s@[i]
                        &&& final(self)@ == old(self)@ + decoded::<B>(s@.take(i))
                    },
            },
    {
        broadcast use vstd::string::axiom_spec_iter;

        let ghost start = self.sequence@;
        for c in it: s.chars()
            invariant
                it.seq() == s@,
                start == old(self).sequence@,
                decodable::<B>(s@.take(it.index())),
                self.sequence@ == start + decoded::<B>(s@.take(it.index())),
                self.annotations == old(self).annotations,
        {
            let ghost i = it.index();
            match B::try_from_letter(c) {
                Some(b) => {
                    self.sequence.push(b);
                    assert(s@.take(i + 1) =~= s@.take(i).push(c));
                    assert(decoded::<B>(s@.take(i + 1)) =~= decoded::<B>(s@.take(i)).push(b));
                },
                None => {
                    assert(fails_at::<B>(s@, i) && c == s@[i] && self.sequence@ == old(
                        self,
                    ).sequence@ + decoded::<B>(s@.take(i)));
                    return Err(DecodeError::InvalidChar(c));
                },
            }
        }
        assert(s@.take(s@.len() as int) =~= s@);
        Ok(())
    }

    /// Appends the three bases of a codon in order.
    pub fn push_codon(&mut self, codon: &C)
        ensures
            final(self)@ == old(self)@ + seq![
                codon.spec_bases().0,
                codon.spec_bases().1,
                codon.spec_bases().2,
            ],
            final(self).spec_annotations() == old(self).spec_annotations(),
    {
        let t = codon.to_triplet();
        self.sequence.push(t.0);
        self.sequence.push(t.1);
        self.sequence.push(t.2);
        assert(self.sequence@ =~= old(self).sequence@ + seq![t.0, t.1, t.2]);
    }

    /// Removes the last base and returns it; `None` on an empty sequence.
    pub fn pop_base(&mut self) -> (r: Option<B>)
        ensures
            old(self)@.len() == 0 ==> r is None && final(self)@ == old(self)@,
            old(self)@.len() > 0 ==> r == Some(old(self)@.last()) && final(self)@ == old(
                self,
            )@.drop_last(),
            final(self).spec_annotations() == old(self).spec_annotations(),
    {
        self.sequence.pop()
    }

    /// Removes the last codon of the reading frame that starts at the first base,
    /// and returns it. Trailing bases past the last complete codon of that frame
    /// are not part of any codon and stay in place. `None` where the sequence
    /// holds no complete codon.
    pub fn pop_codon(&mut self) -> (r: Option<C>)
        ensures
            old(self)@.len() < 3 ==> r is None && final(self)@ == old(self)@,
            old(self)@.len() >= 3 ==> {
                let k = (old(self)@.len() / 3) as int;
                &&& r is Some
                &&& r->0.spec_bases() == codon_at(old(self)@, k - 1)
                &&& final(self)@ == old(self)@.take(3 * (k - 1)) + old(self)@.skip(3 * k)
            },
            final(self).spec_annotations() == old(self).spec_annotations(),
    {
        let n = self.sequence.len();
        if n < 3 {
            return None;
        }
        let k = n / 3;
        let at = 3 * (k - 1);
        let ghost before = self.sequence@;
        let b0 = self.sequence.remove(at);
        let b1 = self.sequence.remove(at);
        let b2 = self.sequence.remove(at);
        assert(self.sequence@ =~= before.take(3 * (k - 1)) + before.skip(3 * k));
        Some(C::from_triplet((b0, b1, b2)))
    }

    /// Removes the last three bases and returns them as a codon, whatever the
    /// reading frame. `None` where fewer than three bases remain.
    pub fn pop_codon_unsafe(&mut self) -> (r: Option<C>)
        ensures
            old(self)@.len() < 3 ==> r is None && final(self)@ == old(self)@,
            old(self)@.len() >= 3 ==> {
                let n = old(self)@.len();
                &&& r is Some
                &&& r->0.spec_bases() == (old(self)@[n - 3], old(self)@[n - 2], old(self)@[n - 1])
                &&& final(self)@ == old(self)@.take(n - 3)
            },
            final(self).spec_annotations() == old(self).spec_annotations(),
    {
        let n = self.sequence.len();
        if n < 3 {
            return None;
        }
        let ghost before = self.sequence@;
        let b2 = self.sequence.pop().unwrap();
        let b1 = self.sequence.pop().unwrap();
        let b0 = self.sequence.pop().unwrap();
        assert(self.sequence@ =~= before.take(n - 3));
        Some(C::from_triplet((b0, b1, b2)))
    }

    /// The number of bases.
    pub fn len(&self) -> (r: usize)
        ensures
            r == self@.len(),
    {
        self.sequence.len()
    }

    pub fn is_empty(&self) -> (r: bool)
        ensures
            r == (self@.len() == 0),
    {
        self.sequence.len() == 0
    }

    /// The bases, in order.
    pub fn as_nucleotides(&self) -> (r: &[B])
        ensures
            r@ == self@,
    {
        self.sequence.as_slice()
    }

    /// An iterator over the bases, in order.
    pub fn nucleotides(&self) -> (r: core::slice::Iter<'_, B>)
        ensures
            vstd::std_specs::slice::into_iter_elts(r) == self@,
    {
        broadcast use vstd::std_specs::slice::axiom_spec_slice_iter;

        let r = self.sequence.as_slice().iter();
        assert(self@.map_values(|b: B| &b).unref() =~= self@);
        r
    }

    /// The codons of the reading frame that starts at the first base; the one or
    /// two bases past the last complete codon are left out.
    pub fn codons(&self) -> (r: Vec<C>)
        ensures
            r@.len() == self@.len() / 3,
            forall|i: int| 0 <= i < r@.len() ==> (#[trigger] r@[i]).spec_bases() == codon_at(self@, i),
    {
        let mut r: Vec<C> = Vec::new();
        let n = self.sequence.len();
        let mut j: usize = 0;
        while n - j >= 3
            invariant
                n == self@.len(),
                j <= n,
                j == 3 * r@.len(),
                forall|i: int| 0 <= i < r@.len() ==> (#[trigger] r@[i]).spec_bases() == codon_at(self@, i),
            decreases n - j,
        {
            r.push(C::from_triplet((self.sequence[j], self.sequence[j + 1], self.sequence[j + 2])));
            j = j + 3;
        }
        r
    }

    /// The codons of the reading frame that starts at the first base, as `codons` gives them.
    pub fn as_codons(&self) -> (r: Vec<C>)
        ensures
            r@.len() == self@.len() / 3,
            forall|i: int| 0 <= i < r@.len() ==> (#[trigger] r@[i]).spec_bases() == codon_at(self@, i),
    {
        self.codons()
    }

    /// The partner of each base, in the same order (the order is not reversed).
    pub fn as_reverse_complement(&self) -> (r: Vec<B>)
        ensures
            r@ == complements::<B>(self@),
    {
        let mut r: Vec<B> = Vec::new();
        let mut i: usize = 0;
        while i < self.sequence.len()
            invariant
                i <= self.sequence@.len(),
                r@ == complements::<B>(self.sequence@.take(i as int)),
            decreases self.sequence@.len() - i,
        {
            r.push(self.sequence[i].complement());
            assert(complements::<B>(self.sequence@.take(i + 1)) =~= complements::<B>(
                self.sequence@.take(i as int),
            ).push(self.sequence@[i as int].spec_complement()));
            i = i + 1;
        }
        assert(self.sequence@.take(i as int) =~= self.sequence@);
        r
    }

    /// The letters of the partners of the bases, in the same order.
    pub fn to_reverse_complement_string(&self) -> (r: String)
        ensures
            r@ == letters::<B>(complements::<B>(self@)),
    {
        let mut r = String::new();
        let mut i: usize = 0;
        while i < self.sequence.len()
            invariant
                i <= self.sequence@.len(),
                r@ == letters::<B>(complements::<B>(self.sequence@.take(i as int))),
            decreases self.sequence@.len() - i,
        {
            push_char(&mut r, self.sequence[i].complement().to_letter());
            assert(complements::<B>(self.sequence@.take(i + 1)) =~= complements::<B>(
                self.sequence@.take(i as int),
            ).push(self.sequence@[i as int].spec_complement()));
            assert(letters::<B>(complements::<B>(self.sequence@.take(i + 1))) =~= letters::<B>(
                complements::<B>(self.sequence@.take(i as int)),
            ).push(self.sequence@[i as int].spec_complement().spec_letter()));
            i = i + 1;
        }
        assert(self.sequence@.take(i as int) =~= self.sequence@);
        r
    }

    /// Whether the sequence matches `pattern` position by position: each base,
    /// as an IUPAC code, must match the pattern's code there. Only the positions
    /// that both have are compared, so a shorter pattern is matched by its prefix
    /// alone; check the lengths first where they must be equal.
    pub fn matches<T: NucleoBase>(&self, pattern: &[T]) -> (r: bool)
        ensures
            r == seq_matches::<B, T>(self@, pattern@),
    {
        let mut i: usize = 0;
        while i < self.sequence.len() && i < pattern.len()
            invariant
                forall|j: int| 0 <= j < i ==> (#[trigger] self@[j]).spec_iupac().spec_matches(
                    pattern@[j].spec_iupac(),
                ),
                i <= self@.len(),
            decreases self@.len() - i,
        {
            if !self.sequence[i].to_iupac().matches(&pattern[i].to_iupac()) {
                return false;
            }
            i = i + 1;
        }
        true
    }

    /// The annotations recorded on the sequence, oldest first.
    pub fn annotations(&self) -> (r: &[Annotation])
        ensures
            r@ == self.spec_annotations(),
    {
        self.annotations.as_slice()
    }

    /// Scans the sequence for the recognition sites of `enzymes` and appends an
    /// annotation for each site found (see `restriction_sites`). The bases are
    /// left as they are, and so are the annotations already recorded.
    pub fn annotate_with(&mut self, enzymes: &[RestrictionEnzyme])
        ensures
            final(self)@ == old(self)@,
            final(self).spec_annotations().take(old(self).spec_annotations().len() as int)
                == old(self).spec_annotations(),
            records_sites(
                final(self).spec_annotations().skip(old(self).spec_annotations().len() as int),
                views(enzymes@),
                all_sites(iupac_of::<B>(old(self)@), views(enzymes@), enzymes@.len() as int),
            ),
    {
        let mut found = restriction_sites(self.sequence.as_slice(), enzymes);
        let ghost added = found@;
        let ghost before = self.annotations@;
        self.annotations.append(&mut found);
        assert(self.annotations@.take(before.len() as int) =~= before);
        assert(self.annotations@.skip(before.len() as int) =~= added);
    }

    /// Scans the sequence against the standard registry of restriction enzymes
    /// (`standard_registry`, which `restriction_enzymes` builds) and appends an
    /// annotation for every matching window, enzyme by enzyme in registry order
    /// and from left to right, the window at the first base included. Positions
    /// follow `is_site`: `start` is the window's first index, `end` is one past
    /// its last, and the cut lies the length of the enzyme's `before` part past
    /// `start`. So NdeI (`CA^TATG`) in `AAAACATATGAAAA` is recorded with start 4,
    /// cut 6 and end 10.
    pub fn annotate_restriction_enzymes(&mut self)
        ensures
            final(self)@ == old(self)@,
            final(self).spec_annotations().take(old(self).spec_annotations().len() as int)
                == old(self).spec_annotations(),
            records_sites(
                final(self).spec_annotations().skip(old(self).spec_annotations().len() as int),
                standard_registry(),
                all_sites(iupac_of::<B>(old(self)@), standard_registry(), ENZYME_COUNT as int),
            ),
    {
        let registry = restriction_enzymes();
        assert(registry@.len() == views(registry@).len());
        self.annotate_with(registry.as_slice());
    }

    /// The letters of the bases, in order, as `to_nucleotide_string` gives them.
    pub fn to_string(&self) -> (r: String)
        ensures
            r@ == letters::<B>(self@),
    {
        self.to_nucleotide_string()
    }

    /// The letters of the bases, in order.
    pub fn to_nucleotide_string(&self) -> (r: String)
        ensures
            r@ == letters::<B>(self@),
    {
        let mut r = String::new();
        let mut i: usize = 0;
        while i < self.sequence.len()
            invariant
                i <= self.sequence@.len(),
                r@ == letters::<B>(self.sequence@.take(i as int)),
            decreases self.sequence@.len() - i,
        {
            push_char(&mut r, self.sequence[i].to_letter());
            assert(self.sequence@.take(i + 1) =~= self.sequence@.take(i as int).push(self.sequence@[i as int]));
            assert(letters::<B>(self.sequence@.take(i + 1)) =~= letters::<B>(self.sequence@.take(i as int)).push(self.sequence@[i as int].spec_letter()));
            i = i + 1;
        }
        assert(self.sequence@.take(i as int) =~= self.sequence@);
        r
    }
}

} // verus!
