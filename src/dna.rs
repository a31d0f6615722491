use vstd::prelude::*;

use crate::eaa::{genetic_code, Eaa};
use crate::iupac::IupacNucleotide;
use crate::rna::{RnaCodon, RnaCodonHelper, RnaNucleotide};
use crate::traits::{ascii_upper, Codon, NucleoBase};

verus! {

/// A nucleotide of DNA.
#[derive(Debug, Clone, Copy, PartialEq, Eq, Hash, Structural)]
pub enum DnaNucleotide {
    /// Adenine
    A,
    /// Cytosine
    C,
    /// Guanine
    G,
    /// Thymine
    T,
}

/// Another name for [`DnaNucleotide`].
pub type DnaNucleoBase = DnaNucleotide;

impl DnaNucleotide {
    /// The name of the base.
    pub open spec fn spec_name(self) -> Seq<char> {
        match self {
            DnaNucleotide::A => "Adenine"@,
            DnaNucleotide::C => "Cytosine"@,
            DnaNucleotide::G => "Guanine"@,
            DnaNucleotide::T => "Thymine"@,
        }
    }

    /// The full name of the base (`Adenine`, `Cytosine`, ...).
    pub fn to_string(&self) -> (r: String)
        ensures
            r@ == self.spec_name(),
    {
        match self {
            DnaNucleotide::A => String::from_str("Adenine"),
            DnaNucleotide::C => String::from_str("Cytosine"),
            DnaNucleotide::G => String::from_str("Guanine"),
            DnaNucleotide::T => String::from_str("Thymine"),
        }
    }
}

impl DnaNucleotide {
    /// The RNA nucleotide that this base is transcribed to (T becomes U).
    pub open spec fn spec_to_rna(self) -> RnaNucleotide {
        match self {
            DnaNucleotide::A => RnaNucleotide::A,
            DnaNucleotide::C => RnaNucleotide::C,
            DnaNucleotide::G => RnaNucleotide::G,
            DnaNucleotide::T => RnaNucleotide::U,
        }
    }

    pub fn to_rna(&self) -> (r: RnaNucleotide)
        ensures
            r == self.spec_to_rna(),
    {
        match self {
            DnaNucleotide::A => RnaNucleotide::A,
            DnaNucleotide::C => RnaNucleotide::C,
            DnaNucleotide::G => RnaNucleotide::G,
            DnaNucleotide::T => RnaNucleotide::U,
        }
    }
}

impl NucleoBase for DnaNucleotide {
    open spec fn spec_letter(self) -> char {
        match self {
            DnaNucleotide::A => 'A',
            DnaNucleotide::C => 'C',
            DnaNucleotide::G => 'G',
            DnaNucleotide::T => 'T',
        }
    }

    open spec fn spec_decode(c: char) -> Option<Self> {
        match c {
            'A' | 'a' => Some(DnaNucleotide::A),
            'C' | 'c' => Some(DnaNucleotide::C),
            'G' | 'g' => Some(DnaNucleotide::G),
            'T' | 't' | 'U' | 'u' => Some(DnaNucleotide::T),
            _ => None,
        }
    }

    open spec fn spec_fold(c: char) -> char {
        let u = ascii_upper(c);
        if u == 'U' {
            'T'
        } else {
            u
        }
    }

    open spec fn spec_complement(self) -> Self {
        match self {
            DnaNucleotide::A => DnaNucleotide::T,
            DnaNucleotide::C => DnaNucleotide::G,
            DnaNucleotide::G => DnaNucleotide::C,
            DnaNucleotide::T => DnaNucleotide::A,
        }
    }

    open spec fn spec_iupac(self) -> IupacNucleotide {
        match self {
            DnaNucleotide::A => IupacNucleotide::A,
            DnaNucleotide::C => IupacNucleotide::C,
            DnaNucleotide::G => IupacNucleotide::G,
            DnaNucleotide::T => IupacNucleotide::T,
        }
    }

    fn to_letter(&self) -> (c: char) {
        match self {
            DnaNucleotide::A => 'A',
            DnaNucleotide::C => 'C',
            DnaNucleotide::G => 'G',
            DnaNucleotide::T => 'T',
        }
    }

    fn try_from_letter(c: char) -> (r: Option<Self>) {
        match c {
            'A' | 'a' => Some(DnaNucleotide::A),
            'C' | 'c' => Some(DnaNucleotide::C),
            'G' | 'g' => Some(DnaNucleotide::G),
            'T' | 't' | 'U' | 'u' => Some(DnaNucleotide::T),
            _ => None,
        }
    }

    fn complement(&self) -> (r: Self) {
        match self {
            DnaNucleotide::A => DnaNucleotide::T,
            DnaNucleotide::C => DnaNucleotide::G,
            DnaNucleotide::G => DnaNucleotide::C,
            DnaNucleotide::T => DnaNucleotide::A,
        }
    }

    fn to_iupac(&self) -> (r: IupacNucleotide) {
        match self {
            DnaNucleotide::A => IupacNucleotide::A,
            DnaNucleotide::C => IupacNucleotide::C,
            DnaNucleotide::G => IupacNucleotide::G,
            DnaNucleotide::T => IupacNucleotide::T,
        }
    }

    proof fn lemma_complement_involutive(self) {
    }

    proof fn lemma_letter_decodes(self) {
    }

    proof fn lemma_decode_folds(c: char) {
    }
}

/// A triplet of DNA nucleotides.
#[derive(Debug, Clone, Copy, PartialEq, Eq, Hash, Structural)]
pub struct DnaCodon(pub DnaNucleotide, pub DnaNucleotide, pub DnaNucleotide);

impl Codon<DnaNucleotide> for DnaCodon {
    open spec fn spec_bases(self) -> (DnaNucleotide, DnaNucleotide, DnaNucleotide) {
        (self.0, self.1, self.2)
    }

    fn from_triplet(triplet: (DnaNucleotide, DnaNucleotide, DnaNucleotide)) -> (c: Self) {
        DnaCodon(triplet.0, triplet.1, triplet.2)
    }

    fn to_triplet(&self) -> (triplet: (DnaNucleotide, DnaNucleotide, DnaNucleotide)) {
        (self.0, self.1, self.2)
    }
}

impl From<[DnaNucleotide; 3]> for DnaCodon {
    fn from(arr: [DnaNucleotide; 3]) -> (c: Self) {
        DnaCodon(arr[0], arr[1], arr[2])
    }
}

impl vstd::std_specs::convert::FromSpecImpl<[DnaNucleotide; 3]> for DnaCodon {
    open spec fn obeys_from_spec() -> bool {
        true
    }

    open spec fn from_spec(arr: [DnaNucleotide; 3]) -> Self {
        DnaCodon(arr@[0], arr@[1], arr@[2])
    }
}

impl DnaCodon {
    /// The codon with T read as U, position by position.
    pub fn to_rna(&self) -> (r: RnaCodon)
        ensures
            r == RnaCodon(self.0.spec_to_rna(), self.1.spec_to_rna(), self.2.spec_to_rna()),
    {
        RnaCodon(self.0.to_rna(), self.1.to_rna(), self.2.to_rna())
    }

    /// The amino acid that the codon codes for, read as RNA.
    pub fn translate(&self) -> (r: Eaa)
        ensures
            r == genetic_code(self.0.spec_to_rna(), self.1.spec_to_rna(), self.2.spec_to_rna()),
    {
        RnaCodonHelper::to_codon(self.0.to_rna(), self.1.to_rna(), self.2.to_rna())
    }
}

/// Widening to IUPAC codes is injective, and complementing commutes with it.
pub proof fn lemma_dna_iupac_embedding(a: DnaNucleotide, b: DnaNucleotide)
    ensures
        a.spec_iupac() == b.spec_iupac() ==> a == b,
        a.spec_complement().spec_iupac() == a.spec_iupac().spec_complement(),
{
}

} // verus!
