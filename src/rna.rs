use vstd::prelude::*;

use crate::eaa::{genetic_code, Eaa};
use crate::error::DecodeError;
use crate::iupac::IupacNucleotide;
use crate::traits::{ascii_upper, Codon, NucleoBase};

pub mod rna_partial_codon;
pub mod rna_sequence;
pub mod rna_sequence_builder;

pub use self::rna_partial_codon::RnaPartialCodon;
pub use self::rna_sequence::RnaSequence;
pub use self::rna_sequence_builder::RnaSequenceBuilder;

verus! {

/// A nucleotide of RNA.
#[derive(Debug, Clone, Copy, PartialEq, Eq, Hash, Structural)]
pub enum RnaNucleotide {
    /// Adenine
    A,
    /// Cytosine
    C,
    /// Guanine
    G,
    /// Uracil
    U,
}

/// Another name for [`RnaNucleotide`].
pub type RnaNucleoBase = RnaNucleotide;

impl RnaNucleotide {
    /// The name of the base.
    pub open spec fn spec_name(self) -> Seq<char> {
        match self {
            RnaNucleotide::A => "Adenine"@,
            RnaNucleotide::C => "Cytosine"@,
            RnaNucleotide::G => "Guanine"@,
            RnaNucleotide::U => "Uracil"@,
        }
    }

    /// The full name of the base (`Adenine`, `Cytosine`, ...).
    pub fn to_string(&self) -> (r: String)
        ensures
            r@ == self.spec_name(),
    {
        match self {
            RnaNucleotide::A => String::from_str("Adenine"),
            RnaNucleotide::C => String::from_str("Cytosine"),
            RnaNucleotide::G => String::from_str("Guanine"),
            RnaNucleotide::U => String::from_str("Uracil"),
        }
    }
}

impl NucleoBase for RnaNucleotide {
    open spec fn spec_letter(self) -> char {
        match self {
            RnaNucleotide::A => 'A',
            RnaNucleotide::C => 'C',
            RnaNucleotide::G => 'G',
            RnaNucleotide::U => 'U',
        }
    }

    open spec fn spec_decode(c: char) -> Option<Self> {
        match c {
            'A' | 'a' => Some(RnaNucleotide::A),
            'C' | 'c' => Some(RnaNucleotide::C),
            'G' | 'g' => Some(RnaNucleotide::G),
            'U' | 'u' | 'T' | 't' | '\u{3A8}' => Some(RnaNucleotide::U),
            _ => None,
        }
    }

    open spec fn spec_fold(c: char) -> char {
        let u = ascii_upper(c);
        if u == 'T' || c == '\u{3A8}' {
            'U'
        } else {
            u
        }
    }

    open spec fn spec_complement(self) -> Self {
        match self {
            RnaNucleotide::A => RnaNucleotide::U,
            RnaNucleotide::C => RnaNucleotide::G,
            RnaNucleotide::G => RnaNucleotide::C,
            RnaNucleotide::U => RnaNucleotide::A,
        }
    }

    open spec fn spec_iupac(self) -> IupacNucleotide {
        match self {
            RnaNucleotide::A => IupacNucleotide::A,
            RnaNucleotide::C => IupacNucleotide::C,
            RnaNucleotide::G => IupacNucleotide::G,
            RnaNucleotide::U => IupacNucleotide::T,
        }
    }

    fn to_letter(&self) -> (c: char) {
        match self {
            RnaNucleotide::A => 'A',
            RnaNucleotide::C => 'C',
            RnaNucleotide::G => 'G',
            RnaNucleotide::U => 'U',
        }
    }

    fn try_from_letter(c: char) -> (r: Option<Self>) {
        match c {
            'A' | 'a' => Some(RnaNucleotide::A),
            'C' | 'c' => Some(RnaNucleotide::C),
            'G' | 'g' => Some(RnaNucleotide::G),
            'U' | 'u' | 'T' | 't' | '\u{3A8}' => Some(RnaNucleotide::U),
            _ => None,
        }
    }

    fn complement(&self) -> (r: Self) {
        match self {
            RnaNucleotide::A => RnaNucleotide::U,
            RnaNucleotide::C => RnaNucleotide::G,
            RnaNucleotide::G => RnaNucleotide::C,
            RnaNucleotide::U => RnaNucleotide::A,
        }
    }

    fn to_iupac(&self) -> (r: IupacNucleotide) {
        match self {
            RnaNucleotide::A => IupacNucleotide::A,
            RnaNucleotide::C => IupacNucleotide::C,
            RnaNucleotide::G => IupacNucleotide::G,
            RnaNucleotide::U => IupacNucleotide::T,
        }
    }

    proof fn lemma_complement_involutive(self) {
    }

    proof fn lemma_letter_decodes(self) {
    }

    proof fn lemma_decode_folds(c: char) {
    }
}

/// A triplet of RNA nucleotides.
#[derive(Debug, Clone, Copy, PartialEq, Eq, Hash, Structural)]
pub struct RnaCodon(pub RnaNucleotide, pub RnaNucleotide, pub RnaNucleotide);

impl Codon<RnaNucleotide> for RnaCodon {
    open spec fn spec_bases(self) -> (RnaNucleotide, RnaNucleotide, RnaNucleotide) {
        (self.0, self.1, self.2)
    }

    fn from_triplet(triplet: (RnaNucleotide, RnaNucleotide, RnaNucleotide)) -> (c: Self) {
        RnaCodon(triplet.0, triplet.1, triplet.2)
    }

    fn to_triplet(&self) -> (triplet: (RnaNucleotide, RnaNucleotide, RnaNucleotide)) {
        (self.0, self.1, self.2)
    }
}

impl From<[RnaNucleotide; 3]> for RnaCodon {
    fn from(arr: [RnaNucleotide; 3]) -> (c: Self) {
        RnaCodon(arr[0], arr[1], arr[2])
    }
}

impl vstd::std_specs::convert::FromSpecImpl<[RnaNucleotide; 3]> for RnaCodon {
    open spec fn obeys_from_spec() -> bool {
        true
    }

    open spec fn from_spec(arr: [RnaNucleotide; 3]) -> Self {
        RnaCodon(arr@[0], arr@[1], arr@[2])
    }
}

impl TryFrom<char> for RnaNucleotide {
    type Error = DecodeError;

    fn try_from(c: char) -> (r: Result<RnaNucleotide, DecodeError>) {
        match RnaNucleotide::try_from_letter(c) {
            Some(b) => Ok(b),
            None => Err(DecodeError::InvalidChar(c)),
        }
    }
}

impl vstd::std_specs::convert::TryFromSpecImpl<char> for RnaNucleotide {
    open spec fn obeys_try_from_spec() -> bool {
        true
    }

    open spec fn try_from_spec(c: char) -> Result<RnaNucleotide, DecodeError> {
        match RnaNucleotide::spec_decode(c) {
            Some(b) => Ok(b),
            None => Err(DecodeError::InvalidChar(c)),
        }
    }
}

impl RnaCodon {
    /// The amino acid that the codon codes for.
    pub fn translate(&self) -> (r: Eaa)
        ensures
            r == genetic_code(self.0, self.1, self.2),
    {
        RnaCodonHelper::to_codon(self.0, self.1, self.2)
    }
}

/// The genetic code as a function of three bases.
pub struct RnaCodonHelper;

impl RnaCodonHelper {
    /// The amino acid that the three bases code for; every one of the 64
    /// combinations is listed.
    pub fn to_codon(fst: RnaNucleotide, snd: RnaNucleotide, trd: RnaNucleotide) -> (r: Eaa)
        ensures
            r == genetic_code(fst, snd, trd),
    {
        match (fst, snd, trd) {
            (RnaNucleotide::U, RnaNucleotide::U, RnaNucleotide::U)
            | (RnaNucleotide::U, RnaNucleotide::U, RnaNucleotide::C) => Eaa::Phe,
            (RnaNucleotide::U, RnaNucleotide::U, RnaNucleotide::A)
            | (RnaNucleotide::U, RnaNucleotide::U, RnaNucleotide::G)
            | (RnaNucleotide::C, RnaNucleotide::U, RnaNucleotide::U)
            | (RnaNucleotide::C, RnaNucleotide::U, RnaNucleotide::C)
            | (RnaNucleotide::C, RnaNucleotide::U, RnaNucleotide::A)
            | (RnaNucleotide::C, RnaNucleotide::U, RnaNucleotide::G) => Eaa::Leu,
            (RnaNucleotide::A, RnaNucleotide::U, RnaNucleotide::U)
            | (RnaNucleotide::A, RnaNucleotide::U, RnaNucleotide::C)
            | (RnaNucleotide::A, RnaNucleotide::U, RnaNucleotide::A) => Eaa::Ile,
            (RnaNucleotide::A, RnaNucleotide::U, RnaNucleotide::G) => Eaa::Met,
            (RnaNucleotide::G, RnaNucleotide::U, RnaNucleotide::U)
            | (RnaNucleotide::G, RnaNucleotide::U, RnaNucleotide::C)
            | (RnaNucleotide::G, RnaNucleotide::U, RnaNucleotide::A)
            | (RnaNucleotide::G, RnaNucleotide::U, RnaNucleotide::G) => Eaa::Val,
            (RnaNucleotide::U, RnaNucleotide::C, RnaNucleotide::U)
            | (RnaNucleotide::U, RnaNucleotide::C, RnaNucleotide::C)
            | (RnaNucleotide::U, RnaNucleotide::C, RnaNucleotide::A)
            | (RnaNucleotide::U, RnaNucleotide::C, RnaNucleotide::G)
            | (RnaNucleotide::A, RnaNucleotide::G, RnaNucleotide::U)
            | (RnaNucleotide::A, RnaNucleotide::G, RnaNucleotide::C) => Eaa::Ser,
            (RnaNucleotide::C, RnaNucleotide::C, RnaNucleotide::U)
            | (RnaNucleotide::C, RnaNucleotide::C, RnaNucleotide::C)
            | (RnaNucleotide::C, RnaNucleotide::C, RnaNucleotide::A)
            | (RnaNucleotide::C, RnaNucleotide::C, RnaNucleotide::G) => Eaa::Pro,
            (RnaNucleotide::A, RnaNucleotide::C, RnaNucleotide::U)
            | (RnaNucleotide::A, RnaNucleotide::C, RnaNucleotide::C)
            | (RnaNucleotide::A, RnaNucleotide::C, RnaNucleotide::A)
            | (RnaNucleotide::A, RnaNucleotide::C, RnaNucleotide::G) => Eaa::Thr,
            (RnaNucleotide::G, RnaNucleotide::C, RnaNucleotide::U)
            | (RnaNucleotide::G, RnaNucleotide::C, RnaNucleotide::C)
            | (RnaNucleotide::G, RnaNucleotide::C, RnaNucleotide::A)
            | (RnaNucleotide::G, RnaNucleotide::C, RnaNucleotide::G) => Eaa::Ala,
            (RnaNucleotide::U, RnaNucleotide::A, RnaNucleotide::U)
            | (RnaNucleotide::U, RnaNucleotide::A, RnaNucleotide::C) => Eaa::Tyr,
            (RnaNucleotide::U, RnaNucleotide::A, RnaNucleotide::A)
            | (RnaNucleotide::U, RnaNucleotide::A, RnaNucleotide::G)
            | (RnaNucleotide::U, RnaNucleotide::G, RnaNucleotide::A) => Eaa::Ter,
            (RnaNucleotide::C, RnaNucleotide::A, RnaNucleotide::U)
            | (RnaNucleotide::C, RnaNucleotide::A, RnaNucleotide::C) => Eaa::His,
            (RnaNucleotide::C, RnaNucleotide::A, RnaNucleotide::A)
            | (RnaNucleotide::C, RnaNucleotide::A, RnaNucleotide::G) => Eaa::Gln,
            (RnaNucleotide::A, RnaNucleotide::A, RnaNucleotide::U)
            | (RnaNucleotide::A, RnaNucleotide::A, RnaNucleotide::C) => Eaa::Asn,
            (RnaNucleotide::A, RnaNucleotide::A, RnaNucleotide::A)
            | (RnaNucleotide::A, RnaNucleotide::A, RnaNucleotide::G) => Eaa::Lys,
            (RnaNucleotide::G, RnaNucleotide::A, RnaNucleotide::U)
            | (RnaNucleotide::G, RnaNucleotide::A, RnaNucleotide::C) => Eaa::Asp,
            (RnaNucleotide::G, RnaNucleotide::A, RnaNucleotide::A)
            | (RnaNucleotide::G, RnaNucleotide::A, RnaNucleotide::G) => Eaa::Glu,
            (RnaNucleotide::U, RnaNucleotide::G, RnaNucleotide::U)
            | (RnaNucleotide::U, RnaNucleotide::G, RnaNucleotide::C) => Eaa::Cys,
            (RnaNucleotide::U, RnaNucleotide::G, RnaNucleotide::G) => Eaa::Trp,
            (RnaNucleotide::C, RnaNucleotide::G, RnaNucleotide::U)
            | (RnaNucleotide::C, RnaNucleotide::G, RnaNucleotide::C)
            | (RnaNucleotide::C, RnaNucleotide::G, RnaNucleotide::A)
            | (RnaNucleotide::C, RnaNucleotide::G, RnaNucleotide::G)
            | (RnaNucleotide::A, RnaNucleotide::G, RnaNucleotide::A)
            | (RnaNucleotide::A, RnaNucleotide::G, RnaNucleotide::G) => Eaa::Arg,
            (RnaNucleotide::G, RnaNucleotide::G, RnaNucleotide::U)
            | (RnaNucleotide::G, RnaNucleotide::G, RnaNucleotide::C)
            | (RnaNucleotide::G, RnaNucleotide::G, RnaNucleotide::A)
            | (RnaNucleotide::G, RnaNucleotide::G, RnaNucleotide::G) => Eaa::Gly,
        }
    }
}

/// Up to three bases gathered one by one, read as an amino acid once complete.
#[derive(Debug, Clone, Copy, PartialEq, Eq)]
pub struct RnaCodonBuilder(pub Option<RnaNucleotide>, pub Option<RnaNucleotide>, pub Option<RnaNucleotide>);

impl RnaCodonBuilder {
    pub fn new(
        fst: Option<RnaNucleotide>,
        snd: Option<RnaNucleotide>,
        trd: Option<RnaNucleotide>,
    ) -> (r: Self)
        ensures
            r == RnaCodonBuilder(fst, snd, trd),
    {
        RnaCodonBuilder(fst, snd, trd)
    }

    pub fn empty() -> (r: Self)
        ensures
            r == RnaCodonBuilder(None, None, None),
    {
        RnaCodonBuilder(None, None, None)
    }

    /// The amino acid, once all three bases are there.
    pub fn to_codon(&self) -> (r: Option<Eaa>)
        ensures
            r is Some <==> (self.0 is Some && self.1 is Some && self.2 is Some),
            r is Some ==> r->0 == genetic_code(self.0->0, self.1->0, self.2->0),
    {
        match (self.0, self.1, self.2) {
            (Some(fst), Some(snd), Some(trd)) => Some(RnaCodonHelper::to_codon(fst, snd, trd)),
            _ => None,
        }
    }
}

/// Widening to IUPAC codes is injective, and complementing commutes with it.
pub proof fn lemma_rna_iupac_embedding(a: RnaNucleotide, b: RnaNucleotide)
    ensures
        a.spec_iupac() == b.spec_iupac() ==> a == b,
        a.spec_complement().spec_iupac() == a.spec_iupac().spec_complement(),
{
}

} // verus!
