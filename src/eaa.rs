use vstd::prelude::*;

use crate::rna::{RnaCodon, RnaNucleotide};
use crate::traits::Codon;

verus! {

/// The twenty amino acids of the standard genetic code, and the stop signal.
#[derive(Debug, Clone, Copy, PartialEq, Eq, Hash, Structural)]
pub enum Eaa {
    /// Alanine
    Ala,
    /// Arginine
    Arg,
    /// Asparagine
    Asn,
    /// Aspartic acid
    Asp,
    /// Cysteine
    Cys,
    /// Glutamine
    Gln,
    /// Glutamic acid
    Glu,
    /// Glycine
    Gly,
    /// Histidine
    His,
    /// Isoleucine
    Ile,
    /// Leucine
    Leu,
    /// Lysine
    Lys,
    /// Methionine
    Met,
    /// Phenylalanine
    Phe,
    /// Proline
    Pro,
    /// Serine
    Ser,
    /// Stop codon
    Ter,
    /// Threonine
    Thr,
    /// Tryptophan
    Trp,
    /// Tyrosine
    Tyr,
    /// Valine
    Val,
}

/// The standard genetic code, laid out as its table: the first two bases pick a
/// box, the third base (a pyrimidine U/C, or a purine A/G) picks within it.
pub open spec fn genetic_code(first: RnaNucleotide, second: RnaNucleotide, third: RnaNucleotide) -> Eaa {
    let pyrimidine = third == RnaNucleotide::U || third == RnaNucleotide::C;
    match (first, second) {
        (RnaNucleotide::U, RnaNucleotide::U) => if pyrimidine { Eaa::Phe } else { Eaa::Leu },
        (RnaNucleotide::U, RnaNucleotide::C) => Eaa::Ser,
        (RnaNucleotide::U, RnaNucleotide::A) => if pyrimidine { Eaa::Tyr } else { Eaa::Ter },
        (RnaNucleotide::U, RnaNucleotide::G) => if pyrimidine {
            Eaa::Cys
        } else if third == RnaNucleotide::A {
            Eaa::Ter
        } else {
            Eaa::Trp
        },
        (RnaNucleotide::C, RnaNucleotide::U) => Eaa::Leu,
        (RnaNucleotide::C, RnaNucleotide::C) => Eaa::Pro,
        (RnaNucleotide::C, RnaNucleotide::A) => if pyrimidine { Eaa::His } else { Eaa::Gln },
        (RnaNucleotide::C, RnaNucleotide::G) => Eaa::Arg,
        (RnaNucleotide::A, RnaNucleotide::U) => if third == RnaNucleotide::G { Eaa::Met } else { Eaa::Ile },
        (RnaNucleotide::A, RnaNucleotide::C) => Eaa::Thr,
        (RnaNucleotide::A, RnaNucleotide::A) => if pyrimidine { Eaa::Asn } else { Eaa::Lys },
        (RnaNucleotide::A, RnaNucleotide::G) => if pyrimidine { Eaa::Ser } else { Eaa::Arg },
        (RnaNucleotide::G, RnaNucleotide::U) => Eaa::Val,
        (RnaNucleotide::G, RnaNucleotide::C) => Eaa::Ala,
        (RnaNucleotide::G, RnaNucleotide::A) => if pyrimidine { Eaa::Asp } else { Eaa::Glu },
        (RnaNucleotide::G, RnaNucleotide::G) => Eaa::Gly,
    }
}

/// The stop signal comes from exactly UAA, UAG and UGA, and methionine from AUG alone.
pub proof fn lemma_stop_and_start_codons(a: RnaNucleotide, b: RnaNucleotide, c: RnaNucleotide)
    ensures
        genetic_code(a, b, c) == Eaa::Ter <==> (a, b, c) == (RnaNucleotide::U, RnaNucleotide::A, RnaNucleotide::A)
            || (a, b, c) == (RnaNucleotide::U, RnaNucleotide::A, RnaNucleotide::G)
            || (a, b, c) == (RnaNucleotide::U, RnaNucleotide::G, RnaNucleotide::A),
        genetic_code(a, b, c) == Eaa::Met <==> (a, b, c) == (RnaNucleotide::A, RnaNucleotide::U, RnaNucleotide::G),
{
}

impl Eaa {
    /// The one-letter code (`*` for the stop signal).
    pub open spec fn spec_letter(self) -> char {
        match self {
            Eaa::Ala => 'A',
            Eaa::Arg => 'R',
            Eaa::Asn => 'N',
            Eaa::Asp => 'D',
            Eaa::Cys => 'C',
            Eaa::Gln => 'Q',
            Eaa::Glu => 'E',
            Eaa::Gly => 'G',
            Eaa::His => 'H',
            Eaa::Ile => 'I',
            Eaa::Leu => 'L',
            Eaa::Lys => 'K',
            Eaa::Met => 'M',
            Eaa::Phe => 'F',
            Eaa::Pro => 'P',
            Eaa::Ser => 'S',
            Eaa::Ter => '*',
            Eaa::Thr => 'T',
            Eaa::Trp => 'W',
            Eaa::Tyr => 'Y',
            Eaa::Val => 'V',
        }
    }

    /// The amino acid that a one-letter code stands for, in either case.
    pub open spec fn spec_from_letter(c: char) -> Option<Eaa> {
        match c {
            'A' | 'a' => Some(Eaa::Ala),
            'R' | 'r' => Some(Eaa::Arg),
            'N' | 'n' => Some(Eaa::Asn),
            'D' | 'd' => Some(Eaa::Asp),
            'C' | 'c' => Some(Eaa::Cys),
            'Q' | 'q' => Some(Eaa::Gln),
            'E' | 'e' => Some(Eaa::Glu),
            'G' | 'g' => Some(Eaa::Gly),
            'H' | 'h' => Some(Eaa::His),
            'I' | 'i' => Some(Eaa::Ile),
            'L' | 'l' => Some(Eaa::Leu),
            'K' | 'k' => Some(Eaa::Lys),
            'M' | 'm' => Some(Eaa::Met),
            'F' | 'f' => Some(Eaa::Phe),
            'P' | 'p' => Some(Eaa::Pro),
            'S' | 's' => Some(Eaa::Ser),
            '*' => Some(Eaa::Ter),
            'T' | 't' => Some(Eaa::Thr),
            'W' | 'w' => Some(Eaa::Trp),
            'Y' | 'y' => Some(Eaa::Tyr),
            'V' | 'v' => Some(Eaa::Val),
            _ => None,
        }
    }

    /// The full name.
    pub open spec fn spec_name(self) -> Seq<char> {
        match self {
            Eaa::Ala => "Alanine"@,
            Eaa::Arg => "Arginine"@,
            Eaa::Asn => "Asparagine"@,
            Eaa::Asp => "Aspartic acid"@,
            Eaa::Cys => "Cysteine"@,
            Eaa::Gln => "Glutamine"@,
            Eaa::Glu => "Glutamic acid"@,
            Eaa::Gly => "Glycine"@,
            Eaa::His => "Histidine"@,
            Eaa::Ile => "Isoleucine"@,
            Eaa::Leu => "Leucine"@,
            Eaa::Lys => "Lysine"@,
            Eaa::Met => "Methionine"@,
            Eaa::Phe => "Phenylalanine"@,
            Eaa::Pro => "Proline"@,
            Eaa::Ser => "Serine"@,
            Eaa::Ter => "STOP"@,
            Eaa::Thr => "Threonine"@,
            Eaa::Trp => "Tryptophan"@,
            Eaa::Tyr => "Tyrosine"@,
            Eaa::Val => "Valine"@,
        }
    }

    pub fn to_letter(&self) -> (c: char)
        ensures
            c == self.spec_letter(),
    {
        match self {
            Eaa::Ala => 'A',
            Eaa::Arg => 'R',
            Eaa::Asn => 'N',
            Eaa::Asp => 'D',
            Eaa::Cys => 'C',
            Eaa::Gln => 'Q',
            Eaa::Glu => 'E',
            Eaa::Gly => 'G',
            Eaa::His => 'H',
            Eaa::Ile => 'I',
            Eaa::Leu => 'L',
            Eaa::Lys => 'K',
            Eaa::Met => 'M',
            Eaa::Phe => 'F',
            Eaa::Pro => 'P',
            Eaa::Ser => 'S',
            Eaa::Ter => '*',
            Eaa::Thr => 'T',
            Eaa::Trp => 'W',
            Eaa::Tyr => 'Y',
            Eaa::Val => 'V',
        }
    }

    pub fn try_from_letter(letter: char) -> (r: Option<Eaa>)
        ensures
            r == Self::spec_from_letter(letter),
    {
        match letter {
            'A' | 'a' => Some(Eaa::Ala),
            'R' | 'r' => Some(Eaa::Arg),
            'N' | 'n' => Some(Eaa::Asn),
            'D' | 'd' => Some(Eaa::Asp),
            'C' | 'c' => Some(Eaa::Cys),
            'Q' | 'q' => Some(Eaa::Gln),
            'E' | 'e' => Some(Eaa::Glu),
            'G' | 'g' => Some(Eaa::Gly),
            'H' | 'h' => Some(Eaa::His),
            'I' | 'i' => Some(Eaa::Ile),
            'L' | 'l' => Some(Eaa::Leu),
            'K' | 'k' => Some(Eaa::Lys),
            'M' | 'm' => Some(Eaa::Met),
            'F' | 'f' => Some(Eaa::Phe),
            'P' | 'p' => Some(Eaa::Pro),
            'S' | 's' => Some(Eaa::Ser),
            '*' => Some(Eaa::Ter),
            'T' | 't' => Some(Eaa::Thr),
            'W' | 'w' => Some(Eaa::Trp),
            'Y' | 'y' => Some(Eaa::Tyr),
            'V' | 'v' => Some(Eaa::Val),
            _ => None,
        }
    }

    /// The full name (`STOP` for the stop signal).
    pub fn to_string(&self) -> (r: String)
        ensures
            r@ == self.spec_name(),
    {
        match self {
            Eaa::Ala => String::from_str("Alanine"),
            Eaa::Arg => String::from_str("Arginine"),
            Eaa::Asn => String::from_str("Asparagine"),
            Eaa::Asp => String::from_str("Aspartic acid"),
            Eaa::Cys => String::from_str("Cysteine"),
            Eaa::Gln => String::from_str("Glutamine"),
            Eaa::Glu => String::from_str("Glutamic acid"),
            Eaa::Gly => String::from_str("Glycine"),
            Eaa::His => String::from_str("Histidine"),
            Eaa::Ile => String::from_str("Isoleucine"),
            Eaa::Leu => String::from_str("Leucine"),
            Eaa::Lys => String::from_str("Lysine"),
            Eaa::Met => String::from_str("Methionine"),
            Eaa::Phe => String::from_str("Phenylalanine"),
            Eaa::Pro => String::from_str("Proline"),
            Eaa::Ser => String::from_str("Serine"),
            Eaa::Ter => String::from_str("STOP"),
            Eaa::Thr => String::from_str("Threonine"),
            Eaa::Trp => String::from_str("Tryptophan"),
            Eaa::Tyr => String::from_str("Tyrosine"),
            Eaa::Val => String::from_str("Valine"),
        }
    }

    /// Translates the RNA codon that three letters spell.
    pub fn try_from_str(s: &str) -> (r: Option<Eaa>)
        ensures
            r is Some <==> s@.len() == 3 && crate::traits::decodable::<RnaNucleotide>(s@),
            r is Some ==> r->0 == genetic_code(
                crate::traits::decoded::<RnaNucleotide>(s@)[0],
                crate::traits::decoded::<RnaNucleotide>(s@)[1],
                crate::traits::decoded::<RnaNucleotide>(s@)[2],
            ),
    {
        match RnaCodon::try_from_str(s) {
            Some(codon) => Some(codon.translate()),
            None => None,
        }
    }
}

impl From<&RnaCodon> for Eaa {
    fn from(rna: &RnaCodon) -> (r: Self) {
        rna.translate()
    }
}

impl vstd::std_specs::convert::FromSpecImpl<&RnaCodon> for Eaa {
    open spec fn obeys_from_spec() -> bool {
        true
    }

    open spec fn from_spec(rna: &RnaCodon) -> Self {
        genetic_code(rna.0, rna.1, rna.2)
    }
}

/// Every one-letter code reads back as its amino acid.
pub proof fn lemma_eaa_letter_round_trip(x: Eaa)
    ensures
        Eaa::spec_from_letter(x.spec_letter()) == Some(x),
{
}

} // verus!
