use vstd::prelude::*;

use crate::traits::{ascii_upper, Codon, NucleoBase};

verus! {

/// An IUPAC nucleotide code: a concrete base, an ambiguity code standing for a
/// set of bases, or the gap symbol.
#[derive(Debug, Clone, Copy, PartialEq, Eq, Hash, Structural)]
pub enum IupacNucleotide {
    /// Adenine
    A,
    /// Cytosine
    C,
    /// Guanine
    G,
    /// Thymine / Uracil
    T,
    /// Weak (A/T)
    W,
    /// Strong (G/C)
    S,
    /// Amino (A/C)
    M,
    /// Ketone (G/T)
    K,
    /// Purine (A/G)
    R,
    /// Pyrimidine (C/T)
    Y,
    /// Not A (C/G/T)
    B,
    /// Not C (A/G/T)
    D,
    /// Not G (A/C/T)
    H,
    /// Not T (A/C/G)
    V,
    /// Any nucleotide, the gap included
    N,
    /// Gap
    Gap,
}

impl IupacNucleotide {
    /// Whether the code stands for the symbol `b`, one of `A`, `C`, `G`, `T` and `Gap`.
    pub open spec fn stands_for(self, b: IupacNucleotide) -> bool {
        match self {
            IupacNucleotide::A => b == IupacNucleotide::A,
            IupacNucleotide::C => b == IupacNucleotide::C,
            IupacNucleotide::G => b == IupacNucleotide::G,
            IupacNucleotide::T => b == IupacNucleotide::T,
            IupacNucleotide::W => b == IupacNucleotide::A || b == IupacNucleotide::T,
            IupacNucleotide::S => b == IupacNucleotide::C || b == IupacNucleotide::G,
            IupacNucleotide::M => b == IupacNucleotide::A || b == IupacNucleotide::C,
            IupacNucleotide::K => b == IupacNucleotide::G || b == IupacNucleotide::T,
            IupacNucleotide::R => b == IupacNucleotide::A || b == IupacNucleotide::G,
            IupacNucleotide::Y => b == IupacNucleotide::C || b == IupacNucleotide::T,
            IupacNucleotide::B => b == IupacNucleotide::C || b == IupacNucleotide::G
                || b == IupacNucleotide::T,
            IupacNucleotide::D => b == IupacNucleotide::A || b == IupacNucleotide::G
                || b == IupacNucleotide::T,
            IupacNucleotide::H => b == IupacNucleotide::A || b == IupacNucleotide::C
                || b == IupacNucleotide::T,
            IupacNucleotide::V => b == IupacNucleotide::A || b == IupacNucleotide::C
                || b == IupacNucleotide::G,
            IupacNucleotide::N => b == IupacNucleotide::A || b == IupacNucleotide::C
                || b == IupacNucleotide::G || b == IupacNucleotide::T || b == IupacNucleotide::Gap,
            IupacNucleotide::Gap => b == IupacNucleotide::Gap,
        }
    }

    /// `self` matches `other` when every symbol that `other` stands for is one that
    /// `self` stands for too: the set of `self` contains the set of `other`.
    pub open spec fn spec_matches(self, other: IupacNucleotide) -> bool {
        &&& other.stands_for(IupacNucleotide::A) ==> self.stands_for(IupacNucleotide::A)
        &&& other.stands_for(IupacNucleotide::C) ==> self.stands_for(IupacNucleotide::C)
        &&& other.stands_for(IupacNucleotide::G) ==> self.stands_for(IupacNucleotide::G)
        &&& other.stands_for(IupacNucleotide::T) ==> self.stands_for(IupacNucleotide::T)
        &&& other.stands_for(IupacNucleotide::Gap) ==> self.stands_for(IupacNucleotide::Gap)
    }

    fn includes(&self, b: IupacNucleotide) -> (r: bool)
        ensures
            r == self.stands_for(b),
    {
        match self {
            IupacNucleotide::A => matches!(b, IupacNucleotide::A),
            IupacNucleotide::C => matches!(b, IupacNucleotide::C),
            IupacNucleotide::G => matches!(b, IupacNucleotide::G),
            IupacNucleotide::T => matches!(b, IupacNucleotide::T),
            IupacNucleotide::W => matches!(b, IupacNucleotide::A | IupacNucleotide::T),
            IupacNucleotide::S => matches!(b, IupacNucleotide::C | IupacNucleotide::G),
            IupacNucleotide::M => matches!(b, IupacNucleotide::A | IupacNucleotide::C),
            IupacNucleotide::K => matches!(b, IupacNucleotide::G | IupacNucleotide::T),
            IupacNucleotide::R => matches!(b, IupacNucleotide::A | IupacNucleotide::G),
            IupacNucleotide::Y => matches!(b, IupacNucleotide::C | IupacNucleotide::T),
            IupacNucleotide::B => matches!(
                b,
                IupacNucleotide::C | IupacNucleotide::G | IupacNucleotide::T
            ),
            IupacNucleotide::D => matches!(
                b,
                IupacNucleotide::A | IupacNucleotide::G | IupacNucleotide::T
            ),
            IupacNucleotide::H => matches!(
                b,
                IupacNucleotide::A | IupacNucleotide::C | IupacNucleotide::T
            ),
            IupacNucleotide::V => matches!(
                b,
                IupacNucleotide::A | IupacNucleotide::C | IupacNucleotide::G
            ),
            IupacNucleotide::N => matches!(
                b,
                IupacNucleotide::A | IupacNucleotide::C | IupacNucleotide::G | IupacNucleotide::T
                    | IupacNucleotide::Gap
            ),
            IupacNucleotide::Gap => matches!(b, IupacNucleotide::Gap),
        }
    }

    /// Whether `self`, read as a pattern, matches `n`: every symbol that `n`
    /// stands for is one that `self` stands for. The relation is not symmetric:
    /// `N` matches `A`, while `A` does not match `N`.
    pub fn matches(&self, n: &IupacNucleotide) -> (r: bool)
        ensures
            r == self.spec_matches(*n),
    {
        let other = *n;
        (!other.includes(IupacNucleotide::A) || self.includes(IupacNucleotide::A))
            && (!other.includes(IupacNucleotide::C) || self.includes(IupacNucleotide::C))
            && (!other.includes(IupacNucleotide::G) || self.includes(IupacNucleotide::G))
            && (!other.includes(IupacNucleotide::T) || self.includes(IupacNucleotide::T))
            && (!other.includes(IupacNucleotide::Gap) || self.includes(IupacNucleotide::Gap))
    }
}

/// `N` matches every code, and `Gap` matches the gap alone.
pub proof fn lemma_any_and_gap(x: IupacNucleotide)
    ensures
        IupacNucleotide::N.spec_matches(x),
        IupacNucleotide::Gap.spec_matches(x) == (x == IupacNucleotide::Gap),
{
}

/// A code matches itself, and matching is transitive.
pub proof fn lemma_matches_preorder(x: IupacNucleotide, y: IupacNucleotide, z: IupacNucleotide)
    ensures
        x.spec_matches(x),
        x.spec_matches(y) && y.spec_matches(z) ==> x.spec_matches(z),
{
}

impl NucleoBase for IupacNucleotide {
    open spec fn spec_letter(self) -> char {
        match self {
            IupacNucleotide::A => 'A',
            IupacNucleotide::C => 'C',
            IupacNucleotide::G => 'G',
            IupacNucleotide::T => 'T',
            IupacNucleotide::W => 'W',
            IupacNucleotide::S => 'S',
            IupacNucleotide::M => 'M',
            IupacNucleotide::K => 'K',
            IupacNucleotide::R => 'R',
            IupacNucleotide::Y => 'Y',
            IupacNucleotide::B => 'B',
            IupacNucleotide::D => 'D',
            IupacNucleotide::H => 'H',
            IupacNucleotide::V => 'V',
            IupacNucleotide::N => 'N',
            IupacNucleotide::Gap => '-',
        }
    }

    open spec fn spec_decode(c: char) -> Option<Self> {
        match c {
            'A' | 'a' => Some(IupacNucleotide::A),
            'C' | 'c' => Some(IupacNucleotide::C),
            'G' | 'g' => Some(IupacNucleotide::G),
            'T' | 't' | 'U' | 'u' => Some(IupacNucleotide::T),
            'W' | 'w' => Some(IupacNucleotide::W),
            'S' | 's' => Some(IupacNucleotide::S),
            'M' | 'm' => Some(IupacNucleotide::M),
            'K' | 'k' => Some(IupacNucleotide::K),
            'R' | 'r' => Some(IupacNucleotide::R),
            'Y' | 'y' => Some(IupacNucleotide::Y),
            'B' | 'b' => Some(IupacNucleotide::B),
            'D' | 'd' => Some(IupacNucleotide::D),
            'H' | 'h' => Some(IupacNucleotide::H),
            'V' | 'v' => Some(IupacNucleotide::V),
            'N' | 'n' => Some(IupacNucleotide::N),
            '-' => Some(IupacNucleotide::Gap),
            _ => None,
        }
    }

    open spec fn spec_fold(c: char) -> char {
        let u = ascii_upper(c);
        if u == 'U' {
            'T'
        } else {
            u
        }
    }

    open spec fn spec_complement(self) -> Self {
        match self {
            IupacNucleotide::A => IupacNucleotide::T,
            IupacNucleotide::T => IupacNucleotide::A,
            IupacNucleotide::C => IupacNucleotide::G,
            IupacNucleotide::G => IupacNucleotide::C,
            IupacNucleotide::W => IupacNucleotide::W,
            IupacNucleotide::S => IupacNucleotide::S,
            IupacNucleotide::M => IupacNucleotide::K,
            IupacNucleotide::K => IupacNucleotide::M,
            IupacNucleotide::R => IupacNucleotide::Y,
            IupacNucleotide::Y => IupacNucleotide::R,
            IupacNucleotide::B => IupacNucleotide::V,
            IupacNucleotide::D => IupacNucleotide::H,
            IupacNucleotide::H => IupacNucleotide::D,
            IupacNucleotide::V => IupacNucleotide::B,
            IupacNucleotide::N => IupacNucleotide::N,
            IupacNucleotide::Gap => IupacNucleotide::Gap,
        }
    }

    open spec fn spec_iupac(self) -> IupacNucleotide {
        self
    }

    fn to_letter(&self) -> (c: char) {
        match self {
            IupacNucleotide::A => 'A',
            IupacNucleotide::C => 'C',
            IupacNucleotide::G => 'G',
            IupacNucleotide::T => 'T',
            IupacNucleotide::W => 'W',
            IupacNucleotide::S => 'S',
            IupacNucleotide::M => 'M',
            IupacNucleotide::K => 'K',
            IupacNucleotide::R => 'R',
            IupacNucleotide::Y => 'Y',
            IupacNucleotide::B => 'B',
            IupacNucleotide::D => 'D',
            IupacNucleotide::H => 'H',
            IupacNucleotide::V => 'V',
            IupacNucleotide::N => 'N',
            IupacNucleotide::Gap => '-',
        }
    }

    fn try_from_letter(c: char) -> (r: Option<Self>) {
        match c {
            'A' | 'a' => Some(IupacNucleotide::A),
            'C' | 'c' => Some(IupacNucleotide::C),
            'G' | 'g' => Some(IupacNucleotide::G),
            'T' | 't' | 'U' | 'u' => Some(IupacNucleotide::T),
            'W' | 'w' => Some(IupacNucleotide::W),
            'S' | 's' => Some(IupacNucleotide::S),
            'M' | 'm' => Some(IupacNucleotide::M),
            'K' | 'k' => Some(IupacNucleotide::K),
            'R' | 'r' => Some(IupacNucleotide::R),
            'Y' | 'y' => Some(IupacNucleotide::Y),
            'B' | 'b' => Some(IupacNucleotide::B),
            'D' | 'd' => Some(IupacNucleotide::D),
            'H' | 'h' => Some(IupacNucleotide::H),
            'V' | 'v' => Some(IupacNucleotide::V),
            'N' | 'n' => Some(IupacNucleotide::N),
            '-' => Some(IupacNucleotide::Gap),
            _ => None,
        }
    }

    fn complement(&self) -> (r: Self) {
        match self {
            IupacNucleotide::A => IupacNucleotide::T,
            IupacNucleotide::T => IupacNucleotide::A,
            IupacNucleotide::C => IupacNucleotide::G,
            IupacNucleotide::G => IupacNucleotide::C,
            IupacNucleotide::W => IupacNucleotide::W,
            IupacNucleotide::S => IupacNucleotide::S,
            IupacNucleotide::M => IupacNucleotide::K,
            IupacNucleotide::K => IupacNucleotide::M,
            IupacNucleotide::R => IupacNucleotide::Y,
            IupacNucleotide::Y => IupacNucleotide::R,
            IupacNucleotide::B => IupacNucleotide::V,
            IupacNucleotide::D => IupacNucleotide::H,
            IupacNucleotide::H => IupacNucleotide::D,
            IupacNucleotide::V => IupacNucleotide::B,
            IupacNucleotide::N => IupacNucleotide::N,
            IupacNucleotide::Gap => IupacNucleotide::Gap,
        }
    }

    fn to_iupac(&self) -> (r: IupacNucleotide) {
        *self
    }

    proof fn lemma_complement_involutive(self) {
    }

    proof fn lemma_letter_decodes(self) {
    }

    proof fn lemma_decode_folds(c: char) {
    }
}

/// A triplet of IUPAC codes.
#[derive(Debug, Clone, Copy, PartialEq, Eq, Hash, Structural)]
pub struct IupacCodon(pub IupacNucleotide, pub IupacNucleotide, pub IupacNucleotide);

impl Codon<IupacNucleotide> for IupacCodon {
    open spec fn spec_bases(self) -> (IupacNucleotide, IupacNucleotide, IupacNucleotide) {
        (self.0, self.1, self.2)
    }

    fn from_triplet(triplet: (IupacNucleotide, IupacNucleotide, IupacNucleotide)) -> (c: Self) {
        IupacCodon(triplet.0, triplet.1, triplet.2)
    }

    fn to_triplet(&self) -> (triplet: (IupacNucleotide, IupacNucleotide, IupacNucleotide)) {
        (self.0, self.1, self.2)
    }
}

impl From<[IupacNucleotide; 3]> for IupacCodon {
    fn from(arr: [IupacNucleotide; 3]) -> (c: Self) {
        IupacCodon(arr[0], arr[1], arr[2])
    }
}

impl vstd::std_specs::convert::FromSpecImpl<[IupacNucleotide; 3]> for IupacCodon {
    open spec fn obeys_from_spec() -> bool {
        true
    }

    open spec fn from_spec(arr: [IupacNucleotide; 3]) -> Self {
        IupacCodon(arr@[0], arr@[1], arr@[2])
    }
}

} // verus!
