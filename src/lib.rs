//! Genetic sequence engine: nucleotide alphabets (DNA, RNA, IUPAC), codons and
//! their translation, sequence containers, a restriction-site scanner, and the
//! state of an interactive sequence editor.

pub mod annotation;
pub mod dna;
pub mod eaa;
pub mod editor;
pub mod enzymes;
pub mod error;
pub mod iupac;
pub mod rna;
pub mod scan;
pub mod seq;
pub mod traits;
mod text;

pub use crate::annotation::Annotation;
pub use crate::dna::{DnaCodon, DnaNucleotide};
pub use crate::eaa::Eaa;
pub use crate::enzymes::{restriction_enzymes, CutMode, RestrictionEnzyme};
pub use crate::error::{CodonParseError, DecodeError};
pub use crate::iupac::{IupacCodon, IupacNucleotide};
pub use crate::rna::{RnaCodon, RnaNucleotide};
pub use crate::seq::{DnaSequence, GeneticSequence, IupacSequence, RnaSequence};
pub use crate::traits::{Codon, NucleoBase};
