use vstd::prelude::*;

verus! {

/// A character that does not belong to the alphabet it was decoded against.
#[derive(Debug, Clone, Copy, PartialEq, Eq)]
pub enum DecodeError {
    InvalidChar(char),
}

/// Another name for [`DecodeError`], as the RNA sequence builder reports it.
pub type RnaNucleoBaseDecodingError = DecodeError;

/// Why a string could not be read as a codon.
#[derive(Debug, Clone, Copy, PartialEq, Eq)]
pub enum CodonParseError {
    /// The string does not hold exactly three characters; carries the count it holds.
    InvalidLength(usize),
    /// A character that the alphabet does not know.
    InvalidChar(char),
}

} // verus!
