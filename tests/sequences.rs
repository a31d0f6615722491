use plasmid::dna::DnaCodon;
use plasmid::dna::DnaNucleotide::{A, C, G, T};
use plasmid::error::DecodeError;
use plasmid::iupac::IupacNucleotide;
use plasmid::seq::{DnaSequence, IupacSequence};

#[test]
fn pop_base_takes_the_last_base() {
    let mut seq = DnaSequence::from_str("AGTCCT").unwrap();
    let base = seq.pop_base();
    assert_eq!(base, Some(T));
    assert_eq!(seq.len(), 5);
    assert_eq!(seq.to_nucleotide_string(), "AGTCC");
    let mut empty = DnaSequence::new();
    assert_eq!(empty.pop_base(), None);
    assert!(empty.is_empty());
}

#[test]
fn pop_codon_is_frame_aligned_and_unsafe_is_tail_aligned() {
    let mut seq1 = DnaSequence::from_str("AGTAA").unwrap();
    assert_eq!(seq1.pop_codon(), Some([A, G, T].into()));
    // The two bases past the last complete codon stay in place.
    assert_eq!(seq1.to_nucleotide_string(), "AA");
    let mut seq2 = DnaSequence::from_str("AGTAA").unwrap();
    assert_eq!(seq2.pop_codon_unsafe(), Some([T, A, A].into()));
    assert_eq!(seq2.to_nucleotide_string(), "AG");
    let mut short = DnaSequence::from_str("AA").unwrap();
    assert!(short.pop_codon().is_none());
    assert!(short.pop_codon_unsafe().is_none());
    assert_eq!(short.len(), 2);
}

#[test]
fn pop_codon_takes_the_last_codon_of_the_frame() {
    let mut seq = DnaSequence::from_str("AAACCCGGGT").unwrap();
    assert_eq!(seq.pop_codon(), Some(DnaCodon(G, G, G)));
    assert_eq!(seq.to_nucleotide_string(), "AAACCCT");
}

#[test]
fn push_codon_then_pop_codon() {
    let mut seq = DnaSequence::new();
    let codon: DnaCodon = [A, G, T].into();
    seq.push_codon(&codon);
    seq.push_base(C);
    assert_eq!(seq.to_nucleotide_string(), "AGTC");
    assert_eq!(seq.pop_codon(), Some([A, G, T].into()));
}

#[test]
fn codons_drop_the_remainder() {
    let seq = DnaSequence::from_str("TGATCCA").unwrap();
    let codons = seq.codons();
    assert_eq!(codons.len(), 2);
    assert_eq!(codons, vec![DnaCodon(T, G, A), DnaCodon(T, C, C)]);
    assert_eq!(seq.as_codons(), codons);
    let seq = DnaSequence::from_str("TG").unwrap();
    assert!(seq.codons().is_empty());
}

#[test]
fn nucleotides_in_order() {
    let seq = DnaSequence::from_str("TGATCC").unwrap();
    let nucleotides = seq.nucleotides().map(|&x| x).collect::<Vec<_>>();
    assert_eq!(nucleotides, [T, G, A, T, C, C]);
    assert_eq!(seq.as_nucleotides(), [T, G, A, T, C, C]);
}

#[test]
fn reverse_complement_keeps_the_order() {
    let seq = DnaSequence::from_str("TGATCC").unwrap();
    assert_eq!(seq.as_reverse_complement(), [A, C, T, A, G, G]);
    assert_eq!(seq.to_reverse_complement_string(), "ACTAGG");
}

#[test]
fn letter_strings_round_trip_up_to_case_and_aliases() {
    let seq = DnaSequence::from_str("acgUt").unwrap();
    assert_eq!(seq.to_nucleotide_string(), "ACGTT");
    let seq = IupacSequence::from_str("rYn-u").unwrap();
    assert_eq!(seq.to_nucleotide_string(), "RYN-T");
    assert_eq!(IupacSequence::new().to_nucleotide_string(), "");
    let rna = plasmid::seq::RnaSequence::from_str("acgt").unwrap();
    assert_eq!(rna.to_nucleotide_string(), "ACGU");
}

#[test]
fn decode_errors_name_the_character() {
    match DnaSequence::from_str("ACXG") {
        Err(e) => assert_eq!(e, DecodeError::InvalidChar('X')),
        Ok(_) => panic!("decoded an invalid letter"),
    }
    let mut seq = DnaSequence::from_str("T").unwrap();
    assert_eq!(seq.push_base_str("ACNG"), Err(DecodeError::InvalidChar('N')));
    // The bases before the invalid character stay appended.
    assert_eq!(seq.to_nucleotide_string(), "TAC");
    assert_eq!(seq.push_base_str("gg"), Ok(()));
    assert_eq!(seq.to_nucleotide_string(), "TACGG");
}

#[test]
fn sequence_matches_pattern_over_shared_positions() {
    let seq = DnaSequence::from_str("ACGT").unwrap();
    assert!(seq.matches(&[IupacNucleotide::A, IupacNucleotide::C]));
    assert!(!seq.matches(&[IupacNucleotide::A, IupacNucleotide::G]));
    // The sequence base is the receiver: a concrete base does not match N.
    assert!(!seq.matches(&[IupacNucleotide::N]));
    assert!(seq.matches::<IupacNucleotide>(&[]));
    let ambiguous = IupacSequence::from_str("RN").unwrap();
    assert!(ambiguous.matches(&[A, T]));
    assert!(!ambiguous.matches(&[C, T]));
}

#[test]
fn to_string_gives_the_letters() {
    let mut seq = DnaSequence::new();
    assert_eq!(seq.push_base_str("AGT"), Ok(()));
    assert_eq!(seq.to_string(), "AGT");
}
