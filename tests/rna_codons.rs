use plasmid::dna::{DnaCodon, DnaNucleotide};
use plasmid::eaa::Eaa;
use plasmid::error::CodonParseError;
use plasmid::rna::RnaNucleoBase;
use plasmid::rna::RnaNucleotide::{A, C, G, U};
use plasmid::rna::{RnaCodon, RnaCodonBuilder, RnaCodonHelper, RnaNucleotide, RnaPartialCodon};
use plasmid::traits::Codon;

#[test]
fn test_rna_codon_from_string() {
    let result = RnaCodon::try_from_str("AUG");
    assert!(result.is_some());
    if let Some(codon) = result {
        assert_eq!(codon, RnaCodon::from_triplet_arr([A, U, G]));
    }
}

#[test]
fn test_rna_codon_from_string_psi() {
    let result = RnaCodon::try_from_str("AΨG");
    assert!(result.is_some());
    if let Some(codon) = result {
        assert_eq!(codon, [A, U, G].into());
    }
}

#[test]
fn test_rna_codon_to_string() {
    let codon: RnaCodon = [A, U, G].into();
    assert_eq!(codon.to_string(), "AUG");
}

#[test]
fn rna_codon_test_dna_codon_anticodon() {
    let codon: RnaCodon = [A, U, G].into();
    let anticodon = codon.anticodon();
    assert_eq!(anticodon, [U, A, C].into());
}

#[test]
fn test_rna_codon_builder_empty() {
    let builder = RnaCodonBuilder::empty();
    assert!(builder.to_codon().is_none());
}

#[test]
fn test_rna_codon_builder_partial() {
    let builder = RnaCodonBuilder::new(Some(RnaNucleoBase::A), Some(RnaNucleoBase::U), None);
    assert!(builder.to_codon().is_none());
}

#[test]
fn test_rna_codon_builder_methionine() {
    let builder = RnaCodonBuilder::new(
        Some(RnaNucleoBase::A),
        Some(RnaNucleoBase::U),
        Some(RnaNucleoBase::G),
    );
    assert!(builder.to_codon().is_some());
    assert_eq!(builder.to_codon().unwrap(), Eaa::Met);
}

#[test]
fn test_rna_codon_builder_macro_partial_1() {
    let codon = RnaCodonBuilder::new(Some(RnaNucleoBase::A), None, None);
    assert_eq!(codon.0, Some(RnaNucleoBase::A));
    assert_eq!(codon.1, None);
    assert_eq!(codon.2, None);
}

#[test]
fn test_rna_codon_builder_macro_partial_2() {
    let codon = RnaCodonBuilder::new(Some(RnaNucleoBase::A), Some(RnaNucleoBase::U), None);
    assert_eq!(codon.0, Some(RnaNucleoBase::A));
    assert_eq!(codon.1, Some(RnaNucleoBase::U));
    assert_eq!(codon.2, None);
}

#[test]
fn test_rna_codon_builder_macro() {
    let codon = RnaCodonBuilder::new(
        Some(RnaNucleoBase::A),
        Some(RnaNucleoBase::U),
        Some(RnaNucleoBase::G),
    );
    assert_eq!(codon.0, Some(RnaNucleoBase::A));
    assert_eq!(codon.1, Some(RnaNucleoBase::U));
    assert_eq!(codon.2, Some(RnaNucleoBase::G));
}

#[test]
fn test_rna_codon_macro() {
    let codon = RnaCodonBuilder::new(
        Some(RnaNucleoBase::A),
        Some(RnaNucleoBase::U),
        Some(RnaNucleoBase::G),
    )
    .to_codon();
    assert!(codon.is_some());
    assert_eq!(codon.unwrap(), Eaa::Met);
}

#[test]
fn test_rna_partial_codon_new() {
    let builder = RnaPartialCodon::new();
    assert!(builder.to_codon().is_none());
}

#[test]
fn test_rna_partial_codon_nucleobase_count() {
    let pcodon = RnaPartialCodon::from_slice(&[A, U]);
    assert_eq!(pcodon.nucleobase_count(), 2);
}

#[test]
fn test_rna_partial_codon_to_codon() {
    let pcodon = RnaPartialCodon::from_slice(&[A, U, G]);
    let codon = pcodon.to_codon();
    assert!(codon.is_some());
    if let Some(codon) = codon {
        assert_eq!(codon, [A, U, G].into());
    }
}

#[test]
fn partial_codon_holds_at_most_three() {
    let mut p = RnaPartialCodon::from_slice(&[A, U, G, C]);
    assert_eq!(p.nucleobase_count(), 3);
    assert_eq!(p.push(C), Err(()));
    assert_eq!(p.pop(), Some(G));
    assert_eq!(p.push(C), Ok(()));
    assert_eq!(p.to_codon(), Some(RnaCodon(A, U, C)));
}

const BASES: [RnaNucleotide; 4] = [RnaNucleotide::U, RnaNucleotide::C, RnaNucleotide::A, RnaNucleotide::G];

#[test]
fn every_codon_translates_by_the_standard_table() {
    // The standard code, first base slowest, in U C A G order.
    let table = "FFLLSSSSYY**CC*WLLLLPPPPHHQQRRRRIIIMTTTTNNKKSSRRVVVVAAAADDEEGGGG";
    let letters: Vec<char> = table.chars().collect();
    let mut k = 0;
    for a in BASES {
        for b in BASES {
            for c in BASES {
                let aa = RnaCodon(a, b, c).translate();
                assert_eq!(aa.to_letter(), letters[k]);
                assert_eq!(RnaCodonHelper::to_codon(a, b, c), aa);
                k += 1;
            }
        }
    }
    assert_eq!(k, 64);
}

#[test]
fn translation_spot_checks() {
    assert_eq!(RnaCodon(A, U, G).translate(), Eaa::Met);
    assert_eq!(RnaCodon(U, A, A).translate(), Eaa::Ter);
    assert_eq!(RnaCodon(U, A, G).translate(), Eaa::Ter);
    assert_eq!(RnaCodon(U, G, A).translate(), Eaa::Ter);
    assert_eq!(RnaCodon(U, U, U).translate(), Eaa::Phe);
    assert_eq!(RnaCodon(U, U, C).translate(), Eaa::Phe);
    let dna = DnaCodon(DnaNucleotide::T, DnaNucleotide::G, DnaNucleotide::G);
    assert_eq!(dna.to_rna(), RnaCodon(U, G, G));
    assert_eq!(dna.translate(), Eaa::Trp);
}

#[test]
fn codon_parse_errors() {
    assert_eq!(DnaCodon::parse("AT"), Err(CodonParseError::InvalidLength(2)));
    assert_eq!(DnaCodon::parse("ATGC"), Err(CodonParseError::InvalidLength(4)));
    assert_eq!(DnaCodon::parse("AXG"), Err(CodonParseError::InvalidChar('X')));
    assert_eq!(RnaCodon::parse("aug"), Ok(RnaCodon(RnaNucleotide::A, RnaNucleotide::U, RnaNucleotide::G)));
    assert!(DnaCodon::try_from_str("AUG").is_some());
    assert!(DnaCodon::try_from_str("").is_none());
}

#[test]
fn amino_acid_letters_and_names() {
    assert_eq!(Eaa::Trp.to_letter(), 'W');
    assert_eq!(Eaa::Ter.to_letter(), '*');
    assert_eq!(Eaa::try_from_letter('w'), Some(Eaa::Trp));
    assert_eq!(Eaa::try_from_letter('*'), Some(Eaa::Ter));
    assert_eq!(Eaa::try_from_letter('B'), None);
    assert_eq!(Eaa::Asp.to_string(), "Aspartic acid");
    assert_eq!(Eaa::Ter.to_string(), "STOP");
    assert_eq!(Eaa::try_from_str("AUG"), Some(Eaa::Met));
    assert_eq!(Eaa::try_from_str("UGA"), Some(Eaa::Ter));
    assert_eq!(Eaa::try_from_str("AU"), None);
}

#[test]
fn conversions_from_chars_and_codons() {
    assert_eq!(RnaNucleotide::try_from('u'), Ok(U));
    assert_eq!(
        RnaNucleotide::try_from('x'),
        Err(plasmid::error::RnaNucleoBaseDecodingError::InvalidChar('x'))
    );
    assert_eq!(Eaa::from(&RnaCodon(G, G, C)), Eaa::Gly);
    assert_eq!(Eaa::from(&RnaCodon(C, A, G)), Eaa::Gln);
}
