use plasmid::dna::DnaCodon;
use plasmid::dna::DnaNucleotide::{A, C, G, T};
use plasmid::traits::Codon;

#[test]
fn test_dna_codon_from_string() {
    let result = DnaCodon::try_from_str("ATG");
    assert!(result.is_some());
    if let Some(codon) = result {
        assert_eq!(codon, [A, T, G].into());
    }
}

#[test]
fn test_dna_codon_to_string() {
    let codon: DnaCodon = [A, T, G].into();
    assert_eq!(codon.to_string(), "ATG");
}

#[test]
fn dna_codon_test_dna_codon_anticodon() {
    let codon: DnaCodon = [A, T, G].into();
    let anticodon = codon.anticodon();
    assert_eq!(anticodon, [T, A, C].into());
}

#[test]
fn codon_arrays_and_triplets() {
    let codon = DnaCodon::from_triplet((G, A, T));
    assert_eq!(codon.to_triplet_arr(), [G, A, T]);
    assert_eq!(codon.to_triplet(), (G, A, T));
}
