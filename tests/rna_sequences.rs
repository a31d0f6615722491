use plasmid::eaa::Eaa;
use plasmid::rna::RnaNucleotide::{A, C, G, U};
use plasmid::rna::{RnaCodon, RnaSequenceBuilder};
use plasmid::seq::RnaSequence;

#[test]
fn genetic_sequence_test_rna_sequence_from_str() {
    let seq = RnaSequence::from_str("AUGUGAUGAAAGCAUAUGACUAAA");
    assert!(seq.is_ok());
    let seq = seq.unwrap();
    let codons = seq.as_codons();
    assert_eq!(
        codons,
        &[
            [A, U, G].into(), // Met
            [U, G, A].into(), // Ter
            [U, G, A].into(), // Ter
            [A, A, G].into(), // Lys
            [C, A, U].into(), // His
            [A, U, G].into(), // Met
            [A, C, U].into(), // Thr
            [A, A, A].into(), // Lys
        ]
    );
}

#[test]
fn rna_sequence_test_rna_sequence_from_str() {
    let seq = plasmid::rna::RnaSequence::from_str("AUGUGAUGAAAGCAUAUGACUAAA");
    assert!(seq.is_ok());
    let seq = seq.unwrap();
    let codons = seq.codons();
    assert_eq!(
        codons.0,
        &[
            RnaCodon(A, U, G), // Met
            RnaCodon(U, G, A), // Ter
            RnaCodon(U, G, A), // Ter
            RnaCodon(A, A, G), // Lys
            RnaCodon(C, A, U), // His
            RnaCodon(A, U, G), // Met
            RnaCodon(A, C, U), // Thr
            RnaCodon(A, A, A), // Lys
        ]
    );
    assert_eq!(codons.1, None)
}

#[test]
fn rna_sequence_reports_the_trailing_bases() {
    let mut seq = plasmid::rna::RnaSequence::from_str("AUGCU").unwrap();
    let codons = seq.codons();
    assert_eq!(codons.0, vec![RnaCodon(A, U, G)]);
    assert_eq!(codons.1.unwrap().nucleobase_count(), 2);
    seq.add_base(G);
    assert!(seq.codons().1.is_none());
    assert_eq!(seq.load_str("AX"), None);
    assert!(plasmid::rna::RnaSequence::from_str("AUT").is_ok());
    assert!(plasmid::rna::RnaSequence::from_str("AUB").is_err());
}

#[test]
fn test_rna_sequence_builder() {
    let builder = RnaSequenceBuilder::from_str("AUGUGAUGAAAGCAUAUGACUAAA");
    assert!(builder.is_ok());
    let builder = builder.unwrap();
    let codons = builder.codons();
    assert_eq!(
        codons,
        &[
            Eaa::Met,
            Eaa::Ter,
            Eaa::Ter,
            Eaa::Lys,
            Eaa::His,
            Eaa::Met,
            Eaa::Thr,
            Eaa::Lys
        ]
    );
}

#[test]
fn rna_sequence_builder_appends_and_rejects() {
    let mut builder = RnaSequenceBuilder::new();
    builder.add_base(U);
    builder.add_base(G);
    builder.add_base(G);
    assert_eq!(builder.codons(), vec![Eaa::Trp]);
    assert!(builder.load_str("UUX").is_err());
    assert_eq!(builder.codons(), vec![Eaa::Trp]);
    assert!(builder.load_str("U").is_ok());
    assert_eq!(builder.codons(), vec![Eaa::Trp, Eaa::Phe]);
}
