use plasmid::enzymes::{restriction_enzymes, CutMode, RestrictionEnzyme, ENZYME_COUNT};
use plasmid::iupac::IupacNucleotide::{A, C, G, N, T};
use plasmid::scan::restriction_sites;
use plasmid::seq::DnaSequence;

#[test]
fn test_annotate_restriction_enzymes() {
    let mut seq = DnaSequence::from_str("AAAACATATGAAAA").unwrap();
    seq.annotate_restriction_enzymes();
    assert_eq!(seq.annotations().len(), 1);
    let ann = seq.annotations().first().unwrap();
    assert_eq!(ann.start, 4);
    assert_eq!(ann.needle, Some(6));
    assert_eq!(ann.end, 10);
    assert_eq!(ann.text, "NdeI");
}

#[test]
fn registry_holds_the_standard_enzymes() {
    let registry = restriction_enzymes();
    assert_eq!(registry.len(), ENZYME_COUNT);
    let ecori = registry.iter().find(|e| e.name() == "EcoRI").unwrap();
    assert_eq!(ecori.before(), [G]);
    assert_eq!(ecori.after(), [A, A, T, T, C]);
    assert_eq!(ecori.pattern(), vec![G, A, A, T, T, C]);
    assert_eq!(ecori.mode(), CutMode::Middle);
}

#[test]
fn every_occurrence_of_every_enzyme_is_reported() {
    let enzymes = vec![
        RestrictionEnzyme::new("AtoT", &[A], &[T], CutMode::Middle),
        RestrictionEnzyme::new("ANT", &[], &[A, N, T], CutMode::Around),
        RestrictionEnzyme::new("Empty", &[], &[], CutMode::Middle),
    ];
    let seq = DnaSequence::from_str("GAATCAGT").unwrap();
    let found = restriction_sites(seq.as_nucleotides(), &enzymes);
    let got: Vec<(usize, usize, Option<usize>, &str)> =
        found.iter().map(|a| (a.start, a.end, a.needle, a.text.as_str())).collect();
    assert_eq!(
        got,
        vec![
            (2, 4, Some(3), "AtoT"),
            (1, 4, Some(1), "ANT"),
            (5, 8, Some(5), "ANT"),
        ]
    );
}

#[test]
fn a_site_at_the_first_base_is_reported() {
    let mut seq = DnaSequence::from_str("CATATGAAAA").unwrap();
    seq.annotate_restriction_enzymes();
    let ndei: Vec<_> = seq.annotations().iter().filter(|a| a.text == "NdeI").collect();
    assert_eq!(ndei.len(), 1);
    assert_eq!((ndei[0].start, ndei[0].needle, ndei[0].end), (0, Some(2), 6));
    let enzymes = vec![RestrictionEnzyme::new("GA", &[G], &[A], CutMode::Middle)];
    let found = restriction_sites(DnaSequence::from_str("GAGA").unwrap().as_nucleotides(), &enzymes);
    let got: Vec<(usize, usize)> = found.iter().map(|a| (a.start, a.end)).collect();
    assert_eq!(got, vec![(0, 2), (2, 4)]);
    let mut empty = DnaSequence::new();
    empty.annotate_restriction_enzymes();
    assert!(empty.annotations().is_empty());
}

#[test]
fn scanning_twice_appends_again() {
    let mut seq = DnaSequence::from_str("AAAACATATGAAAA").unwrap();
    let enzymes = vec![RestrictionEnzyme::new("NdeI", &[C, A], &[T, A, T, G], CutMode::Middle)];
    seq.annotate_with(&enzymes);
    seq.annotate_with(&enzymes);
    assert_eq!(seq.annotations().len(), 2);
    assert_eq!(seq.annotations()[0], seq.annotations()[1]);
    assert_eq!(seq.to_nucleotide_string(), "AAAACATATGAAAA");
}
