use plasmid::dna::{DnaNucleoBase, DnaNucleotide};
use plasmid::iupac::IupacNucleotide;
use plasmid::rna::{RnaNucleoBase, RnaNucleotide};
use plasmid::traits::NucleoBase;

#[test]
fn dna_nucleo_base_test_dna_base_to_string() {
    assert_eq!(DnaNucleoBase::T.to_string(), format!("Thymine"))
}

#[test]
fn dna_nucleotide_test_dna_base_to_string() {
    assert_eq!(DnaNucleotide::T.to_string(), format!("Thymine"))
}

#[test]
fn rna_base_test_rna_base_to_string() {
    assert_eq!(RnaNucleoBase::U.to_string(), format!("Uracil"))
}

#[test]
fn rna_nucleobase_test_rna_base_to_string() {
    assert_eq!(RnaNucleoBase::U.to_string(), format!("Uracil"))
}

#[test]
fn rna_nucleotide_test_rna_base_to_string() {
    assert_eq!(RnaNucleotide::U.to_string(), format!("Uracil"))
}

const IUPAC_ALL: [IupacNucleotide; 16] = [
    IupacNucleotide::A,
    IupacNucleotide::C,
    IupacNucleotide::G,
    IupacNucleotide::T,
    IupacNucleotide::W,
    IupacNucleotide::S,
    IupacNucleotide::M,
    IupacNucleotide::K,
    IupacNucleotide::R,
    IupacNucleotide::Y,
    IupacNucleotide::B,
    IupacNucleotide::D,
    IupacNucleotide::H,
    IupacNucleotide::V,
    IupacNucleotide::N,
    IupacNucleotide::Gap,
];

#[test]
fn complement_twice_is_identity_in_every_alphabet() {
    for b in [DnaNucleotide::A, DnaNucleotide::C, DnaNucleotide::G, DnaNucleotide::T] {
        assert_eq!(b.complement().complement(), b);
    }
    for b in [RnaNucleotide::A, RnaNucleotide::C, RnaNucleotide::G, RnaNucleotide::U] {
        assert_eq!(b.complement().complement(), b);
    }
    for b in IUPAC_ALL {
        assert_eq!(b.complement().complement(), b);
    }
}

#[test]
fn complement_pairs() {
    assert_eq!(DnaNucleotide::A.complement(), DnaNucleotide::T);
    assert_eq!(DnaNucleotide::C.complement(), DnaNucleotide::G);
    assert_eq!(RnaNucleotide::A.complement(), RnaNucleotide::U);
    assert_eq!(IupacNucleotide::R.complement(), IupacNucleotide::Y);
    assert_eq!(IupacNucleotide::B.complement(), IupacNucleotide::V);
    assert_eq!(IupacNucleotide::Gap.complement(), IupacNucleotide::Gap);
    assert_eq!(DnaNucleotide::G.base_pair(), (DnaNucleotide::G, DnaNucleotide::C));
}

#[test]
fn any_code_matches_everything_and_gap_only_gap() {
    for x in IUPAC_ALL {
        assert!(IupacNucleotide::N.matches(&x));
        assert_eq!(IupacNucleotide::Gap.matches(&x), x == IupacNucleotide::Gap);
    }
}

#[test]
fn matching_is_containment_not_symmetric() {
    assert!(IupacNucleotide::N.matches(&IupacNucleotide::A));
    assert!(!IupacNucleotide::A.matches(&IupacNucleotide::N));
    assert!(IupacNucleotide::R.matches(&IupacNucleotide::A));
    assert!(IupacNucleotide::R.matches(&IupacNucleotide::G));
    assert!(!IupacNucleotide::R.matches(&IupacNucleotide::C));
    assert!(IupacNucleotide::B.matches(&IupacNucleotide::S));
    assert!(!IupacNucleotide::S.matches(&IupacNucleotide::B));
    assert!(!IupacNucleotide::A.matches(&IupacNucleotide::Gap));
    for x in IUPAC_ALL {
        assert!(x.matches(&x));
    }
}

#[test]
fn letters_decode_case_insensitively_with_aliases() {
    assert_eq!(DnaNucleotide::try_from_letter('a'), Some(DnaNucleotide::A));
    assert_eq!(DnaNucleotide::try_from_letter('U'), Some(DnaNucleotide::T));
    assert_eq!(DnaNucleotide::try_from_letter('X'), None);
    assert_eq!(RnaNucleotide::try_from_letter('t'), Some(RnaNucleotide::U));
    assert_eq!(RnaNucleotide::try_from_letter('\u{3A8}'), Some(RnaNucleotide::U));
    assert_eq!(RnaNucleotide::try_from_letter('-'), None);
    assert_eq!(IupacNucleotide::try_from_letter('-'), Some(IupacNucleotide::Gap));
    assert_eq!(IupacNucleotide::try_from_letter('u'), Some(IupacNucleotide::T));
    assert_eq!(IupacNucleotide::try_from_letter('y'), Some(IupacNucleotide::Y));
    assert_eq!(IupacNucleotide::try_from_letter('E'), None);
    assert_eq!(IupacNucleotide::Gap.to_letter(), '-');
    assert_eq!(RnaNucleotide::U.to_letter(), 'U');
}

#[test]
fn widening_to_iupac() {
    assert_eq!(RnaNucleotide::U.to_iupac(), IupacNucleotide::T);
    assert_eq!(DnaNucleotide::G.to_iupac(), IupacNucleotide::G);
    assert_eq!(IupacNucleotide::K.to_iupac(), IupacNucleotide::K);
}
