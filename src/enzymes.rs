use vstd::prelude::*;

use crate::iupac::IupacNucleotide;
use crate::iupac::IupacNucleotide::{A, B, C, D, G, H, K, M, N, R, S, T, V, W, Y};

verus! {

/// Where within its recognition pattern an enzyme formally cuts.
#[derive(Debug, Clone, Copy, PartialEq, Eq, Hash, Structural)]
pub enum CutMode {
    /// Between the `before` and the `after` part of the pattern.
    Middle,
    /// Before and after the pattern.
    Around,
}

/// What a restriction enzyme is, as plain values: its name, the codes upstream
/// (`before`) and downstream (`after`) of its formal cut point, and its cut mode.
#[verifier::ext_equal]
pub struct EnzymeView {
    pub name: Seq<char>,
    pub before: Seq<IupacNucleotide>,
    pub after: Seq<IupacNucleotide>,
    pub mode: CutMode,
}

impl EnzymeView {
    /// The full recognition pattern, `before` followed by `after`.
    pub open spec fn pattern(self) -> Seq<IupacNucleotide> {
        self.before + self.after
    }
}

/// A restriction enzyme: its name, the IUPAC codes upstream (`before`) and
/// downstream (`after`) of its formal cut point, and its cut mode. The
/// recognition pattern is `before` followed by `after`.
#[derive(Debug, Clone, PartialEq, Eq)]
pub struct RestrictionEnzyme {
    name: String,
    before: Vec<IupacNucleotide>,
    after: Vec<IupacNucleotide>,
    mode: CutMode,
}

impl View for RestrictionEnzyme {
    type V = EnzymeView;

    closed spec fn view(&self) -> EnzymeView {
        EnzymeView { name: self.name@, before: self.before@, after: self.after@, mode: self.mode }
    }
}

impl RestrictionEnzyme {
    pub fn new(
        name: &str,
        before: &[IupacNucleotide],
        after: &[IupacNucleotide],
        mode: CutMode,
    ) -> (r: Self)
        ensures
            r@ == (EnzymeView { name: name@, before: before@, after: after@, mode }),
    {
        RestrictionEnzyme {
            name: String::from_str(name),
            before: vstd::slice::slice_to_vec(before),
            after: vstd::slice::slice_to_vec(after),
            mode,
        }
    }

    pub fn name(&self) -> (r: &String)
        ensures
            r@ == self@.name,
    {
        &self.name
    }

    pub fn before(&self) -> (r: &[IupacNucleotide])
        ensures
            r@ == self@.before,
    {
        self.before.as_slice()
    }

    pub fn after(&self) -> (r: &[IupacNucleotide])
        ensures
            r@ == self@.after,
    {
        self.after.as_slice()
    }

    pub fn mode(&self) -> (r: CutMode)
        ensures
            r == self@.mode,
    {
        self.mode
    }

    /// The full recognition pattern, `before` followed by `after`.
    pub fn pattern(&self) -> (r: Vec<IupacNucleotide>)
        ensures
            r@ == self@.pattern(),
    {
        let mut r = vstd::slice::slice_to_vec(self.before.as_slice());
        let mut tail = vstd::slice::slice_to_vec(self.after.as_slice());
        r.append(&mut tail);
        r
    }
}

/// The views of a run of enzymes.
pub open spec fn views(enzymes: Seq<RestrictionEnzyme>) -> Seq<EnzymeView> {
    enzymes.map_values(|e: RestrictionEnzyme| e@)
}

/// The number of enzymes in the standard registry.
pub const ENZYME_COUNT: usize = 187;

/// An enzyme's view from its four parts.
pub open spec fn entry(
    name: Seq<char>,
    before: Seq<IupacNucleotide>,
    after: Seq<IupacNucleotide>,
    mode: CutMode,
) -> EnzymeView {
    EnzymeView { name, before, after, mode }
}

/// Entry `i` of the standard registry (for `i` below `ENZYME_COUNT`). The
/// registry is ordered by recognition pattern.
#[verifier::opaque]
pub open spec fn standard_enzyme(i: int) -> EnzymeView {
    if i < 22 {
        registry_a(i)
    } else if i < 34 {
        registry_ca(i - 22)
    } else if i < 58 {
        registry_cc(i - 34)
    } else if i < 79 {
        registry_cg_to_cy(i - 58)
    } else if i < 99 {
        registry_ga(i - 79)
    } else if i < 121 {
        registry_gc_to_gd(i - 99)
    } else if i < 142 {
        registry_gg_to_gr(i - 121)
    } else if i < 154 {
        registry_gt_to_gw(i - 142)
    } else if i < 164 {
        registry_n_to_r(i - 154)
    } else {
        registry_t_to_y(i - 164)
    }
}

/// The standard registry of restriction enzymes.
pub open spec fn standard_registry() -> Seq<EnzymeView> {
    Seq::new(ENZYME_COUNT as nat, |i: int| standard_enzyme(i))
}

/// Entry `i` of the standard registry.
fn standard_enzyme_at(i: usize) -> (r: RestrictionEnzyme)
    requires
        i < ENZYME_COUNT,
    ensures
        r@ == standard_enzyme(i as int),
{
    proof {
        reveal(standard_enzyme);
    }
    if i < 22 {
        registry_a_at(i)
    } else if i < 34 {
        registry_ca_at(i - 22)
    } else if i < 58 {
        registry_cc_at(i - 34)
    } else if i < 79 {
        registry_cg_to_cy_at(i - 58)
    } else if i < 99 {
        registry_ga_at(i - 79)
    } else if i < 121 {
        registry_gc_to_gd_at(i - 99)
    } else if i < 142 {
        registry_gg_to_gr_at(i - 121)
    } else if i < 154 {
        registry_gt_to_gw_at(i - 142)
    } else if i < 164 {
        registry_n_to_r_at(i - 154)
    } else {
        registry_t_to_y_at(i - 164)
    }
}

/// The standard registry of restriction enzymes, in its fixed order.
pub fn restriction_enzymes() -> (r: Vec<RestrictionEnzyme>)
    ensures
        views(r@) == standard_registry(),
{
    let mut r: Vec<RestrictionEnzyme> = Vec::new();
    let mut i: usize = 0;
    while i < ENZYME_COUNT
        invariant
            i <= ENZYME_COUNT,
            r@.len() == i,
            forall|j: int| 0 <= j < i ==> (#[trigger] r@[j])@ == standard_enzyme(j),
        decreases ENZYME_COUNT - i,
    {
        let e = standard_enzyme_at(i);
        r.push(e);
        i = i + 1;
    }
    assert(views(r@) =~= standard_registry());
    r
}

/// The enzymes of the standard registry whose recognition pattern starts with
/// A, from entry 0 on.
#[verifier::opaque]
pub open spec fn registry_a(i: int) -> EnzymeView {
    if i == 0 {
        entry("AclI"@, seq![A, A], seq![C, G, T, T], CutMode::Middle)
    } else if i == 1 {
        entry("HindIII"@, seq![A], seq![A, G, C, T, T], CutMode::Middle)
    } else if i == 2 {
        entry("SspI"@, seq![A, A, T], seq![A, T, T], CutMode::Middle)
    } else if i == 3 {
        entry("MluCI"@, seq![], seq![A, A, T, T], CutMode::Middle)
    } else if i == 4 {
        entry("PciI"@, seq![A], seq![C, A, T, G, T], CutMode::Middle)
    } else if i == 5 {
        entry("AgeI"@, seq![A], seq![C, C, G, G, T], CutMode::Middle)
    } else if i == 6 {
        entry("SexAI"@, seq![A], seq![C, C, W, G, G, T], CutMode::Middle)
    } else if i == 7 {
        entry("MluI"@, seq![A], seq![C, G, C, G, T], CutMode::Middle)
    } else if i == 8 {
        entry("HpyCH4IV"@, seq![A], seq![C, G, T], CutMode::Middle)
    } else if i == 9 {
        entry("HpyCH4III"@, seq![A, C, N], seq![G, T], CutMode::Middle)
    } else if i == 10 {
        entry("AflIII"@, seq![A], seq![C, R, Y, G, T], CutMode::Middle)
    } else if i == 11 {
        entry("SpeI"@, seq![A], seq![C, T, A, G, T], CutMode::Middle)
    } else if i == 12 {
        entry("BglII"@, seq![A], seq![G, A, T, C, T], CutMode::Middle)
    } else if i == 13 {
        entry("AfeI"@, seq![A, G, C], seq![G, C, T], CutMode::Middle)
    } else if i == 14 {
        entry("AluI"@, seq![A, G], seq![C, T], CutMode::Middle)
    } else if i == 15 {
        entry("StuI"@, seq![A, G, G], seq![C, C, T], CutMode::Middle)
    } else if i == 16 {
        entry("ScaI"@, seq![A, G, T], seq![A, C, T], CutMode::Middle)
    } else if i == 17 {
        entry("ClaI"@, seq![A, T], seq![C, G, A, T], CutMode::Middle)
    } else if i == 18 {
        entry("BspDI"@, seq![A, T], seq![C, G, A, T], CutMode::Middle)
    } else if i == 19 {
        entry("NsiI"@, seq![A, T, G, C, A], seq![T], CutMode::Middle)
    } else if i == 20 {
        entry("AseI"@, seq![A, T], seq![T, A, A, T], CutMode::Middle)
    } else {
        entry("SwaI"@, seq![A, T, T, T], seq![A, A, A, T], CutMode::Middle)
    }
}

fn registry_a_at(i: usize) -> (r: RestrictionEnzyme)
    requires
        i < 22,
    ensures
        r@ == registry_a(i as int),
{
    proof {
        reveal(registry_a);
    }
    let r = match i {
        0 => RestrictionEnzyme::new("AclI", &[A, A], &[C, G, T, T], CutMode::Middle),
        1 => RestrictionEnzyme::new("HindIII", &[A], &[A, G, C, T, T], CutMode::Middle),
        2 => RestrictionEnzyme::new("SspI", &[A, A, T], &[A, T, T], CutMode::Middle),
        3 => RestrictionEnzyme::new("MluCI", &[], &[A, A, T, T], CutMode::Middle),
        4 => RestrictionEnzyme::new("PciI", &[A], &[C, A, T, G, T], CutMode::Middle),
        5 => RestrictionEnzyme::new("AgeI", &[A], &[C, C, G, G, T], CutMode::Middle),
        6 => RestrictionEnzyme::new("SexAI", &[A], &[C, C, W, G, G, T], CutMode::Middle),
        7 => RestrictionEnzyme::new("MluI", &[A], &[C, G, C, G, T], CutMode::Middle),
        8 => RestrictionEnzyme::new("HpyCH4IV", &[A], &[C, G, T], CutMode::Middle),
        9 => RestrictionEnzyme::new("HpyCH4III", &[A, C, N], &[G, T], CutMode::Middle),
        10 => RestrictionEnzyme::new("AflIII", &[A], &[C, R, Y, G, T], CutMode::Middle),
        11 => RestrictionEnzyme::new("SpeI", &[A], &[C, T, A, G, T], CutMode::Middle),
        12 => RestrictionEnzyme::new("BglII", &[A], &[G, A, T, C, T], CutMode::Middle),
        13 => RestrictionEnzyme::new("AfeI", &[A, G, C], &[G, C, T], CutMode::Middle),
        14 => RestrictionEnzyme::new("AluI", &[A, G], &[C, T], CutMode::Middle),
        15 => RestrictionEnzyme::new("StuI", &[A, G, G], &[C, C, T], CutMode::Middle),
        16 => RestrictionEnzyme::new("ScaI", &[A, G, T], &[A, C, T], CutMode::Middle),
        17 => RestrictionEnzyme::new("ClaI", &[A, T], &[C, G, A, T], CutMode::Middle),
        18 => RestrictionEnzyme::new("BspDI", &[A, T], &[C, G, A, T], CutMode::Middle),
        19 => RestrictionEnzyme::new("NsiI", &[A, T, G, C, A], &[T], CutMode::Middle),
        20 => RestrictionEnzyme::new("AseI", &[A, T], &[T, A, A, T], CutMode::Middle),
        _ => RestrictionEnzyme::new("SwaI", &[A, T, T, T], &[A, A, A, T], CutMode::Middle),
    };
    assert(r@ =~= registry_a(i as int));
    r
}

/// The enzymes of the standard registry whose recognition pattern starts with
/// CA, from entry 22 on.
#[verifier::opaque]
pub open spec fn registry_ca(i: int) -> EnzymeView {
    if i == 0 {
        entry("MfeI"@, seq![C], seq![A, A, T, T, G], CutMode::Middle)
    } else if i == 1 {
        entry("NbBssSI"@, seq![C, A, C, G, A, G], seq![], CutMode::Middle)
    } else if i == 2 {
        entry("PmlI"@, seq![C, A, C], seq![G, T, G], CutMode::Middle)
    } else if i == 3 {
        entry("DraIII"@, seq![C, A, C, N, N, N], seq![G, T, G], CutMode::Middle)
    } else if i == 4 {
        entry("AleI_v2"@, seq![C, A, C, N, N], seq![N, N, G, T, G], CutMode::Middle)
    } else if i == 5 {
        entry("PvuII"@, seq![C, A, G], seq![C, T, G], CutMode::Middle)
    } else if i == 6 {
        entry("AlwNI"@, seq![C, A, G, N, N, N], seq![C, T, G], CutMode::Middle)
    } else if i == 7 {
        entry("NdeI"@, seq![C, A], seq![T, A, T, G], CutMode::Middle)
    } else if i == 8 {
        entry("FatI"@, seq![], seq![C, A, T, G], CutMode::Middle)
    } else if i == 9 {
        entry("CviAII"@, seq![C], seq![A, T, G], CutMode::Middle)
    } else if i == 10 {
        entry("NlaIII"@, seq![C, A, T, G], seq![], CutMode::Middle)
    } else {
        entry("MslI"@, seq![C, A, Y, N, N], seq![N, N, R, T, G], CutMode::Middle)
    }
}

fn registry_ca_at(i: usize) -> (r: RestrictionEnzyme)
    requires
        i < 12,
    ensures
        r@ == registry_ca(i as int),
{
    proof {
        reveal(registry_ca);
    }
    let r = match i {
        0 => RestrictionEnzyme::new("MfeI", &[C], &[A, A, T, T, G], CutMode::Middle),
        1 => RestrictionEnzyme::new("NbBssSI", &[C, A, C, G, A, G], &[], CutMode::Middle),
        2 => RestrictionEnzyme::new("PmlI", &[C, A, C], &[G, T, G], CutMode::Middle),
        3 => RestrictionEnzyme::new("DraIII", &[C, A, C, N, N, N], &[G, T, G], CutMode::Middle),
        4 => RestrictionEnzyme::new("AleI_v2", &[C, A, C, N, N], &[N, N, G, T, G], CutMode::Middle),
        5 => RestrictionEnzyme::new("PvuII", &[C, A, G], &[C, T, G], CutMode::Middle),
        6 => RestrictionEnzyme::new("AlwNI", &[C, A, G, N, N, N], &[C, T, G], CutMode::Middle),
        7 => RestrictionEnzyme::new("NdeI", &[C, A], &[T, A, T, G], CutMode::Middle),
        8 => RestrictionEnzyme::new("FatI", &[], &[C, A, T, G], CutMode::Middle),
        9 => RestrictionEnzyme::new("CviAII", &[C], &[A, T, G], CutMode::Middle),
        10 => RestrictionEnzyme::new("NlaIII", &[C, A, T, G], &[], CutMode::Middle),
        _ => RestrictionEnzyme::new("MslI", &[C, A, Y, N, N], &[N, N, R, T, G], CutMode::Middle),
    };
    assert(r@ =~= registry_ca(i as int));
    r
}

/// The enzymes of the standard registry whose recognition pattern starts with
/// CC, from entry 34 on.
#[verifier::opaque]
pub open spec fn registry_cc(i: int) -> EnzymeView {
    if i == 0 {
        entry("XcmI"@, seq![C, C, A, N, N, N, N, N], seq![N, N, N, N, T, G, G], CutMode::Middle)
    } else if i == 1 {
        entry("BstXI"@, seq![C, C, A, N, N, N, N, N], seq![N, T, G, G], CutMode::Middle)
    } else if i == 2 {
        entry("PflMI"@, seq![C, C, A, N, N, N, N], seq![N, T, G, G], CutMode::Middle)
    } else if i == 3 {
        entry("NcoI"@, seq![C], seq![C, A, T, G, G], CutMode::Middle)
    } else if i == 4 {
        entry("SmaI"@, seq![C, C, C], seq![G, G, G], CutMode::Middle)
    } else if i == 5 {
        entry("TspMI"@, seq![C], seq![C, C, G, G, G], CutMode::Middle)
    } else if i == 6 {
        entry("XmaI"@, seq![C], seq![C, C, G, G, G], CutMode::Middle)
    } else if i == 7 {
        entry("SacII"@, seq![C, C, G, C], seq![G, G], CutMode::Middle)
    } else if i == 8 {
        entry("MspI"@, seq![C], seq![C, G, G], CutMode::Middle)
    } else if i == 9 {
        entry("HpaII"@, seq![C], seq![C, G, G], CutMode::Middle)
    } else if i == 10 {
        entry("StyD4I"@, seq![], seq![C, C, N, G, G], CutMode::Middle)
    } else if i == 11 {
        entry("ScrFI"@, seq![C, C], seq![N, G, G], CutMode::Middle)
    } else if i == 12 {
        entry("BsaJI"@, seq![C], seq![C, N, N, G, G], CutMode::Middle)
    } else if i == 13 {
        entry("BslI"@, seq![C, C, N, N, N, N, N], seq![N, N, G, G], CutMode::Middle)
    } else if i == 14 {
        entry("BtgI"@, seq![C], seq![C, R, Y, G, G], CutMode::Middle)
    } else if i == 15 {
        entry("NciI"@, seq![C, C], seq![S, G, G], CutMode::Middle)
    } else if i == 16 {
        entry("AvrII"@, seq![C], seq![C, T, A, G, G], CutMode::Middle)
    } else if i == 17 {
        entry("NbBbvCI"@, seq![C, C, T, C, A, G, C], seq![], CutMode::Middle)
    } else if i == 18 {
        entry("SbfI"@, seq![C, C, T, G, C, A], seq![G, G], CutMode::Middle)
    } else if i == 19 {
        entry("Bsu36I"@, seq![C, C], seq![T, N, A, G, G], CutMode::Middle)
    } else if i == 20 {
        entry("EcoNI"@, seq![C, C, T, N, N], seq![N, N, N, A, G, G], CutMode::Middle)
    } else if i == 21 {
        entry("PspGI"@, seq![], seq![C, C, W, G, G], CutMode::Middle)
    } else if i == 22 {
        entry("BstNI"@, seq![C, C], seq![W, G, G], CutMode::Middle)
    } else {
        entry("StyI"@, seq![C], seq![C, W, W, G, G], CutMode::Middle)
    }
}

fn registry_cc_at(i: usize) -> (r: RestrictionEnzyme)
    requires
        i < 24,
    ensures
        r@ == registry_cc(i as int),
{
    proof {
        reveal(registry_cc);
    }
    let r = match i {
        0 => RestrictionEnzyme::new("XcmI", &[C, C, A, N, N, N, N, N], &[N, N, N, N, T, G, G], CutMode::Middle),
        1 => RestrictionEnzyme::new("BstXI", &[C, C, A, N, N, N, N, N], &[N, T, G, G], CutMode::Middle),
        2 => RestrictionEnzyme::new("PflMI", &[C, C, A, N, N, N, N], &[N, T, G, G], CutMode::Middle),
        3 => RestrictionEnzyme::new("NcoI", &[C], &[C, A, T, G, G], CutMode::Middle),
        4 => RestrictionEnzyme::new("SmaI", &[C, C, C], &[G, G, G], CutMode::Middle),
        5 => RestrictionEnzyme::new("TspMI", &[C], &[C, C, G, G, G], CutMode::Middle),
        6 => RestrictionEnzyme::new("XmaI", &[C], &[C, C, G, G, G], CutMode::Middle),
        7 => RestrictionEnzyme::new("SacII", &[C, C, G, C], &[G, G], CutMode::Middle),
        8 => RestrictionEnzyme::new("MspI", &[C], &[C, G, G], CutMode::Middle),
        9 => RestrictionEnzyme::new("HpaII", &[C], &[C, G, G], CutMode::Middle),
        10 => RestrictionEnzyme::new("StyD4I", &[], &[C, C, N, G, G], CutMode::Middle),
        11 => RestrictionEnzyme::new("ScrFI", &[C, C], &[N, G, G], CutMode::Middle),
        12 => RestrictionEnzyme::new("BsaJI", &[C], &[C, N, N, G, G], CutMode::Middle),
        13 => RestrictionEnzyme::new("BslI", &[C, C, N, N, N, N, N], &[N, N, G, G], CutMode::Middle),
        14 => RestrictionEnzyme::new("BtgI", &[C], &[C, R, Y, G, G], CutMode::Middle),
        15 => RestrictionEnzyme::new("NciI", &[C, C], &[S, G, G], CutMode::Middle),
        16 => RestrictionEnzyme::new("AvrII", &[C], &[C, T, A, G, G], CutMode::Middle),
        17 => RestrictionEnzyme::new("NbBbvCI", &[C, C, T, C, A, G, C], &[], CutMode::Middle),
        18 => RestrictionEnzyme::new("SbfI", &[C, C, T, G, C, A], &[G, G], CutMode::Middle),
        19 => RestrictionEnzyme::new("Bsu36I", &[C, C], &[T, N, A, G, G], CutMode::Middle),
        20 => RestrictionEnzyme::new("EcoNI", &[C, C, T, N, N], &[N, N, N, A, G, G], CutMode::Middle),
        21 => RestrictionEnzyme::new("PspGI", &[], &[C, C, W, G, G], CutMode::Middle),
        22 => RestrictionEnzyme::new("BstNI", &[C, C], &[W, G, G], CutMode::Middle),
        _ => RestrictionEnzyme::new("StyI", &[C], &[C, W, W, G, G], CutMode::Middle),
    };
    assert(r@ =~= registry_cc(i as int));
    r
}

/// The enzymes of the standard registry whose recognition pattern starts with
/// one of CG, CM, CN, CR, CT, CY, from entry 58 on.
#[verifier::opaque]
pub open spec fn registry_cg_to_cy(i: int) -> EnzymeView {
    if i == 0 {
        entry("PvuI"@, seq![C, G, A, T], seq![C, G], CutMode::Middle)
    } else if i == 1 {
        entry("BstUI"@, seq![C, G], seq![C, G], CutMode::Middle)
    } else if i == 2 {
        entry("EagI"@, seq![C], seq![G, G, C, C, G], CutMode::Middle)
    } else if i == 3 {
        entry("RsrII"@, seq![C, G], seq![G, W, C, C, G], CutMode::Middle)
    } else if i == 4 {
        entry("BsiEI"@, seq![C, G, R, Y], seq![C, G], CutMode::Middle)
    } else if i == 5 {
        entry("BsiWI"@, seq![C], seq![G, T, A, C, G], CutMode::Middle)
    } else if i == 6 {
        entry("BsmBI_v2"@, seq![C, G, T, C, T, C], seq![], CutMode::Middle)
    } else if i == 7 {
        entry("Hpy99I"@, seq![C, G, W, C, G], seq![], CutMode::Middle)
    } else if i == 8 {
        entry("MspA1I"@, seq![C, M, G], seq![C, K, G], CutMode::Middle)
    } else if i == 9 {
        entry("AbaSI"@, seq![C, N, N, N, N, N, N, N, N, N, N, N], seq![N, N, N, N, N, N, N, N, N, G], CutMode::Middle)
    } else if i == 10 {
        entry("SgrAI"@, seq![C, R], seq![C, C, G, G, Y, G], CutMode::Middle)
    } else if i == 11 {
        entry("BfaI"@, seq![C], seq![T, A, G], CutMode::Middle)
    } else if i == 12 {
        entry("XhoI"@, seq![C], seq![T, C, G, A, G], CutMode::Middle)
    } else if i == 13 {
        entry("PaeR7I"@, seq![C], seq![T, C, G, A, G], CutMode::Middle)
    } else if i == 14 {
        entry("PstI"@, seq![C, T, G, C, A], seq![G], CutMode::Middle)
    } else if i == 15 {
        entry("DdeI"@, seq![C], seq![T, N, A, G], CutMode::Middle)
    } else if i == 16 {
        entry("SfcI"@, seq![C], seq![T, R, Y, A, G], CutMode::Middle)
    } else if i == 17 {
        entry("AflII"@, seq![C], seq![T, T, A, A, G], CutMode::Middle)
    } else if i == 18 {
        entry("SmlI"@, seq![C], seq![T, Y, R, A, G], CutMode::Middle)
    } else if i == 19 {
        entry("BsoBI"@, seq![C], seq![Y, C, G, R, G], CutMode::Middle)
    } else {
        entry("AvaI"@, seq![C], seq![Y, C, G, R, G], CutMode::Middle)
    }
}

fn registry_cg_to_cy_at(i: usize) -> (r: RestrictionEnzyme)
    requires
        i < 21,
    ensures
        r@ == registry_cg_to_cy(i as int),
{
    proof {
        reveal(registry_cg_to_cy);
    }
    let r = match i {
        0 => RestrictionEnzyme::new("PvuI", &[C, G, A, T], &[C, G], CutMode::Middle),
        1 => RestrictionEnzyme::new("BstUI", &[C, G], &[C, G], CutMode::Middle),
        2 => RestrictionEnzyme::new("EagI", &[C], &[G, G, C, C, G], CutMode::Middle),
        3 => RestrictionEnzyme::new("RsrII", &[C, G], &[G, W, C, C, G], CutMode::Middle),
        4 => RestrictionEnzyme::new("BsiEI", &[C, G, R, Y], &[C, G], CutMode::Middle),
        5 => RestrictionEnzyme::new("BsiWI", &[C], &[G, T, A, C, G], CutMode::Middle),
        6 => RestrictionEnzyme::new("BsmBI_v2", &[C, G, T, C, T, C], &[], CutMode::Middle),
        7 => RestrictionEnzyme::new("Hpy99I", &[C, G, W, C, G], &[], CutMode::Middle),
        8 => RestrictionEnzyme::new("MspA1I", &[C, M, G], &[C, K, G], CutMode::Middle),
        9 => RestrictionEnzyme::new("AbaSI", &[C, N, N, N, N, N, N, N, N, N, N, N], &[N, N, N, N, N, N, N, N, N, G], CutMode::Middle),
        10 => RestrictionEnzyme::new("SgrAI", &[C, R], &[C, C, G, G, Y, G], CutMode::Middle),
        11 => RestrictionEnzyme::new("BfaI", &[C], &[T, A, G], CutMode::Middle),
        12 => RestrictionEnzyme::new("XhoI", &[C], &[T, C, G, A, G], CutMode::Middle),
        13 => RestrictionEnzyme::new("PaeR7I", &[C], &[T, C, G, A, G], CutMode::Middle),
        14 => RestrictionEnzyme::new("PstI", &[C, T, G, C, A], &[G], CutMode::Middle),
        15 => RestrictionEnzyme::new("DdeI", &[C], &[T, N, A, G], CutMode::Middle),
        16 => RestrictionEnzyme::new("SfcI", &[C], &[T, R, Y, A, G], CutMode::Middle),
        17 => RestrictionEnzyme::new("AflII", &[C], &[T, T, A, A, G], CutMode::Middle),
        18 => RestrictionEnzyme::new("SmlI", &[C], &[T, Y, R, A, G], CutMode::Middle),
        19 => RestrictionEnzyme::new("BsoBI", &[C], &[Y, C, G, R, G], CutMode::Middle),
        _ => RestrictionEnzyme::new("AvaI", &[C], &[Y, C, G, R, G], CutMode::Middle),
    };
    assert(r@ =~= registry_cg_to_cy(i as int));
    r
}

/// The enzymes of the standard registry whose recognition pattern starts with
/// GA, from entry 79 on.
#[verifier::opaque]
pub open spec fn registry_ga(i: int) -> EnzymeView {
    if i == 0 {
        entry("XmnI"@, seq![G, A, A, N, N], seq![N, N, T, T, C], CutMode::Middle)
    } else if i == 1 {
        entry("NbBsmI"@, seq![G, A, A, T, G, C], seq![], CutMode::Middle)
    } else if i == 2 {
        entry("EcoRI"@, seq![G], seq![A, A, T, T, C], CutMode::Middle)
    } else if i == 3 {
        entry("AatII"@, seq![G, A, C, G, T], seq![C], CutMode::Middle)
    } else if i == 4 {
        entry("ZraI"@, seq![G, A, C], seq![G, T, C], CutMode::Middle)
    } else if i == 5 {
        entry("PflFI"@, seq![G, A, C, N], seq![N, N, G, T, C], CutMode::Middle)
    } else if i == 6 {
        entry("Tth111I"@, seq![G, A, C, N], seq![N, N, G, T, C], CutMode::Middle)
    } else if i == 7 {
        entry("PshAI"@, seq![G, A, C, N, N], seq![N, N, G, T, C], CutMode::Middle)
    } else if i == 8 {
        entry("AhdI"@, seq![G, A, C, N, N, N], seq![N, N, G, T, C], CutMode::Middle)
    } else if i == 9 {
        entry("DrdI"@, seq![G, A, C, N, N, N, N], seq![N, N, G, T, C], CutMode::Middle)
    } else if i == 10 {
        entry("Eco53kI"@, seq![G, A, G], seq![C, T, C], CutMode::Middle)
    } else if i == 11 {
        entry("SacI"@, seq![G, A, G, C, T], seq![C], CutMode::Middle)
    } else if i == 12 {
        entry("HinfI"@, seq![G], seq![A, N, T, C], CutMode::Middle)
    } else if i == 13 {
        entry("EcoRV"@, seq![G, A, T], seq![A, T, C], CutMode::Middle)
    } else if i == 14 {
        entry("DpnII"@, seq![], seq![G, A, T, C], CutMode::Middle)
    } else if i == 15 {
        entry("MboI"@, seq![], seq![G, A, T, C], CutMode::Middle)
    } else if i == 16 {
        entry("Sau3AI"@, seq![], seq![G, A, T, C], CutMode::Middle)
    } else if i == 17 {
        entry("DpnI"@, seq![G, A], seq![T, C], CutMode::Middle)
    } else if i == 18 {
        entry("BsaBI"@, seq![G, A, T, N, N], seq![N, N, A, T, C], CutMode::Middle)
    } else {
        entry("TfiI"@, seq![G], seq![A, W, T, C], CutMode::Middle)
    }
}

fn registry_ga_at(i: usize) -> (r: RestrictionEnzyme)
    requires
        i < 20,
    ensures
        r@ == registry_ga(i as int),
{
    proof {
        reveal(registry_ga);
    }
    let r = match i {
        0 => RestrictionEnzyme::new("XmnI", &[G, A, A, N, N], &[N, N, T, T, C], CutMode::Middle),
        1 => RestrictionEnzyme::new("NbBsmI", &[G, A, A, T, G, C], &[], CutMode::Middle),
        2 => RestrictionEnzyme::new("EcoRI", &[G], &[A, A, T, T, C], CutMode::Middle),
        3 => RestrictionEnzyme::new("AatII", &[G, A, C, G, T], &[C], CutMode::Middle),
        4 => RestrictionEnzyme::new("ZraI", &[G, A, C], &[G, T, C], CutMode::Middle),
        5 => RestrictionEnzyme::new("PflFI", &[G, A, C, N], &[N, N, G, T, C], CutMode::Middle),
        6 => RestrictionEnzyme::new("Tth111I", &[G, A, C, N], &[N, N, G, T, C], CutMode::Middle),
        7 => RestrictionEnzyme::new("PshAI", &[G, A, C, N, N], &[N, N, G, T, C], CutMode::Middle),
        8 => RestrictionEnzyme::new("AhdI", &[G, A, C, N, N, N], &[N, N, G, T, C], CutMode::Middle),
        9 => RestrictionEnzyme::new("DrdI", &[G, A, C, N, N, N, N], &[N, N, G, T, C], CutMode::Middle),
        10 => RestrictionEnzyme::new("Eco53kI", &[G, A, G], &[C, T, C], CutMode::Middle),
        11 => RestrictionEnzyme::new("SacI", &[G, A, G, C, T], &[C], CutMode::Middle),
        12 => RestrictionEnzyme::new("HinfI", &[G], &[A, N, T, C], CutMode::Middle),
        13 => RestrictionEnzyme::new("EcoRV", &[G, A, T], &[A, T, C], CutMode::Middle),
        14 => RestrictionEnzyme::new("DpnII", &[], &[G, A, T, C], CutMode::Middle),
        15 => RestrictionEnzyme::new("MboI", &[], &[G, A, T, C], CutMode::Middle),
        16 => RestrictionEnzyme::new("Sau3AI", &[], &[G, A, T, C], CutMode::Middle),
        17 => RestrictionEnzyme::new("DpnI", &[G, A], &[T, C], CutMode::Middle),
        18 => RestrictionEnzyme::new("BsaBI", &[G, A, T, N, N], &[N, N, A, T, C], CutMode::Middle),
        _ => RestrictionEnzyme::new("TfiI", &[G], &[A, W, T, C], CutMode::Middle),
    };
    assert(r@ =~= registry_ga(i as int));
    r
}

/// The enzymes of the standard registry whose recognition pattern starts with
/// one of GC, GD, from entry 99 on.
#[verifier::opaque]
pub open spec fn registry_gc_to_gd(i: int) -> EnzymeView {
    if i == 0 {
        entry("NbBsrDI"@, seq![G, C, A, A, T, G], seq![], CutMode::Middle)
    } else if i == 1 {
        entry("NbBtsI"@, seq![G, C, A, G, T, G], seq![], CutMode::Middle)
    } else if i == 2 {
        entry("BstAPI"@, seq![G, C, A, N, N, N, N], seq![N, T, G, C], CutMode::Middle)
    } else if i == 3 {
        entry("SphI"@, seq![G, C, A, T, G], seq![C], CutMode::Middle)
    } else if i == 4 {
        entry("SrfI"@, seq![G, C, C, C], seq![G, G, G, C], CutMode::Middle)
    } else if i == 5 {
        entry("NgoMIV"@, seq![G], seq![C, C, G, G, C], CutMode::Middle)
    } else if i == 6 {
        entry("NaeI"@, seq![G, C, C], seq![G, G, C], CutMode::Middle)
    } else if i == 7 {
        entry("BglI"@, seq![G, C, C, N, N, N, N], seq![N, G, G, C], CutMode::Middle)
    } else if i == 8 {
        entry("AsiSI"@, seq![G, C, G, A, T], seq![C, G, C], CutMode::Middle)
    } else if i == 9 {
        entry("HhaI"@, seq![G, C, G], seq![C], CutMode::Middle)
    } else if i == 10 {
        entry("HinP1I"@, seq![G], seq![C, G, C], CutMode::Middle)
    } else if i == 11 {
        entry("BssHII"@, seq![G], seq![C, G, C, G, C], CutMode::Middle)
    } else if i == 12 {
        entry("NotI"@, seq![G, C], seq![G, G, C, C, G, C], CutMode::Middle)
    } else if i == 13 {
        entry("Fnu4HI"@, seq![G, C], seq![N, G, C], CutMode::Middle)
    } else if i == 14 {
        entry("Cac8I"@, seq![G, C, N], seq![N, G, C], CutMode::Middle)
    } else if i == 15 {
        entry("MwoI"@, seq![G, C, N, N, N, N, N], seq![N, N, G, C], CutMode::Middle)
    } else if i == 16 {
        entry("BmtI"@, seq![G, C, T, A, G], seq![C], CutMode::Middle)
    } else if i == 17 {
        entry("NheI"@, seq![G], seq![C, T, A, G, C], CutMode::Middle)
    } else if i == 18 {
        entry("BlpI"@, seq![G, C], seq![T, N, A, G, C], CutMode::Middle)
    } else if i == 19 {
        entry("TseI"@, seq![G], seq![C, W, G, C], CutMode::Middle)
    } else if i == 20 {
        entry("ApeKI"@, seq![G], seq![C, W, G, C], CutMode::Middle)
    } else {
        entry("Bsp1286I"@, seq![G, D, G, C, H], seq![C], CutMode::Middle)
    }
}

fn registry_gc_to_gd_at(i: usize) -> (r: RestrictionEnzyme)
    requires
        i < 22,
    ensures
        r@ == registry_gc_to_gd(i as int),
{
    proof {
        reveal(registry_gc_to_gd);
    }
    let r = match i {
        0 => RestrictionEnzyme::new("NbBsrDI", &[G, C, A, A, T, G], &[], CutMode::Middle),
        1 => RestrictionEnzyme::new("NbBtsI", &[G, C, A, G, T, G], &[], CutMode::Middle),
        2 => RestrictionEnzyme::new("BstAPI", &[G, C, A, N, N, N, N], &[N, T, G, C], CutMode::Middle),
        3 => RestrictionEnzyme::new("SphI", &[G, C, A, T, G], &[C], CutMode::Middle),
        4 => RestrictionEnzyme::new("SrfI", &[G, C, C, C], &[G, G, G, C], CutMode::Middle),
        5 => RestrictionEnzyme::new("NgoMIV", &[G], &[C, C, G, G, C], CutMode::Middle),
        6 => RestrictionEnzyme::new("NaeI", &[G, C, C], &[G, G, C], CutMode::Middle),
        7 => RestrictionEnzyme::new("BglI", &[G, C, C, N, N, N, N], &[N, G, G, C], CutMode::Middle),
        8 => RestrictionEnzyme::new("AsiSI", &[G, C, G, A, T], &[C, G, C], CutMode::Middle),
        9 => RestrictionEnzyme::new("HhaI", &[G, C, G], &[C], CutMode::Middle),
        10 => RestrictionEnzyme::new("HinP1I", &[G], &[C, G, C], CutMode::Middle),
        11 => RestrictionEnzyme::new("BssHII", &[G], &[C, G, C, G, C], CutMode::Middle),
        12 => RestrictionEnzyme::new("NotI", &[G, C], &[G, G, C, C, G, C], CutMode::Middle),
        13 => RestrictionEnzyme::new("Fnu4HI", &[G, C], &[N, G, C], CutMode::Middle),
        14 => RestrictionEnzyme::new("Cac8I", &[G, C, N], &[N, G, C], CutMode::Middle),
        15 => RestrictionEnzyme::new("MwoI", &[G, C, N, N, N, N, N], &[N, N, G, C], CutMode::Middle),
        16 => RestrictionEnzyme::new("BmtI", &[G, C, T, A, G], &[C], CutMode::Middle),
        17 => RestrictionEnzyme::new("NheI", &[G], &[C, T, A, G, C], CutMode::Middle),
        18 => RestrictionEnzyme::new("BlpI", &[G, C], &[T, N, A, G, C], CutMode::Middle),
        19 => RestrictionEnzyme::new("TseI", &[G], &[C, W, G, C], CutMode::Middle),
        20 => RestrictionEnzyme::new("ApeKI", &[G], &[C, W, G, C], CutMode::Middle),
        _ => RestrictionEnzyme::new("Bsp1286I", &[G, D, G, C, H], &[C], CutMode::Middle),
    };
    assert(r@ =~= registry_gc_to_gd(i as int));
    r
}

/// The enzymes of the standard registry whose recognition pattern starts with
/// one of GG, GK, GR, from entry 121 on.
#[verifier::opaque]
pub open spec fn registry_gg_to_gr(i: int) -> EnzymeView {
    if i == 0 {
        entry("BamHI"@, seq![G], seq![G, A, T, C, C], CutMode::Middle)
    } else if i == 1 {
        entry("HaeIII"@, seq![G, G], seq![C, C], CutMode::Middle)
    } else if i == 2 {
        entry("FseI"@, seq![G, G, C, C, G, G], seq![C, C], CutMode::Middle)
    } else if i == 3 {
        entry("SfiI"@, seq![G, G, C, C, N, N, N, N], seq![N, G, G, C, C], CutMode::Middle)
    } else if i == 4 {
        entry("NarI"@, seq![G, G], seq![C, G, C, C], CutMode::Middle)
    } else if i == 5 {
        entry("SfoI"@, seq![G, G, C], seq![G, C, C], CutMode::Middle)
    } else if i == 6 {
        entry("KasI"@, seq![G], seq![G, C, G, C, C], CutMode::Middle)
    } else if i == 7 {
        entry("PluTI"@, seq![G, G, C, G, C], seq![C], CutMode::Middle)
    } else if i == 8 {
        entry("AscI"@, seq![G, G], seq![C, G, C, G, C, C], CutMode::Middle)
    } else if i == 9 {
        entry("PspOMI"@, seq![G], seq![G, G, C, C, C], CutMode::Middle)
    } else if i == 10 {
        entry("ApaI"@, seq![G, G, G, C, C], seq![C], CutMode::Middle)
    } else if i == 11 {
        entry("Sau96I"@, seq![G], seq![G, N, C, C], CutMode::Middle)
    } else if i == 12 {
        entry("NlaIV"@, seq![G, G, N], seq![N, C, C], CutMode::Middle)
    } else if i == 13 {
        entry("Acc65I"@, seq![G], seq![G, T, A, C, C], CutMode::Middle)
    } else if i == 14 {
        entry("KpnI"@, seq![G, G, T, A, C], seq![C], CutMode::Middle)
    } else if i == 15 {
        entry("BstEII"@, seq![G], seq![G, T, N, A, C, C], CutMode::Middle)
    } else if i == 16 {
        entry("AvaII"@, seq![G], seq![G, W, C, C], CutMode::Middle)
    } else if i == 17 {
        entry("BanI"@, seq![G], seq![G, Y, R, C, C], CutMode::Middle)
    } else if i == 18 {
        entry("BaeGI"@, seq![G, K, G, C, M], seq![C], CutMode::Middle)
    } else if i == 19 {
        entry("BsaHI"@, seq![G, R], seq![C, G, Y, C], CutMode::Middle)
    } else {
        entry("BanII"@, seq![G, R, G, C, Y], seq![C], CutMode::Middle)
    }
}

fn registry_gg_to_gr_at(i: usize) -> (r: RestrictionEnzyme)
    requires
        i < 21,
    ensures
        r@ == registry_gg_to_gr(i as int),
{
    proof {
        reveal(registry_gg_to_gr);
    }
    let r = match i {
        0 => RestrictionEnzyme::new("BamHI", &[G], &[G, A, T, C, C], CutMode::Middle),
        1 => RestrictionEnzyme::new("HaeIII", &[G, G], &[C, C], CutMode::Middle),
        2 => RestrictionEnzyme::new("FseI", &[G, G, C, C, G, G], &[C, C], CutMode::Middle),
        3 => RestrictionEnzyme::new("SfiI", &[G, G, C, C, N, N, N, N], &[N, G, G, C, C], CutMode::Middle),
        4 => RestrictionEnzyme::new("NarI", &[G, G], &[C, G, C, C], CutMode::Middle),
        5 => RestrictionEnzyme::new("SfoI", &[G, G, C], &[G, C, C], CutMode::Middle),
        6 => RestrictionEnzyme::new("KasI", &[G], &[G, C, G, C, C], CutMode::Middle),
        7 => RestrictionEnzyme::new("PluTI", &[G, G, C, G, C], &[C], CutMode::Middle),
        8 => RestrictionEnzyme::new("AscI", &[G, G], &[C, G, C, G, C, C], CutMode::Middle),
        9 => RestrictionEnzyme::new("PspOMI", &[G], &[G, G, C, C, C], CutMode::Middle),
        10 => RestrictionEnzyme::new("ApaI", &[G, G, G, C, C], &[C], CutMode::Middle),
        11 => RestrictionEnzyme::new("Sau96I", &[G], &[G, N, C, C], CutMode::Middle),
        12 => RestrictionEnzyme::new("NlaIV", &[G, G, N], &[N, C, C], CutMode::Middle),
        13 => RestrictionEnzyme::new("Acc65I", &[G], &[G, T, A, C, C], CutMode::Middle),
        14 => RestrictionEnzyme::new("KpnI", &[G, G, T, A, C], &[C], CutMode::Middle),
        15 => RestrictionEnzyme::new("BstEII", &[G], &[G, T, N, A, C, C], CutMode::Middle),
        16 => RestrictionEnzyme::new("AvaII", &[G], &[G, W, C, C], CutMode::Middle),
        17 => RestrictionEnzyme::new("BanI", &[G], &[G, Y, R, C, C], CutMode::Middle),
        18 => RestrictionEnzyme::new("BaeGI", &[G, K, G, C, M], &[C], CutMode::Middle),
        19 => RestrictionEnzyme::new("BsaHI", &[G, R], &[C, G, Y, C], CutMode::Middle),
        _ => RestrictionEnzyme::new("BanII", &[G, R, G, C, Y], &[C], CutMode::Middle),
    };
    assert(r@ =~= registry_gg_to_gr(i as int));
    r
}

/// The enzymes of the standard registry whose recognition pattern starts with
/// one of GT, GW, from entry 142 on.
#[verifier::opaque]
pub open spec fn registry_gt_to_gw(i: int) -> EnzymeView {
    if i == 0 {
        entry("CviQI"@, seq![G], seq![T, A, C], CutMode::Middle)
    } else if i == 1 {
        entry("RsaI"@, seq![G, T], seq![A, C], CutMode::Middle)
    } else if i == 2 {
        entry("BstZ17I"@, seq![G, T, A, T, A, C], seq![], CutMode::Middle)
    } else if i == 3 {
        entry("SalI"@, seq![G], seq![T, C, G, A, C], CutMode::Middle)
    } else if i == 4 {
        entry("ApaLI"@, seq![G], seq![T, G, C, A, C], CutMode::Middle)
    } else if i == 5 {
        entry("AccI"@, seq![G, T], seq![M, K, A, C], CutMode::Middle)
    } else if i == 6 {
        entry("Hpy166II"@, seq![G, T, N], seq![N, A, C], CutMode::Middle)
    } else if i == 7 {
        entry("Tsp45I"@, seq![], seq![G, T, S, A, C], CutMode::Middle)
    } else if i == 8 {
        entry("HpaI"@, seq![G, T, T], seq![A, A, C], CutMode::Middle)
    } else if i == 9 {
        entry("PmeI"@, seq![G, T, T, T], seq![A, A, A, C], CutMode::Middle)
    } else if i == 10 {
        entry("HincII"@, seq![G, T, Y], seq![R, A, C], CutMode::Middle)
    } else {
        entry("BsiHKAI"@, seq![G, W, G, C, W], seq![C], CutMode::Middle)
    }
}

fn registry_gt_to_gw_at(i: usize) -> (r: RestrictionEnzyme)
    requires
        i < 12,
    ensures
        r@ == registry_gt_to_gw(i as int),
{
    proof {
        reveal(registry_gt_to_gw);
    }
    let r = match i {
        0 => RestrictionEnzyme::new("CviQI", &[G], &[T, A, C], CutMode::Middle),
        1 => RestrictionEnzyme::new("RsaI", &[G, T], &[A, C], CutMode::Middle),
        2 => RestrictionEnzyme::new("BstZ17I", &[G, T, A, T, A, C], &[], CutMode::Middle),
        3 => RestrictionEnzyme::new("SalI", &[G], &[T, C, G, A, C], CutMode::Middle),
        4 => RestrictionEnzyme::new("ApaLI", &[G], &[T, G, C, A, C], CutMode::Middle),
        5 => RestrictionEnzyme::new("AccI", &[G, T], &[M, K, A, C], CutMode::Middle),
        6 => RestrictionEnzyme::new("Hpy166II", &[G, T, N], &[N, A, C], CutMode::Middle),
        7 => RestrictionEnzyme::new("Tsp45I", &[], &[G, T, S, A, C], CutMode::Middle),
        8 => RestrictionEnzyme::new("HpaI", &[G, T, T], &[A, A, C], CutMode::Middle),
        9 => RestrictionEnzyme::new("PmeI", &[G, T, T, T], &[A, A, A, C], CutMode::Middle),
        10 => RestrictionEnzyme::new("HincII", &[G, T, Y], &[R, A, C], CutMode::Middle),
        _ => RestrictionEnzyme::new("BsiHKAI", &[G, W, G, C, W], &[C], CutMode::Middle),
    };
    assert(r@ =~= registry_gt_to_gw(i as int));
    r
}

/// The enzymes of the standard registry whose recognition pattern starts with
/// one of N, R, from entry 154 on.
#[verifier::opaque]
pub open spec fn registry_n_to_r(i: int) -> EnzymeView {
    if i == 0 {
        entry("TspRI"@, seq![N, N, C, A, S, T, G, N, N], seq![], CutMode::Middle)
    } else if i == 1 {
        entry("ApoI_HF"@, seq![R], seq![A, A, T, T, Y], CutMode::Middle)
    } else if i == 2 {
        entry("ApoI"@, seq![R], seq![A, A, T, T, Y], CutMode::Middle)
    } else if i == 3 {
        entry("NspI"@, seq![R, C, A, T, G], seq![Y], CutMode::Middle)
    } else if i == 4 {
        entry("BsrFI_v2"@, seq![R], seq![C, C, G, G, Y], CutMode::Middle)
    } else if i == 5 {
        entry("BstYI"@, seq![R], seq![G, A, T, C, Y], CutMode::Middle)
    } else if i == 6 {
        entry("HaeII"@, seq![R, G, C, G, C], seq![Y], CutMode::Middle)
    } else if i == 7 {
        entry("CviKI_1"@, seq![R, G], seq![C, Y], CutMode::Middle)
    } else if i == 8 {
        entry("EcoO109I"@, seq![R, G], seq![G, N, C, C, Y], CutMode::Middle)
    } else {
        entry("PpuMI"@, seq![R, G], seq![G, W, C, C, Y], CutMode::Middle)
    }
}

fn registry_n_to_r_at(i: usize) -> (r: RestrictionEnzyme)
    requires
        i < 10,
    ensures
        r@ == registry_n_to_r(i as int),
{
    proof {
        reveal(registry_n_to_r);
    }
    let r = match i {
        0 => RestrictionEnzyme::new("TspRI", &[N, N, C, A, S, T, G, N, N], &[], CutMode::Middle),
        1 => RestrictionEnzyme::new("ApoI_HF", &[R], &[A, A, T, T, Y], CutMode::Middle),
        2 => RestrictionEnzyme::new("ApoI", &[R], &[A, A, T, T, Y], CutMode::Middle),
        3 => RestrictionEnzyme::new("NspI", &[R, C, A, T, G], &[Y], CutMode::Middle),
        4 => RestrictionEnzyme::new("BsrFI_v2", &[R], &[C, C, G, G, Y], CutMode::Middle),
        5 => RestrictionEnzyme::new("BstYI", &[R], &[G, A, T, C, Y], CutMode::Middle),
        6 => RestrictionEnzyme::new("HaeII", &[R, G, C, G, C], &[Y], CutMode::Middle),
        7 => RestrictionEnzyme::new("CviKI_1", &[R, G], &[C, Y], CutMode::Middle),
        8 => RestrictionEnzyme::new("EcoO109I", &[R, G], &[G, N, C, C, Y], CutMode::Middle),
        _ => RestrictionEnzyme::new("PpuMI", &[R, G], &[G, W, C, C, Y], CutMode::Middle),
    };
    assert(r@ =~= registry_n_to_r(i as int));
    r
}

/// The enzymes of the standard registry whose recognition pattern starts with
/// one of T, V, W, Y, from entry 164 on.
#[verifier::opaque]
pub open spec fn registry_t_to_y(i: int) -> EnzymeView {
    if i == 0 {
        entry("SnaBI"@, seq![T, A, C], seq![G, T, A], CutMode::Middle)
    } else if i == 1 {
        entry("BspHI"@, seq![T], seq![C, A, T, G, A], CutMode::Middle)
    } else if i == 2 {
        entry("BspEI"@, seq![T], seq![C, C, G, G, A], CutMode::Middle)
    } else if i == 3 {
        entry("TaqI_v2"@, seq![T], seq![C, G, A], CutMode::Middle)
    } else if i == 4 {
        entry("NruI"@, seq![T, C, G], seq![C, G, A], CutMode::Middle)
    } else if i == 5 {
        entry("Hpy188I"@, seq![T, C, N], seq![G, A], CutMode::Middle)
    } else if i == 6 {
        entry("Hpy188III"@, seq![T, C], seq![N, N, G, A], CutMode::Middle)
    } else if i == 7 {
        entry("XbaI"@, seq![T], seq![C, T, A, G, A], CutMode::Middle)
    } else if i == 8 {
        entry("BclI"@, seq![T], seq![G, A, T, C, A], CutMode::Middle)
    } else if i == 9 {
        entry("BclI_HF"@, seq![T], seq![G, A, T, C, A], CutMode::Middle)
    } else if i == 10 {
        entry("HpyCH4V"@, seq![T, G], seq![C, A], CutMode::Middle)
    } else if i == 11 {
        entry("FspI"@, seq![T, G, C], seq![G, C, A], CutMode::Middle)
    } else if i == 12 {
        entry("MscI"@, seq![T, G, G], seq![C, C, A], CutMode::Middle)
    } else if i == 13 {
        entry("BsrGI"@, seq![T], seq![G, T, A, C, A], CutMode::Middle)
    } else if i == 14 {
        entry("MseI"@, seq![T], seq![T, A, A], CutMode::Middle)
    } else if i == 15 {
        entry("PacI"@, seq![T, T, A, A, T], seq![T, A, A], CutMode::Middle)
    } else if i == 16 {
        entry("PsiI_v2"@, seq![T, T, A], seq![T, A, A], CutMode::Middle)
    } else if i == 17 {
        entry("BstBI"@, seq![T, T], seq![C, G, A, A], CutMode::Middle)
    } else if i == 18 {
        entry("DraI"@, seq![T, T, T], seq![A, A, A], CutMode::Middle)
    } else if i == 19 {
        entry("PspXI"@, seq![V, C], seq![T, C, G, A, G, B], CutMode::Middle)
    } else if i == 20 {
        entry("BsaWI"@, seq![W], seq![C, C, G, G, W], CutMode::Middle)
    } else if i == 21 {
        entry("BsaAI"@, seq![Y, A, C], seq![G, T, R], CutMode::Middle)
    } else {
        entry("EaeI"@, seq![Y], seq![G, G, C, C, R], CutMode::Middle)
    }
}

fn registry_t_to_y_at(i: usize) -> (r: RestrictionEnzyme)
    requires
        i < 23,
    ensures
        r@ == registry_t_to_y(i as int),
{
    proof {
        reveal(registry_t_to_y);
    }
    let r = match i {
        0 => RestrictionEnzyme::new("SnaBI", &[T, A, C], &[G, T, A], CutMode::Middle),
        1 => RestrictionEnzyme::new("BspHI", &[T], &[C, A, T, G, A], CutMode::Middle),
        2 => RestrictionEnzyme::new("BspEI", &[T], &[C, C, G, G, A], CutMode::Middle),
        3 => RestrictionEnzyme::new("TaqI_v2", &[T], &[C, G, A], CutMode::Middle),
        4 => RestrictionEnzyme::new("NruI", &[T, C, G], &[C, G, A], CutMode::Middle),
        5 => RestrictionEnzyme::new("Hpy188I", &[T, C, N], &[G, A], CutMode::Middle),
        6 => RestrictionEnzyme::new("Hpy188III", &[T, C], &[N, N, G, A], CutMode::Middle),
        7 => RestrictionEnzyme::new("XbaI", &[T], &[C, T, A, G, A], CutMode::Middle),
        8 => RestrictionEnzyme::new("BclI", &[T], &[G, A, T, C, A], CutMode::Middle),
        9 => RestrictionEnzyme::new("BclI_HF", &[T], &[G, A, T, C, A], CutMode::Middle),
        10 => RestrictionEnzyme::new("HpyCH4V", &[T, G], &[C, A], CutMode::Middle),
        11 => RestrictionEnzyme::new("FspI", &[T, G, C], &[G, C, A], CutMode::Middle),
        12 => RestrictionEnzyme::new("MscI", &[T, G, G], &[C, C, A], CutMode::Middle),
        13 => RestrictionEnzyme::new("BsrGI", &[T], &[G, T, A, C, A], CutMode::Middle),
        14 => RestrictionEnzyme::new("MseI", &[T], &[T, A, A], CutMode::Middle),
        15 => RestrictionEnzyme::new("PacI", &[T, T, A, A, T], &[T, A, A], CutMode::Middle),
        16 => RestrictionEnzyme::new("PsiI_v2", &[T, T, A], &[T, A, A], CutMode::Middle),
        17 => RestrictionEnzyme::new("BstBI", &[T, T], &[C, G, A, A], CutMode::Middle),
        18 => RestrictionEnzyme::new("DraI", &[T, T, T], &[A, A, A], CutMode::Middle),
        19 => RestrictionEnzyme::new("PspXI", &[V, C], &[T, C, G, A, G, B], CutMode::Middle),
        20 => RestrictionEnzyme::new("BsaWI", &[W], &[C, C, G, G, W], CutMode::Middle),
        21 => RestrictionEnzyme::new("BsaAI", &[Y, A, C], &[G, T, R], CutMode::Middle),
        _ => RestrictionEnzyme::new("EaeI", &[Y], &[G, G, C, C, R], CutMode::Middle),
    };
    assert(r@ =~= registry_t_to_y(i as int));
    r
}

} // verus!
