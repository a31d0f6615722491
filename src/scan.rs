use vstd::prelude::*;

use crate::annotation::Annotation;
use crate::enzymes::{views, EnzymeView, RestrictionEnzyme};
use crate::iupac::IupacNucleotide;
use crate::traits::NucleoBase;

verus! {

/// A run of bases read as IUPAC codes.
pub open spec fn iupac_of<B: NucleoBase>(s: Seq<B>) -> Seq<IupacNucleotide> {
    s.map_values(|b: B| b.spec_iupac())
}

/// The window of `codes` that starts at `s` is matched by `pattern`, code by
/// code, the pattern's code being the one that must match.
pub open spec fn window_matches(
    codes: Seq<IupacNucleotide>,
    pattern: Seq<IupacNucleotide>,
    s: int,
) -> bool {
    &&& 0 <= s
    &&& s + pattern.len() <= codes.len()
    &&& forall|i: int| 0 <= i < pattern.len() ==> (#[trigger] pattern[i]).spec_matches(codes[s + i])
}

/// The window starts below `k`, in increasing order, at which a non-empty
/// `pattern` matches `codes`.
pub open spec fn match_starts(
    codes: Seq<IupacNucleotide>,
    pattern: Seq<IupacNucleotide>,
    k: int,
) -> Seq<int>
    decreases k,
{
    if k <= 0 {
        Seq::empty()
    } else {
        let s = k - 1;
        match_starts(codes, pattern, s) + if pattern.len() > 0 && window_matches(codes, pattern, s) {
            seq![s]
        } else {
            Seq::empty()
        }
    }
}

/// The sites of the first `e` enzymes of `enzymes` on `codes`, as pairs of an
/// enzyme's index and a window start: enzyme by enzyme, and within one enzyme
/// from left to right.
pub open spec fn all_sites(
    codes: Seq<IupacNucleotide>,
    enzymes: Seq<EnzymeView>,
    e: int,
) -> Seq<(int, int)>
    decreases e,
{
    if e <= 0 {
        Seq::empty()
    } else {
        all_sites(codes, enzymes, e - 1) + match_starts(
            codes,
            enzymes[e - 1].pattern(),
            codes.len() as int,
        ).map_values(|s: int| (e - 1, s))
    }
}

/// `a` records a site of `enzyme` whose window starts at `s`: `start` is the
/// window's first index, `end` is one past its last (exclusive), and the cut
/// (`needle`) lies the length of `before` past `start`.
pub open spec fn is_site(a: Annotation, enzyme: EnzymeView, s: int) -> bool {
    &&& a.start == s
    &&& a.end == s + enzyme.pattern().len()
    &&& a.needle is Some
    &&& a.needle->0 == s + enzyme.before.len()
    &&& a.text@ == enzyme.name
}

/// `anns` are the annotations of `sites`, one for one and in order.
pub open spec fn records_sites(
    anns: Seq<Annotation>,
    enzymes: Seq<EnzymeView>,
    sites: Seq<(int, int)>,
) -> bool {
    &&& anns.len() == sites.len()
    &&& forall|j: int|
        0 <= j < sites.len() ==> is_site(#[trigger] anns[j], enzymes[sites[j].0], sites[j].1)
}

proof fn lemma_match_starts_in_range(
    codes: Seq<IupacNucleotide>,
    pattern: Seq<IupacNucleotide>,
    k: int,
)
    ensures
        forall|j: int|
            0 <= j < match_starts(codes, pattern, k).len() ==> {
                let s = #[trigger] match_starts(codes, pattern, k)[j];
                &&& 0 <= s < k
                &&& pattern.len() > 0
                &&& window_matches(codes, pattern, s)
            },
    decreases k,
{
    if k > 0 {
        lemma_match_starts_in_range(codes, pattern, k - 1);
        let head = match_starts(codes, pattern, k - 1);
        assert forall|j: int| 0 <= j < match_starts(codes, pattern, k).len() implies {
            let s = #[trigger] match_starts(codes, pattern, k)[j];
            &&& 0 <= s < k
            &&& pattern.len() > 0
            &&& window_matches(codes, pattern, s)
        } by {
            if j < head.len() {
                assert(match_starts(codes, pattern, k)[j] == head[j]);
            }
        }
    }
}

proof fn lemma_all_sites_in_range(
    codes: Seq<IupacNucleotide>,
    enzymes: Seq<EnzymeView>,
    e: int,
)
    requires
        e <= enzymes.len(),
    ensures
        forall|j: int|
            0 <= j < all_sites(codes, enzymes, e).len() ==> {
                let site = #[trigger] all_sites(codes, enzymes, e)[j];
                &&& 0 <= site.0 < e
                &&& 0 <= site.1
                &&& enzymes[site.0].pattern().len() > 0
                &&& site.1 + enzymes[site.0].pattern().len() <= codes.len()
            },
    decreases e,
{
    if e > 0 {
        lemma_all_sites_in_range(codes, enzymes, e - 1);
        lemma_match_starts_in_range(codes, enzymes[e - 1].pattern(), codes.len() as int);
        let head = all_sites(codes, enzymes, e - 1);
        let tail = match_starts(codes, enzymes[e - 1].pattern(), codes.len() as int);
        assert forall|j: int| 0 <= j < all_sites(codes, enzymes, e).len() implies {
            let site = #[trigger] all_sites(codes, enzymes, e)[j];
            &&& 0 <= site.0 < e
            &&& 0 <= site.1
            &&& enzymes[site.0].pattern().len() > 0
            &&& site.1 + enzymes[site.0].pattern().len() <= codes.len()
        } by {
            if j >= head.len() {
                let t = tail[j - head.len()];
                assert(window_matches(codes, enzymes[e - 1].pattern(), t));
            }
        }
    }
}

/// Every annotation of a scan lies within the scanned sequence:
/// `start < end <= length`, with the cut between them (`start <= needle <= end`).
pub proof fn lemma_sites_within_sequence(
    anns: Seq<Annotation>,
    codes: Seq<IupacNucleotide>,
    enzymes: Seq<EnzymeView>,
)
    requires
        records_sites(anns, enzymes, all_sites(codes, enzymes, enzymes.len() as int)),
    ensures
        forall|j: int|
            0 <= j < anns.len() ==> {
                &&& (#[trigger] anns[j]).start < anns[j].end
                &&& anns[j].end <= codes.len()
                &&& anns[j].needle is Some
                &&& anns[j].start <= anns[j].needle->0 <= anns[j].end
            },
{
    let sites = all_sites(codes, enzymes, enzymes.len() as int);
    lemma_all_sites_in_range(codes, enzymes, enzymes.len() as int);
    assert forall|j: int| 0 <= j < anns.len() implies {
        &&& (#[trigger] anns[j]).start < anns[j].end
        &&& anns[j].end <= codes.len()
        &&& anns[j].needle is Some
        &&& anns[j].start <= anns[j].needle->0 <= anns[j].end
    } by {
        let site = sites[j];
        assert(is_site(anns[j], enzymes[site.0], site.1));
    }
}

fn window_matches_at(codes: &Vec<IupacNucleotide>, pattern: &Vec<IupacNucleotide>, s: usize) -> (r:
    bool)
    requires
        s + pattern@.len() <= codes@.len(),
    ensures
        r == window_matches(codes@, pattern@, s as int),
{
    let total = codes.len();
    let mut i: usize = 0;
    while i < pattern.len()
        invariant
            total == codes@.len(),
            s + pattern@.len() <= codes@.len(),
            i <= pattern@.len(),
            forall|j: int| 0 <= j < i ==> (#[trigger] pattern@[j]).spec_matches(codes@[s + j]),
        decreases pattern@.len() - i,
    {
        if !pattern[i].matches(&codes[s + i]) {
            return false;
        }
        i = i + 1;
    }
    true
}

/// The annotations of every recognition site of `enzymes` on `nucleotides`:
/// for each enzyme in order, a window the width of its pattern slides from left
/// to right, and every window that the pattern matches is recorded, the one at
/// the first base included (see `is_site` for the positions). Sites of
/// different enzymes may overlap and are all kept; an enzyme with an empty
/// pattern matches nowhere.
pub fn restriction_sites<B: NucleoBase>(nucleotides: &[B], enzymes: &[RestrictionEnzyme]) -> (r:
    Vec<Annotation>)
    ensures
        records_sites(
            r@,
            views(enzymes@),
            all_sites(iupac_of::<B>(nucleotides@), views(enzymes@), enzymes@.len() as int),
        ),
{
    let n = nucleotides.len();
    let mut codes: Vec<IupacNucleotide> = Vec::new();
    let mut i: usize = 0;
    while i < n
        invariant
            n == nucleotides@.len(),
            i <= n,
            codes@ == iupac_of::<B>(nucleotides@.take(i as int)),
        decreases n - i,
    {
        codes.push(nucleotides[i].to_iupac());
        assert(iupac_of::<B>(nucleotides@.take(i + 1)) =~= iupac_of::<B>(
            nucleotides@.take(i as int),
        ).push(nucleotides@[i as int].spec_iupac()));
        i = i + 1;
    }
    assert(nucleotides@.take(n as int) =~= nucleotides@);
    let ghost all = codes@;
    let ghost es = views(enzymes@);
    let mut r: Vec<Annotation> = Vec::new();
    let mut e: usize = 0;
    while e < enzymes.len()
        invariant
            codes@ == all,
            all.len() == n,
            e <= enzymes@.len(),
            es == views(enzymes@),
            records_sites(r@, es, all_sites(all, es, e as int)),
        decreases enzymes@.len() - e,
    {
        let enzyme = &enzymes[e];
        let pattern = enzyme.pattern();
        let width = pattern.len();
        let before = enzyme.before().len();
        let ghost done = all_sites(all, es, e as int);
        let mut s: usize = 0;
        while s < n
            invariant
                codes@ == all,
                all.len() == n,
                e < enzymes@.len(),
                enzyme@ == es[e as int],
                es == views(enzymes@),
                pattern@ == enzyme@.pattern(),
                width == pattern@.len(),
                before == enzyme@.before.len(),
                done == all_sites(all, es, e as int),
                s <= n,
                records_sites(
                    r@,
                    es,
                    done + match_starts(all, pattern@, s as int).map_values(|x: int| (e as int, x)),
                ),
            decreases n - s,
        {
            let ghost sites = done + match_starts(all, pattern@, s as int).map_values(
                |x: int| (e as int, x),
            );
            if width > 0 && width <= n - s && window_matches_at(&codes, &pattern, s) {
                let a = Annotation::new_from_restriction_enzyme(
                    s,
                    s + width,
                    Some(s + before),
                    enzyme,
                );
                let ghost r_before = r@;
                r.push(a);
                let ghost next = done + match_starts(all, pattern@, s + 1).map_values(
                    |x: int| (e as int, x),
                );
                assert(next =~= sites.push((e as int, s as int)));
                assert(is_site(a, es[e as int], s as int));
                assert(records_sites(r@, es, next)) by {
                    assert forall|j: int| 0 <= j < next.len() implies is_site(
                        #[trigger] r@[j],
                        es[next[j].0],
                        next[j].1,
                    ) by {
                        if j < sites.len() {
                            assert(r@[j] == r_before[j]);
                        }
                    }
                }
            } else {
                let ghost next = done + match_starts(all, pattern@, s + 1).map_values(
                    |x: int| (e as int, x),
                );
                assert(next =~= sites);
            }
            s = s + 1;
        }
        let ghost fin = done + match_starts(all, pattern@, n as int).map_values(
            |x: int| (e as int, x),
        );
        assert(all_sites(all, es, e + 1) =~= fin);
        assert(records_sites(r@, es, fin));
        e = e + 1;
    }
    r
}

} // verus!
