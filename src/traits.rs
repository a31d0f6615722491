use vstd::prelude::*;

use crate::error::CodonParseError;
use crate::iupac::IupacNucleotide;
use crate::text::push_char;

verus! {

/// Upper-case form of an ASCII letter; any other character is left as it is.
pub open spec fn ascii_upper(c: char) -> char {
    if 'a' <= c && c <= 'z' {
        ((c as u32) - 32) as char
    } else {
        c
    }
}

/// A single nucleotide of one alphabet.
pub trait NucleoBase: Sized + Copy {
    /// The canonical, upper-case letter of the base.
    spec fn spec_letter(self) -> char;

    /// The base that a letter stands for, if any.
    spec fn spec_decode(c: char) -> Option<Self>;

    /// The canonical letter of whatever `c` stands for: `c` upper-cased, with the
    /// alphabet's aliases replaced by the letters they stand for.
    spec fn spec_fold(c: char) -> char;

    /// The Watson-Crick partner of the base.
    spec fn spec_complement(self) -> Self;

    /// The base as an IUPAC code.
    spec fn spec_iupac(self) -> IupacNucleotide;

    fn to_letter(&self) -> (c: char)
        ensures
            c == self.spec_letter(),
    ;

    fn try_from_letter(c: char) -> (r: Option<Self>)
        ensures
            r == Self::spec_decode(c),
    ;

    fn complement(&self) -> (r: Self)
        ensures
            r == self.spec_complement(),
    ;

    fn to_iupac(&self) -> (r: IupacNucleotide)
        ensures
            r == self.spec_iupac(),
    ;

    /// The base together with its partner.
    fn base_pair(&self) -> (r: (Self, Self))
        ensures
            r == (*self, self.spec_complement()),
    {
        (*self, self.complement())
    }

    /// Complementing twice gives the base back.
    proof fn lemma_complement_involutive(self)
        ensures
            self.spec_complement().spec_complement() == self,
    ;

    /// The canonical letter decodes to the base itself.
    proof fn lemma_letter_decodes(self)
        ensures
            Self::spec_decode(self.spec_letter()) == Some(self),
    ;

    /// Decoding a letter and writing it back gives the folded letter.
    proof fn lemma_decode_folds(c: char)
        requires
            Self::spec_decode(c) is Some,
        ensures
            Self::spec_decode(c)->0.spec_letter() == Self::spec_fold(c),
    ;
}

/// Every character of `s` decodes to a base of `B`.
pub open spec fn decodable<B: NucleoBase>(s: Seq<char>) -> bool {
    forall|i: int| 0 <= i < s.len() ==> (#[trigger] B::spec_decode(s[i])) is Some
}

/// The bases that the characters of `s` decode to (meaningful where `s` is decodable).
pub open spec fn decoded<B: NucleoBase>(s: Seq<char>) -> Seq<B> {
    s.map_values(|c: char| B::spec_decode(c)->0)
}

/// Position `i` holds the first character of `s` that does not decode.
pub open spec fn fails_at<B: NucleoBase>(s: Seq<char>, i: int) -> bool {
    &&& 0 <= i < s.len()
    &&& decodable::<B>(s.take(i))
    &&& B::spec_decode(s[i]) is None
}

/// The canonical letters of a run of bases.
pub open spec fn letters<B: NucleoBase>(bs: Seq<B>) -> Seq<char> {
    bs.map_values(|b: B| b.spec_letter())
}

/// The Watson-Crick partners of a run of bases, in the same order.
pub open spec fn complements<B: NucleoBase>(bs: Seq<B>) -> Seq<B> {
    bs.map_values(|b: B| b.spec_complement())
}

/// Decoding a valid letter string (what `GeneticSequence::from_str` yields) and
/// writing it back (what `to_nucleotide_string` gives) gives the string
/// upper-cased, with each alias replaced by the letter it stands for.
pub proof fn lemma_letter_string_round_trip<B: NucleoBase>(s: Seq<char>)
    requires
        decodable::<B>(s),
    ensures
        letters::<B>(decoded::<B>(s)) == s.map_values(|c: char| B::spec_fold(c)),
{
    assert forall|i: int| 0 <= i < s.len() implies letters::<B>(decoded::<B>(s))[i] == B::spec_fold(
        s[i],
    ) by {
        B::lemma_decode_folds(s[i]);
    }
    assert(letters::<B>(decoded::<B>(s)) =~= s.map_values(|c: char| B::spec_fold(c)));
}

/// Complementing a run of bases twice gives it back.
pub proof fn lemma_complements_involutive<B: NucleoBase>(bs: Seq<B>)
    ensures
        complements::<B>(complements::<B>(bs)) == bs,
{
    assert forall|i: int| 0 <= i < bs.len() implies complements::<B>(complements::<B>(bs))[i]
        == bs[i] by {
        bs[i].lemma_complement_involutive();
    }
    assert(complements::<B>(complements::<B>(bs)) =~= bs);
}

/// A triplet of nucleotides of one alphabet.
pub trait Codon<B: NucleoBase>: Sized {
    /// The three bases, in order.
    spec fn spec_bases(self) -> (B, B, B);

    fn from_triplet(triplet: (B, B, B)) -> (c: Self)
        ensures
            c.spec_bases() == triplet,
    ;

    fn to_triplet(&self) -> (triplet: (B, B, B))
        ensures
            triplet == self.spec_bases(),
    ;

    fn from_triplet_arr(arr: [B; 3]) -> (c: Self)
        ensures
            c.spec_bases() == (arr@[0], arr@[1], arr@[2]),
    {
        Self::from_triplet((arr[0], arr[1], arr[2]))
    }

    fn to_triplet_arr(&self) -> (arr: [B; 3])
        ensures
            arr@ == seq![self.spec_bases().0, self.spec_bases().1, self.spec_bases().2],
    {
        let t = self.to_triplet();
        let arr = [t.0, t.1, t.2];
        assert(arr@ =~= seq![t.0, t.1, t.2]);
        arr
    }

    /// The codon whose bases are the partners of these, in the same order.
    fn anticodon(&self) -> (c: Self)
        ensures
            c.spec_bases() == (
                self.spec_bases().0.spec_complement(),
                self.spec_bases().1.spec_complement(),
                self.spec_bases().2.spec_complement(),
            ),
    {
        let t = self.to_triplet();
        Self::from_triplet((t.0.complement(), t.1.complement(), t.2.complement()))
    }

    /// Reads a codon from exactly three letters.
    fn parse(s: &str) -> (r: Result<Self, CodonParseError>)
        ensures
            match r {
                Ok(c) => {
                    &&& s@.len() == 3
                    &&& decodable::<B>(s@)
                    &&& c.spec_bases() == (
                        decoded::<B>(s@)[0],
                        decoded::<B>(s@)[1],
                        decoded::<B>(s@)[2],
                    )
                },
                Err(CodonParseError::InvalidLength(n)) => s@.len() != 3 && n == s@.len(),
                Err(CodonParseError::InvalidChar(ch)) => {
                    &&& s@.len() == 3
                    &&& exists|i: int| fails_at::<B>(s@, i) && ch == s@[i]
                },
            },
    {
        let n = s.unicode_len();
        if n != 3 {
            return Err(CodonParseError::InvalidLength(n));
        }
        let c0 = s.get_char(0);
        let c1 = s.get_char(1);
        let c2 = s.get_char(2);
        let b0 = match B::try_from_letter(c0) {
            Some(b) => b,
            None => {
                assert(fails_at::<B>(s@, 0));
                return Err(CodonParseError::InvalidChar(c0));
            },
        };
        let b1 = match B::try_from_letter(c1) {
            Some(b) => b,
            None => {
                assert(fails_at::<B>(s@, 1));
                return Err(CodonParseError::InvalidChar(c1));
            },
        };
        let b2 = match B::try_from_letter(c2) {
            Some(b) => b,
            None => {
                assert(fails_at::<B>(s@, 2));
                return Err(CodonParseError::InvalidChar(c2));
            },
        };
        assert(decodable::<B>(s@));
        Ok(Self::from_triplet((b0, b1, b2)))
    }

    /// Reads a codon from exactly three letters; `None` where `parse` fails.
    fn try_from_str(s: &str) -> (r: Option<Self>)
        ensures
            r is Some <==> (s@.len() == 3 && decodable::<B>(s@)),
            r is Some ==> r->0.spec_bases() == (
                decoded::<B>(s@)[0],
                decoded::<B>(s@)[1],
                decoded::<B>(s@)[2],
            ),
    {
        match Self::parse(s) {
            Ok(c) => Some(c),
            Err(_) => None,
        }
    }

    /// The three canonical letters.
    fn to_string(&self) -> (r: String)
        ensures
            r@ == seq![
                self.spec_bases().0.spec_letter(),
                self.spec_bases().1.spec_letter(),
                self.spec_bases().2.spec_letter(),
            ],
    {
        let t = self.to_triplet();
        let mut r = String::new();
        push_char(&mut r, t.0.to_letter());
        push_char(&mut r, t.1.to_letter());
        push_char(&mut r, t.2.to_letter());
        assert(r@ =~= seq![t.0.spec_letter(), t.1.spec_letter(), t.2.spec_letter()]);
        r
    }
}

} // verus!
