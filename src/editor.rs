use vstd::prelude::*;

use std::collections::VecDeque;

use crate::dna::{DnaCodon, DnaNucleotide};
use crate::eaa::genetic_code;
use crate::iupac::IupacNucleotide;
use crate::text::push_char;
use crate::traits::{complements, decodable, decoded, letters, Codon, NucleoBase};

verus! {

/// How to move the cursor of an edited sequence.
#[derive(Debug, Clone, Copy, PartialEq, Eq)]
pub enum CursorMovement {
    /// To a position, if it lies within the sequence.
    To(usize),
    /// By a signed distance, stopping at either end.
    By(isize),
    Start,
    End,
    /// Back to the start of the codon, or of the previous one when already there.
    CodonStart,
    /// Forward to the start of the next codon, stopping at the end.
    CodonEnd,
}

/// How to change the selection of an edited sequence.
#[derive(Debug, Clone, Copy, PartialEq, Eq)]
pub enum SelectionMovement {
    /// Select between two positions, in either order; the cursor goes to `end`.
    SetRange { start: usize, end: usize },
    /// Grow the selection, or start one at the cursor, by a signed distance.
    ExpandBy(isize),
    Reset,
    All,
}

/// A selected range `start..end`.
#[derive(Debug, Clone, Copy, PartialEq, Eq)]
pub struct Selection {
    pub start: usize,
    pub end: usize,
}

pub open spec fn min_int(a: int, b: int) -> int {
    if a <= b {
        a
    } else {
        b
    }
}

pub open spec fn max_int(a: int, b: int) -> int {
    if a >= b {
        a
    } else {
        b
    }
}

/// The magnitude of a signed distance.
pub open spec fn magnitude(d: isize) -> int {
    if d < 0 {
        -(d as int)
    } else {
        d as int
    }
}

fn abs_distance(d: isize) -> (r: usize)
    ensures
        r == magnitude(d),
{
    if d < 0 {
        ((-(d + 1)) as usize) + 1
    } else {
        d as usize
    }
}

/// The selection `start..end` with both ends brought within `len`.
pub open spec fn clamp(start: int, end: int, len: int) -> Selection {
    Selection { start: min_int(start, len) as usize, end: min_int(end, len) as usize }
}

/// Where the cursor stands after `m`, on a sequence of `len` bases.
pub open spec fn moved_cursor(cursor: int, len: int, m: CursorMovement) -> int {
    match m {
        CursorMovement::To(i) => if i <= len {
            i as int
        } else {
            cursor
        },
        CursorMovement::By(d) => if d < 0 {
            max_int(cursor - magnitude(d), 0)
        } else {
            min_int(cursor + magnitude(d), len)
        },
        CursorMovement::Start => 0,
        CursorMovement::End => len,
        CursorMovement::CodonStart => max_int(
            cursor - (if cursor % 3 == 0 {
                3
            } else {
                cursor % 3
            }),
            0,
        ),
        CursorMovement::CodonEnd => min_int(cursor + (3 - cursor % 3), len),
    }
}

/// The selection and the cursor after `m`, on a sequence of `len` bases.
pub open spec fn moved_selection(
    sel: Option<Selection>,
    cursor: int,
    len: int,
    m: SelectionMovement,
) -> (Option<Selection>, int) {
    match m {
        SelectionMovement::Reset => (None, cursor),
        SelectionMovement::All => (Some(Selection { start: 0, end: len as usize }), cursor),
        SelectionMovement::SetRange { start, end } => (
            if start < end {
                Some(clamp(start as int, end as int, len))
            } else if start == end {
                None
            } else {
                Some(clamp(end as int, start as int, len))
            },
            if end <= len {
                end as int
            } else {
                cursor
            },
        ),
        SelectionMovement::ExpandBy(d) => match sel {
            Some(s) => if d < 0 {
                let start = max_int(s.start - magnitude(d), 0);
                (Some(clamp(start, s.end as int, len)), start)
            } else {
                let end = min_int(s.end + magnitude(d), len);
                (Some(clamp(s.start as int, end, len)), end)
            },
            None => if d < 0 {
                let start = min_int(max_int(cursor - magnitude(d), 0), len);
                (Some(clamp(start, cursor, len)), start)
            } else {
                let end = min_int(cursor + magnitude(d), len);
                (Some(clamp(cursor, end, len)), end)
            },
        },
    }
}

impl Selection {
    /// The selection with both ends brought within `max_len`.
    pub fn clamped(self, max_len: usize) -> (r: Self)
        ensures
            r == clamp(self.start as int, self.end as int, max_len as int),
    {
        let start = if self.start < max_len { self.start } else { max_len };
        let end = if self.end < max_len { self.end } else { max_len };
        Selection { start, end }
    }
}

/// The amino-acid letter that up to three IUPAC codes show: present when there
/// are three and each stands for one DNA base alone.
pub open spec fn peptide_of(chunk: Seq<IupacNucleotide>) -> Option<char> {
    let text = letters::<IupacNucleotide>(chunk);
    if chunk.len() == 3 && decodable::<DnaNucleotide>(text) {
        let d = decoded::<DnaNucleotide>(text);
        Some(
            genetic_code(d[0].spec_to_rna(), d[1].spec_to_rna(), d[2].spec_to_rna()).spec_letter(),
        )
    } else {
        None
    }
}

/// What the editor shows of one codon: its letters, its partners' letters, and
/// the amino acid where it is a complete, unambiguous codon.
#[derive(Debug, Clone, PartialEq, Eq)]
pub struct DisplayCodon {
    pub nucleotides: Vec<char>,
    pub anti_nucleotides: Vec<char>,
    pub peptide: Option<char>,
}

impl DisplayCodon {
    /// `self` shows the codes of `chunk`.
    pub open spec fn shows(&self, chunk: Seq<IupacNucleotide>) -> bool {
        &&& self.nucleotides@ == letters::<IupacNucleotide>(chunk)
        &&& self.anti_nucleotides@ == letters::<IupacNucleotide>(complements::<IupacNucleotide>(chunk))
        &&& self.peptide == peptide_of(chunk)
    }

    pub fn new(nucleotide_sequence: &[IupacNucleotide]) -> (r: Self)
        ensures
            r.shows(nucleotide_sequence@),
    {
        let ghost chunk = nucleotide_sequence@;
        let mut nucleotides: Vec<char> = Vec::new();
        let mut anti_nucleotides: Vec<char> = Vec::new();
        let mut text = String::new();
        let mut i: usize = 0;
        while i < nucleotide_sequence.len()
            invariant
                chunk == nucleotide_sequence@,
                i <= chunk.len(),
                nucleotides@ == letters::<IupacNucleotide>(chunk.take(i as int)),
                text@ == letters::<IupacNucleotide>(chunk.take(i as int)),
                anti_nucleotides@ == letters::<IupacNucleotide>(
                    complements::<IupacNucleotide>(chunk.take(i as int)),
                ),
            decreases chunk.len() - i,
        {
            let n = nucleotide_sequence[i];
            let letter = n.to_letter();
            nucleotides.push(letter);
            push_char(&mut text, letter);
            anti_nucleotides.push(n.complement().to_letter());
            assert(chunk.take(i + 1) =~= chunk.take(i as int).push(n));
            assert(letters::<IupacNucleotide>(chunk.take(i + 1)) =~= letters::<IupacNucleotide>(
                chunk.take(i as int),
            ).push(letter));
            assert(complements::<IupacNucleotide>(chunk.take(i + 1)) =~= complements::<
                IupacNucleotide,
            >(chunk.take(i as int)).push(n.spec_complement()));
            assert(letters::<IupacNucleotide>(complements::<IupacNucleotide>(chunk.take(i + 1)))
                =~= letters::<IupacNucleotide>(
                complements::<IupacNucleotide>(chunk.take(i as int)),
            ).push(n.spec_complement().spec_letter()));
            i = i + 1;
        }
        assert(chunk.take(i as int) =~= chunk);
        let peptide = if nucleotide_sequence.len() == 3 {
            match DnaCodon::try_from_str(text.as_str()) {
                Some(codon) => Some(codon.translate().to_letter()),
                None => None,
            }
        } else {
            None
        };
        DisplayCodon { nucleotides, anti_nucleotides, peptide }
    }
}

/// One laid-out codon as the editor's view receives it, with the range of
/// positions it covers.
#[derive(Debug, Clone, PartialEq, Eq)]
pub struct SequenceItem {
    pub codon: Vec<char>,
    pub anticodon: Vec<char>,
    pub peptide: Option<char>,
    pub start_index: usize,
    pub end_index: usize,
}

/// Where the cursor stands.
#[derive(Debug, Clone, Copy, PartialEq, Eq)]
pub struct CursorData {
    pub position: usize,
    pub is_at_end: bool,
}

/// The selected range.
#[derive(Debug, Clone, Copy, PartialEq, Eq)]
pub struct SelectionData {
    pub start: usize,
    pub end: usize,
}

impl From<&Selection> for SelectionData {
    fn from(selection: &Selection) -> (r: Self) {
        SelectionData { start: selection.start, end: selection.end }
    }
}

impl vstd::std_specs::convert::FromSpecImpl<&Selection> for SelectionData {
    open spec fn obeys_from_spec() -> bool {
        true
    }

    open spec fn from_spec(selection: &Selection) -> Self {
        SelectionData { start: selection.start, end: selection.end }
    }
}

/// What the editor's view receives: the codon layout when it was laid out anew,
/// the number of bases, the cursor and the selection.
#[derive(Debug, Clone, PartialEq, Eq)]
pub struct SequenceData {
    pub sequence: Option<Vec<SequenceItem>>,
    pub bp_count: usize,
    pub cursor: CursorData,
    pub selection: Option<SelectionData>,
}

/// `item` carries what `codon`, the `i`-th codon of the layout, shows.
pub open spec fn carries(item: SequenceItem, codon: DisplayCodon, i: int) -> bool {
    &&& item.codon@ == codon.nucleotides@
    &&& item.anticodon@ == codon.anti_nucleotides@
    &&& item.peptide == codon.peptide
    &&& item.start_index == 3 * i
    &&& item.end_index == 3 * i + codon.nucleotides@.len()
}

/// `codons` is the display layout of `codes`: one codon per three codes from the
/// first, and a last, shorter one for the one or two codes left over.
pub open spec fn lays_out(codons: Seq<DisplayCodon>, codes: Seq<IupacNucleotide>) -> bool {
    &&& codons.len() == (codes.len() + 2) / 3
    &&& forall|i: int|
        0 <= i < codons.len() ==> (#[trigger] codons[i]).shows(
            codes.subrange(3 * i, min_int(3 * i + 3, codes.len() as int)),
        )
}

/// `items` carry the codons of a layout, one for one.
pub open spec fn carries_all(items: Seq<SequenceItem>, codons: Seq<DisplayCodon>) -> bool {
    &&& items.len() == codons.len()
    &&& forall|i: int| 0 <= i < items.len() ==> carries(#[trigger] items[i], codons[i], i)
}

/// The state of an edited IUPAC sequence: the codes, a cursor between them, an
/// optional selection, and the codons last laid out for display.
pub struct SequenceState {
    pub sequence_dirty: bool,
    pub cursor_pos: usize,
    pub sequence: VecDeque<IupacNucleotide>,
    pub codons: Vec<DisplayCodon>,
    pub selection: Option<Selection>,
}

impl Default for SequenceState {
    fn default() -> (r: Self)
        ensures
            r.sequence@ == Seq::<IupacNucleotide>::empty(),
            r.cursor_pos == 0,
            r.selection is None,
            r.codons@ == Seq::<DisplayCodon>::empty(),
            !r.sequence_dirty,
    {
        SequenceState {
            sequence_dirty: false,
            cursor_pos: 0,
            sequence: VecDeque::new(),
            codons: Vec::new(),
            selection: None,
        }
    }
}

impl SequenceState {
    /// The cursor and the selection lie within the sequence, and the selection
    /// runs forward.
    pub open spec fn wf(&self) -> bool {
        &&& self.cursor_pos <= self.sequence@.len()
        &&& match self.selection {
            Some(s) => s.start <= s.end <= self.sequence@.len(),
            None => true,
        }
    }

    /// The codes left once the selected ones are cut out, and where the cursor
    /// then stands.
    pub open spec fn without_selection(&self) -> (Seq<IupacNucleotide>, int) {
        match self.selection {
            Some(s) => (
                self.sequence@.take(s.start as int) + self.sequence@.skip(s.end as int),
                s.start as int,
            ),
            None => (self.sequence@, self.cursor_pos as int),
        }
    }

    fn inner_delete_selection_content(&mut self)
        requires
            old(self).wf(),
        ensures
            final(self).sequence@ == old(self).without_selection().0,
            final(self).cursor_pos == old(self).without_selection().1,
            final(self).selection is None,
            final(self).sequence_dirty == (old(self).sequence_dirty || old(self).selection is Some),
            final(self).codons == old(self).codons,
            final(self).wf(),
    {
        match self.selection {
            Some(selection) => {
                let mut tail = self.sequence.split_off(selection.end);
                self.sequence.truncate(selection.start);
                self.sequence.append(&mut tail);
                self.cursor_pos = selection.start;
                self.sequence_dirty = true;
                self.selection = None;
            },
            None => {},
        }
    }

    fn inner_move_cursor(&mut self, movement: CursorMovement)
        requires
            old(self).wf(),
        ensures
            final(self).cursor_pos == moved_cursor(
                old(self).cursor_pos as int,
                old(self).sequence@.len() as int,
                movement,
            ),
            final(self).sequence == old(self).sequence,
            final(self).selection == old(self).selection,
            final(self).sequence_dirty == old(self).sequence_dirty,
            final(self).codons == old(self).codons,
            final(self).cursor_pos <= final(self).sequence@.len(),
    {
        let len = self.sequence.len();
        let cursor = self.cursor_pos;
        match movement {
            CursorMovement::To(index) => {
                if index <= len {
                    self.cursor_pos = index;
                }
            },
            CursorMovement::By(distance) => {
                let d = abs_distance(distance);
                if distance < 0 {
                    self.cursor_pos = if cursor >= d { cursor - d } else { 0 };
                } else {
                    self.cursor_pos = if len - cursor >= d { cursor + d } else { len };
                }
            },
            CursorMovement::Start => {
                self.cursor_pos = 0;
            },
            CursorMovement::End => {
                self.cursor_pos = len;
            },
            CursorMovement::CodonStart => {
                let distance = if cursor % 3 == 0 { 3 } else { cursor % 3 };
                self.cursor_pos = if cursor >= distance { cursor - distance } else { 0 };
            },
            CursorMovement::CodonEnd => {
                let step = 3 - cursor % 3;
                self.cursor_pos = if len - cursor >= step { cursor + step } else { len };
            },
        }
    }

    /// Moves the cursor and drops the selection.
    pub fn move_cursor(&mut self, movement: CursorMovement)
        requires
            old(self).wf(),
        ensures
            final(self).cursor_pos == moved_cursor(
                old(self).cursor_pos as int,
                old(self).sequence@.len() as int,
                movement,
            ),
            final(self).selection is None,
            final(self).sequence == old(self).sequence,
            final(self).sequence_dirty == old(self).sequence_dirty,
            final(self).codons == old(self).codons,
            final(self).wf(),
    {
        self.inner_move_cursor(movement);
        self.selection = None;
    }

    /// Replaces the selection, if any, by the base that `letter` stands for and
    /// puts the cursor after it. A letter that is no IUPAC code inserts nothing
    /// (the selection is still cut out).
    pub fn insert(&mut self, letter: char)
        requires
            old(self).wf(),
        ensures
            ({
                let (base, at) = old(self).without_selection();
                match IupacNucleotide::spec_decode(letter) {
                    Some(n) => {
                        &&& final(self).sequence@ == base.insert(at, n)
                        &&& final(self).cursor_pos == at + 1
                        &&& final(self).sequence_dirty
                    },
                    None => {
                        &&& final(self).sequence@ == base
                        &&& final(self).cursor_pos == at
                        &&& final(self).sequence_dirty == (old(self).sequence_dirty
                            || old(self).selection is Some)
                    },
                }
            }),
            final(self).selection is None,
            final(self).codons == old(self).codons,
            final(self).wf(),
    {
        self.inner_delete_selection_content();
        match IupacNucleotide::try_from_letter(letter) {
            Some(nucleotide) => {
                self.sequence.insert(self.cursor_pos, nucleotide);
                self.move_cursor(CursorMovement::By(1));
                self.sequence_dirty = true;
            },
            None => {},
        }
    }

    /// Replaces the selection, if any, by the bases that `text` spells and puts
    /// the cursor after them. Where a character of `text` is no IUPAC code,
    /// nothing is inserted (the selection is still cut out).
    pub fn insert_all(&mut self, text: String)
        requires
            old(self).wf(),
        ensures
            ({
                let (base, at) = old(self).without_selection();
                if decodable::<IupacNucleotide>(text@) {
                    &&& final(self).sequence@ == base.take(at) + decoded::<IupacNucleotide>(text@)
                        + base.skip(at)
                    &&& final(self).cursor_pos == at + text@.len()
                    &&& final(self).sequence_dirty
                } else {
                    &&& final(self).sequence@ == base
                    &&& final(self).cursor_pos == at
                    &&& final(self).sequence_dirty == (old(self).sequence_dirty
                        || old(self).selection is Some)
                }
            }),
            final(self).selection is None,
            final(self).codons == old(self).codons,
            final(self).wf(),
    {
        self.inner_delete_selection_content();
        let ghost cleared = self.sequence@;
        let mut nucleotides: Vec<IupacNucleotide> = Vec::new();
        let mut valid = true;
        broadcast use vstd::string::axiom_spec_iter;

        for c in it: text.as_str().chars()
            invariant
                it.seq() == text@,
                self.sequence@ == cleared,
                self.selection is None,
                self.wf(),
                self.codons == old(self).codons,
                self.cursor_pos == old(self).without_selection().1,
                self.sequence_dirty == (old(self).sequence_dirty || old(self).selection is Some),
                valid ==> decodable::<IupacNucleotide>(text@.take(it.index())),
                valid ==> nucleotides@ == decoded::<IupacNucleotide>(text@.take(it.index())),
                !valid ==> !decodable::<IupacNucleotide>(text@),
        {
            let ghost i = it.index();
            match IupacNucleotide::try_from_letter(c) {
                Some(n) => {
                    if valid {
                        nucleotides.push(n);
                        assert(text@.take(i + 1) =~= text@.take(i).push(c));
                        assert(decoded::<IupacNucleotide>(text@.take(i + 1)) =~= decoded::<
                            IupacNucleotide,
                        >(text@.take(i)).push(n));
                    }
                },
                None => {
                    valid = false;
                },
            }
        }
        if valid {
            assert(text@.take(text@.len() as int) =~= text@);
            let at = self.cursor_pos;
            let ghost base = self.sequence@;
            let mut tail = self.sequence.split_off(at);
            let mut k: usize = 0;
            while k < nucleotides.len()
                invariant
                    k <= nucleotides@.len(),
                    self.sequence@ == base.take(at as int) + nucleotides@.take(k as int),
                    self.cursor_pos == at,
                    self.selection is None,
                    at <= base.len(),
                    self.codons == old(self).codons,
                decreases nucleotides@.len() - k,
            {
                self.sequence.push_back(nucleotides[k]);
                assert(nucleotides@.take(k + 1) =~= nucleotides@.take(k as int).push(
                    nucleotides@[k as int],
                ));
                k = k + 1;
            }
            self.sequence.append(&mut tail);
            assert(nucleotides@.take(k as int) =~= nucleotides@);
            assert(self.sequence@ =~= base.take(at as int) + nucleotides@ + base.skip(at as int));
            let new_len = self.sequence.len();
            assert(at + nucleotides.len() <= new_len);
            self.move_cursor(CursorMovement::To(at + nucleotides.len()));
            self.sequence_dirty = true;
        }
    }

    /// Deletes the selection where there is one; otherwise the base before the
    /// cursor, if any, and the cursor steps back over it.
    pub fn delete(&mut self)
        requires
            old(self).wf(),
        ensures
            old(self).selection is Some ==> {
                &&& final(self).sequence@ == old(self).without_selection().0
                &&& final(self).cursor_pos == old(self).without_selection().1
                &&& final(self).sequence_dirty
            },
            old(self).selection is None && old(self).cursor_pos > 0 ==> {
                &&& final(self).sequence@ == old(self).sequence@.remove(old(self).cursor_pos - 1)
                &&& final(self).cursor_pos == old(self).cursor_pos - 1
                &&& final(self).sequence_dirty
            },
            old(self).selection is None && old(self).cursor_pos == 0 ==> {
                &&& final(self).sequence@ == old(self).sequence@
                &&& final(self).cursor_pos == 0
                &&& final(self).sequence_dirty == old(self).sequence_dirty
            },
            final(self).selection is None,
            final(self).codons == old(self).codons,
            final(self).wf(),
    {
        match self.selection {
            Some(_) => {
                self.inner_delete_selection_content();
            },
            None => {
                if self.cursor_pos > 0 {
                    self.sequence.remove(self.cursor_pos - 1);
                    self.cursor_pos = self.cursor_pos - 1;
                    self.sequence_dirty = true;
                }
            },
        }
    }

    /// Deletes the selection where there is one; otherwise the base after the
    /// cursor, if any. The cursor stays where the deletion began.
    pub fn delete_next(&mut self)
        requires
            old(self).wf(),
        ensures
            old(self).selection is Some ==> {
                &&& final(self).sequence@ == old(self).without_selection().0
                &&& final(self).cursor_pos == old(self).without_selection().1
            },
            old(self).selection is None ==> {
                &&& final(self).sequence@ == if old(self).cursor_pos < old(self).sequence@.len() {
                    old(self).sequence@.remove(old(self).cursor_pos as int)
                } else {
                    old(self).sequence@
                }
                &&& final(self).cursor_pos == old(self).cursor_pos
            },
            final(self).sequence_dirty,
            final(self).selection is None,
            final(self).codons == old(self).codons,
            final(self).wf(),
    {
        match self.selection {
            Some(_) => {
                self.inner_delete_selection_content();
            },
            None => {
                if self.cursor_pos < self.sequence.len() {
                    self.sequence.remove(self.cursor_pos);
                }
            },
        }
        self.sequence_dirty = true;
    }

    /// Changes the selection and moves the cursor along with it (see
    /// `moved_selection`). The selection always ends up within the sequence.
    pub fn move_selection(&mut self, movement: SelectionMovement)
        requires
            old(self).wf(),
        ensures
            (final(self).selection, final(self).cursor_pos as int) == moved_selection(
                old(self).selection,
                old(self).cursor_pos as int,
                old(self).sequence@.len() as int,
                movement,
            ),
            final(self).sequence == old(self).sequence,
            final(self).sequence_dirty == old(self).sequence_dirty,
            final(self).codons == old(self).codons,
            final(self).wf(),
    {
        let len = self.sequence.len();
        match movement {
            SelectionMovement::Reset => {
                self.selection = None;
            },
            SelectionMovement::SetRange { start, end } => {
                if start < end {
                    self.selection = Some(Selection { start, end }.clamped(len));
                } else if start == end {
                    self.selection = None;
                } else {
                    self.selection = Some(Selection { start: end, end: start }.clamped(len));
                }
                self.inner_move_cursor(CursorMovement::To(end));
            },
            SelectionMovement::All => {
                self.selection = Some(Selection { start: 0, end: len });
            },
            SelectionMovement::ExpandBy(distance) => {
                let d = abs_distance(distance);
                match self.selection {
                    Some(selection) => {
                        if distance < 0 {
                            let start = if selection.start >= d { selection.start - d } else { 0 };
                            self.selection = Some(
                                Selection { start, end: selection.end }.clamped(len),
                            );
                            self.inner_move_cursor(CursorMovement::To(start));
                        } else {
                            let end = if len - selection.end >= d { selection.end + d } else { len };
                            self.selection = Some(
                                Selection { start: selection.start, end }.clamped(len),
                            );
                            self.inner_move_cursor(CursorMovement::To(end));
                        }
                    },
                    None => {
                        let cursor = self.cursor_pos;
                        if distance < 0 {
                            let start = if cursor >= d { cursor - d } else { 0 };
                            self.selection = Some(Selection { start, end: cursor }.clamped(len));
                            self.inner_move_cursor(CursorMovement::To(start));
                        } else {
                            let end = if len - cursor >= d { cursor + d } else { len };
                            self.selection = Some(Selection { start: cursor, end }.clamped(len));
                            self.inner_move_cursor(CursorMovement::To(end));
                        }
                    },
                }
            },
        }
    }

    /// Lays the sequence out in codons for display: one per three codes from the
    /// first, and a last, shorter one for the one or two codes left over.
    pub fn update(&mut self)
        ensures
            lays_out(final(self).codons@, old(self).sequence@),
            !final(self).sequence_dirty,
            final(self).sequence == old(self).sequence,
            final(self).cursor_pos == old(self).cursor_pos,
            final(self).selection == old(self).selection,
    {
        let n = self.sequence.len();
        let ghost codes = self.sequence@;
        let mut display_codons: Vec<DisplayCodon> = Vec::new();
        let mut j: usize = 0;
        while j < n
            invariant
                n == codes.len(),
                self.sequence@ == codes,
                j <= n,
                j == min_int(3 * display_codons@.len() as int, n as int),
                3 * display_codons@.len() < n + 3,
                forall|i: int|
                    0 <= i < display_codons@.len() ==> (#[trigger] display_codons@[i]).shows(
                        codes.subrange(3 * i, min_int(3 * i + 3, n as int)),
                    ),
            decreases n - j,
        {
            let end = if n - j >= 3 { j + 3 } else { n };
            let mut chunk: Vec<IupacNucleotide> = Vec::new();
            let mut k: usize = j;
            while k < end
                invariant
                    j <= k <= end,
                    end <= n,
                    n == codes.len(),
                    self.sequence@ == codes,
                    chunk@ == codes.subrange(j as int, k as int),
                decreases end - k,
            {
                chunk.push(self.sequence[k]);
                assert(codes.subrange(j as int, k + 1) =~= codes.subrange(j as int, k as int).push(
                    codes[k as int],
                ));
                k = k + 1;
            }
            display_codons.push(DisplayCodon::new(chunk.as_slice()));
            j = end;
        }
        self.codons = display_codons;
        self.sequence_dirty = false;
    }

    /// The letters of the selected codes; empty without a selection.
    pub fn get_selected_sequence(&self) -> (r: String)
        requires
            self.wf(),
        ensures
            r@ == match self.selection {
                Some(s) => letters::<IupacNucleotide>(
                    self.sequence@.subrange(s.start as int, s.end as int),
                ),
                None => Seq::<char>::empty(),
            },
    {
        let mut r = String::new();
        match self.selection {
            Some(selection) => {
                let mut k: usize = selection.start;
                while k < selection.end
                    invariant
                        self.wf(),
                        self.selection == Some(selection),
                        selection.start <= k <= selection.end,
                        r@ == letters::<IupacNucleotide>(
                            self.sequence@.subrange(selection.start as int, k as int),
                        ),
                    decreases selection.end - k,
                {
                    push_char(&mut r, self.sequence[k].to_letter());
                    assert(self.sequence@.subrange(selection.start as int, k + 1)
                        =~= self.sequence@.subrange(selection.start as int, k as int).push(
                        self.sequence@[k as int],
                    ));
                    assert(letters::<IupacNucleotide>(
                        self.sequence@.subrange(selection.start as int, k + 1),
                    ) =~= letters::<IupacNucleotide>(
                        self.sequence@.subrange(selection.start as int, k as int),
                    ).push(self.sequence@[k as int].spec_letter()));
                    k = k + 1;
                }
            },
            None => {},
        }
        r
    }

    /// The data for the editor's view. The codons are laid out anew (as `update`
    /// does) when `force` is set or the sequence changed since the last layout,
    /// and only then handed over.
    pub fn calculate_sequence_data(&mut self, force: bool) -> (r: SequenceData)
        requires
            old(self).wf(),
        ensures
            final(self).sequence == old(self).sequence,
            final(self).cursor_pos == old(self).cursor_pos,
            final(self).selection == old(self).selection,
            final(self).wf(),
            force || old(self).sequence_dirty ==> {
                &&& !final(self).sequence_dirty
                &&& lays_out(final(self).codons@, old(self).sequence@)
                &&& r.sequence is Some
                &&& carries_all(r.sequence->0@, final(self).codons@)
            },
            !(force || old(self).sequence_dirty) ==> {
                &&& r.sequence is None
                &&& final(self).codons == old(self).codons
                &&& final(self).sequence_dirty == old(self).sequence_dirty
            },
            r.bp_count == old(self).sequence@.len(),
            r.cursor.position == old(self).cursor_pos,
            r.cursor.is_at_end == (old(self).cursor_pos == old(self).sequence@.len()),
            r.selection is Some == old(self).selection is Some,
            r.selection is Some ==> r.selection->0.start == old(self).selection->0.start
                && r.selection->0.end == old(self).selection->0.end,
    {
        let sequence = if force || self.sequence_dirty {
            self.update();
            let n = self.sequence.len();
            let mut data: Vec<SequenceItem> = Vec::new();
            let mut i: usize = 0;
            while i < self.codons.len()
                invariant
                    i <= self.codons@.len(),
                    n == self.sequence@.len(),
                    lays_out(self.codons@, self.sequence@),
                    data@.len() == i,
                    forall|j: int| 0 <= j < i ==> carries(#[trigger] data@[j], self.codons@[j], j),
                decreases self.codons@.len() - i,
            {
                let codon = &self.codons[i];
                let nucleotides = codon.nucleotides.clone();
                let anti_nucleotides = codon.anti_nucleotides.clone();
                assert(nucleotides@ =~= codon.nucleotides@);
                assert(anti_nucleotides@ =~= codon.anti_nucleotides@);
                assert(codon.shows(
                    self.sequence@.subrange(3 * i, min_int(3 * i + 3, n as int)),
                ));
                assert(3 * i < n);
                assert(codon.nucleotides@.len() == min_int(3 * i + 3, n as int) - 3 * i);
                let start_index = 3 * i;
                let item = SequenceItem {
                    codon: nucleotides,
                    anticodon: anti_nucleotides,
                    peptide: codon.peptide,
                    start_index,
                    end_index: start_index + codon.nucleotides.len(),
                };
                data.push(item);
                i = i + 1;
            }
            Some(data)
        } else {
            None
        };
        let len = self.sequence.len();
        SequenceData {
            sequence,
            bp_count: len,
            cursor: CursorData { position: self.cursor_pos, is_at_end: self.cursor_pos == len },
            selection: match &self.selection {
                Some(selection) => Some(SelectionData::from(selection)),
                None => None,
            },
        }
    }
}

} // verus!
