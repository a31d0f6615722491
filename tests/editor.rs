use plasmid::editor::{
    CursorData, CursorMovement, DisplayCodon, Selection, SelectionData, SelectionMovement,
    SequenceState,
};
use plasmid::iupac::IupacNucleotide::{A, C, G, N, R, T};

#[test]
fn state_test_insert() {
    let mut state = SequenceState::default();
    state.insert('A');
    assert_eq!(state.sequence, [A]);
}

#[test]
fn test_insert_with_selection() {
    let mut state = SequenceState::default();
    state.insert('A');
    state.insert('C');
    state.insert('G');
    state.move_selection(SelectionMovement::SetRange { start: 1, end: 2 });
    state.insert('T');
    assert_eq!(state.sequence, [A, T, G])
}

#[test]
fn state_test_insert_all() {
    let mut state = SequenceState::default();
    state.insert_all("ACGT".to_string());
    assert_eq!(state.sequence, [A, C, G, T]);
}

#[test]
fn test_insert_all_with_selection() {
    let mut state = SequenceState::default();
    state.insert_all("ACCCT".to_string());
    state.move_selection(SelectionMovement::SetRange { start: 1, end: 5 });
    state.insert_all("TG".to_string());
    assert_eq!(state.sequence, [A, T, G]);

    let mut state = SequenceState::default();
    state.insert_all("ACCCT".to_string());
    state.move_selection(SelectionMovement::SetRange { start: 0, end: 5 });
    state.insert_all("TG".to_string());
    assert_eq!(state.sequence, [T, G]);
}

#[test]
fn state_test_delete() {
    let mut state = SequenceState::default();
    state.insert_all("ACGT".to_string());
    state.delete();
    assert_eq!(state.sequence, [A, C, G]);
    state.delete();
    assert_eq!(state.sequence, [A, C]);
}

#[test]
fn test_delete_with_selection() {
    let mut state = SequenceState::default();
    state.insert_all("ACGT".to_string());
    state.move_selection(SelectionMovement::SetRange { start: 1, end: 3 });
    state.delete();
    assert_eq!(state.sequence, [A, T]);
}

#[test]
fn state_test_delete_next() {
    let mut state = SequenceState::default();
    state.insert_all("ACGT".to_string());
    state.delete_next();
    assert_eq!(state.sequence, [A, C, G, T]);
    state.cursor_pos = 0;
    state.delete_next();
    assert_eq!(state.sequence, [C, G, T]);
    state.delete_next();
    assert_eq!(state.sequence, [G, T]);
}

#[test]
fn state_test_move_cursor() {
    let mut state = SequenceState::default();
    state.insert_all("ACGT".to_string());

    state.move_cursor(CursorMovement::To(4));
    assert_eq!(state.cursor_pos, 4);

    state.move_cursor(CursorMovement::To(0));
    assert_eq!(state.cursor_pos, 0);

    state.move_cursor(CursorMovement::By(1));
    assert_eq!(state.cursor_pos, 1);

    state.move_cursor(CursorMovement::By(2));
    assert_eq!(state.cursor_pos, 3);

    state.move_cursor(CursorMovement::By(-1));
    assert_eq!(state.cursor_pos, 2);

    state.move_cursor(CursorMovement::CodonStart);
    assert_eq!(state.cursor_pos, 0);

    state.move_cursor(CursorMovement::CodonEnd);
    assert_eq!(state.cursor_pos, 3);

    state.move_cursor(CursorMovement::Start);
    assert_eq!(state.cursor_pos, 0);

    state.move_cursor(CursorMovement::End);
    assert_eq!(state.cursor_pos, 4);
}

#[test]
fn cursor_stays_within_the_sequence() {
    let mut state = SequenceState::default();
    state.insert_all("ACGT".to_string());
    state.move_cursor(CursorMovement::To(9));
    assert_eq!(state.cursor_pos, 4);
    state.move_cursor(CursorMovement::By(isize::MIN));
    assert_eq!(state.cursor_pos, 0);
    state.move_cursor(CursorMovement::By(isize::MAX));
    assert_eq!(state.cursor_pos, 4);
    state.move_cursor(CursorMovement::CodonEnd);
    assert_eq!(state.cursor_pos, 4);
    state.move_cursor(CursorMovement::CodonStart);
    assert_eq!(state.cursor_pos, 3);
}

#[test]
fn selection_moves() {
    let mut state = SequenceState::default();
    state.insert_all("ACGTAC".to_string());
    state.move_selection(SelectionMovement::SetRange { start: 9, end: 2 });
    assert_eq!(state.selection, Some(Selection { start: 2, end: 6 }));
    assert_eq!(state.cursor_pos, 2);
    state.move_selection(SelectionMovement::ExpandBy(-5));
    assert_eq!(state.selection, Some(Selection { start: 0, end: 6 }));
    assert_eq!(state.cursor_pos, 0);
    state.move_selection(SelectionMovement::Reset);
    assert_eq!(state.selection, None);
    state.move_selection(SelectionMovement::ExpandBy(2));
    assert_eq!(state.selection, Some(Selection { start: 0, end: 2 }));
    assert_eq!(state.get_selected_sequence(), "AC");
    state.move_selection(SelectionMovement::All);
    assert_eq!(state.get_selected_sequence(), "ACGTAC");
    state.move_selection(SelectionMovement::SetRange { start: 3, end: 3 });
    assert_eq!(state.selection, None);
    assert_eq!(state.get_selected_sequence(), "");
}

#[test]
fn selection_clamped_to_length() {
    let s = Selection { start: 2, end: 10 }.clamped(5);
    assert_eq!(s, Selection { start: 2, end: 5 });
}

#[test]
fn invalid_letters_insert_nothing() {
    let mut state = SequenceState::default();
    state.insert('x');
    assert!(state.sequence.is_empty());
    state.insert_all("ACXG".to_string());
    assert!(state.sequence.is_empty());
    assert_eq!(state.cursor_pos, 0);
}

#[test]
fn update_lays_out_codons() {
    let mut state = SequenceState::default();
    state.insert_all("ATGRN".to_string());
    assert!(state.sequence_dirty);
    state.update();
    assert!(!state.sequence_dirty);
    assert_eq!(state.codons.len(), 2);
    assert_eq!(state.codons[0].nucleotides, vec!['A', 'T', 'G']);
    assert_eq!(state.codons[0].anti_nucleotides, vec!['T', 'A', 'C']);
    assert_eq!(state.codons[0].peptide, Some('M'));
    assert_eq!(state.codons[1].nucleotides, vec!['R', 'N']);
    assert_eq!(state.codons[1].anti_nucleotides, vec!['Y', 'N']);
    assert_eq!(state.codons[1].peptide, None);
}

#[test]
fn display_codon_needs_concrete_bases() {
    assert_eq!(DisplayCodon::new(&[A, R, G]).peptide, None);
    assert_eq!(DisplayCodon::new(&[T, G, A]).peptide, Some('*'));
    assert_eq!(DisplayCodon::new(&[N]).nucleotides, vec!['N']);
}

#[test]
fn sequence_data_for_the_view() {
    let mut state = SequenceState::default();
    state.insert_all("ATGCA".to_string());
    let data = state.calculate_sequence_data(false);
    let items = data.sequence.unwrap();
    assert_eq!(items.len(), 2);
    assert_eq!(items[0].codon, vec!['A', 'T', 'G']);
    assert_eq!(items[0].peptide, Some('M'));
    assert_eq!((items[0].start_index, items[0].end_index), (0, 3));
    assert_eq!(items[1].anticodon, vec!['G', 'T']);
    assert_eq!((items[1].start_index, items[1].end_index), (3, 5));
    assert_eq!(data.bp_count, 5);
    assert_eq!(data.cursor, CursorData { position: 5, is_at_end: true });
    assert_eq!(data.selection, None);

    state.move_selection(SelectionMovement::SetRange { start: 1, end: 3 });
    let data = state.calculate_sequence_data(false);
    assert!(data.sequence.is_none());
    assert_eq!(data.cursor, CursorData { position: 3, is_at_end: false });
    assert_eq!(data.selection, Some(SelectionData { start: 1, end: 3 }));
    assert_eq!(SelectionData::from(&Selection { start: 2, end: 4 }), SelectionData { start: 2, end: 4 });
    assert!(state.calculate_sequence_data(true).sequence.is_some());
}
