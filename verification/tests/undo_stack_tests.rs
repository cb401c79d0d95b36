use onscreen_ocr::undo_stack::UndoStack;

#[test]
fn undo_on_empty_stack_fails() {
    let mut s: UndoStack<u32> = UndoStack::new();
    assert_eq!(s.undo(), Err(()));
}

#[test]
fn undo_after_snapshot_gives_snapshot() {
    let mut s = UndoStack::new();
    s.take_snapshot(1u32);
    s.take_snapshot(2u32);
    assert_eq!(s.undo(), Ok(&2));
    assert_eq!(s.undo(), Ok(&1));
    assert_eq!(s.undo(), Err(()));
}

#[test]
fn redo_after_undo_restores() {
    let mut s = UndoStack::new();
    s.take_snapshot(1u32);
    s.take_snapshot(2u32);
    s.take_snapshot(3u32);
    assert_eq!(s.undo(), Ok(&3));
    assert_eq!(s.undo(), Ok(&2));
    assert_eq!(s.redo(), Ok(&3));
    assert_eq!(s.redo(), Err(()));
    assert_eq!(s.undo(), Ok(&2));
}

#[test]
fn snapshot_after_undo_drops_redo_branch() {
    let mut s = UndoStack::new();
    s.take_snapshot(1u32);
    s.take_snapshot(2u32);
    s.take_snapshot(3u32);
    assert_eq!(s.undo(), Ok(&3));
    assert_eq!(s.undo(), Ok(&2));
    s.take_snapshot(4u32);
    assert_eq!(s.redo(), Err(()));
    assert_eq!(s.undo(), Ok(&2));
    assert_eq!(s.undo(), Ok(&1));
}

#[test]
fn reset_forgets_history() {
    let mut s = UndoStack::new();
    s.take_snapshot(1u32);
    s.reset();
    assert_eq!(s.undo(), Err(()));
}

#[test]
fn len_counts_snapshots() {
    let mut s = UndoStack::new();
    assert_eq!(s.len(), 0);
    s.take_snapshot('a');
    s.take_snapshot('b');
    assert_eq!(s.len(), 2);
}

#[test]
fn undo_sequence_returns_snapshots_newest_first() {
    let mut u: UndoStack<u32> = UndoStack::new();
    u.take_snapshot(10);
    u.take_snapshot(20);
    u.take_snapshot(30);
    assert_eq!(u.undo(), Ok(&30));
    assert_eq!(u.undo(), Ok(&20));
    assert_eq!(u.undo(), Ok(&10));
    assert_eq!(u.undo(), Err(()));
}
