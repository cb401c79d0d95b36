//! A linear undo/redo history of selection snapshots.
use vstd::prelude::*;

verus! {

/// The abstract state of an undo stack: the stored snapshots and the cursor
/// into them.  The cursor may stand one past the last snapshot (right after a
/// snapshot was taken).
pub struct History<T> {
    pub snapshots: Seq<T>,
    pub current: nat,
}

/// The history after `take_snapshot(s)`: everything past the cursor's
/// successor is dropped, `s` is appended, and the cursor moves forward by one.
pub open spec fn spec_take_snapshot<T>(h: History<T>, s: T) -> History<T> {
    let keep = if h.current + 1 <= h.snapshots.len() {
        h.snapshots.subrange(0, h.current + 1 as int)
    } else {
        h.snapshots
    };
    History { snapshots: keep.push(s), current: h.current + 1 }
}

/// Whether `undo` succeeds on `h`.
pub open spec fn can_undo<T>(h: History<T>) -> bool {
    h.current > 0
}

/// The history after a successful `undo`.
pub open spec fn spec_undo<T>(h: History<T>) -> History<T> {
    History { snapshots: h.snapshots, current: (h.current - 1) as nat }
}

/// Whether `redo` succeeds on `h`.
pub open spec fn can_redo<T>(h: History<T>) -> bool {
    h.current + 1 < h.snapshots.len()
}

/// The history after a successful `redo`.
pub open spec fn spec_redo<T>(h: History<T>) -> History<T> {
    History { snapshots: h.snapshots, current: h.current + 1 }
}

/// The cursor of a history stands at most one past its last snapshot.
pub open spec fn cursor_valid<T>(h: History<T>) -> bool {
    h.current <= h.snapshots.len()
}

/// Redo after a successful undo restores the history, unless the cursor stood
/// one past the last snapshot (then there is nothing to redo).
pub proof fn law_redo_after_undo<T>(h: History<T>)
    requires
        can_undo(h),
        h.current < h.snapshots.len(),
    ensures
        can_redo(spec_undo(h)),
        spec_redo(spec_undo(h)) == h,
{
}

/// Undo after a successful redo restores the history and gives back the
/// snapshot that the cursor stood on before the redo.
pub proof fn law_undo_after_redo<T>(h: History<T>)
    requires
        can_redo(h),
    ensures
        can_undo(spec_redo(h)),
        spec_undo(spec_redo(h)) == h,
        spec_redo(h).snapshots[spec_redo(h).current - 1] == h.snapshots[h.current as int],
{
}

/// Taking a snapshot keeps the history valid, always leaves something to undo
/// and nothing to redo; at the end of the history, the next undo gives back
/// the snapshot just taken.
pub proof fn law_snapshot_then_undo<T>(h: History<T>, s: T)
    requires
        cursor_valid(h),
    ensures
        cursor_valid(spec_take_snapshot(h, s)),
        can_undo(spec_take_snapshot(h, s)),
        !can_redo(spec_take_snapshot(h, s)),
        h.current == h.snapshots.len() ==> {
            &&& spec_take_snapshot(h, s).snapshots == h.snapshots.push(s)
            &&& spec_take_snapshot(h, s).snapshots[spec_take_snapshot(h, s).current - 1] == s
        },
{
}

/// The history of a fresh stack after taking the snapshots `s` in order.
pub open spec fn history_after_snapshots<T>(s: Seq<T>) -> History<T>
    decreases s.len(),
{
    if s.len() == 0 {
        History { snapshots: Seq::empty(), current: 0 }
    } else {
        spec_take_snapshot(history_after_snapshots(s.drop_last()), s.last())
    }
}

/// The history after `n` undos, each of which moves the cursor back by one.
pub open spec fn undo_times<T>(h: History<T>, n: nat) -> History<T>
    decreases n,
{
    if n == 0 {
        h
    } else {
        spec_undo(undo_times(h, (n - 1) as nat))
    }
}

proof fn lemma_history_after_snapshots<T>(s: Seq<T>)
    ensures
        history_after_snapshots(s) == (History { snapshots: s, current: s.len() }),
    decreases s.len(),
{
    if s.len() > 0 {
        lemma_history_after_snapshots(s.drop_last());
        assert(s.drop_last().push(s.last()) =~= s);
    } else {
        assert(s =~= Seq::<T>::empty());
    }
}

proof fn lemma_undo_times<T>(h: History<T>, n: nat)
    requires
        n <= h.current,
    ensures
        undo_times(h, n) == (History { snapshots: h.snapshots, current: (h.current - n) as nat }),
    decreases n,
{
    if n > 0 {
        lemma_undo_times(h, (n - 1) as nat);
    }
}

/// Taking snapshots `s[0]`, ..., `s[k - 1]` on a fresh stack and then undoing
/// repeatedly gives them back newest first: the `j`-th undo (for `j <= k`)
/// succeeds with `s[k - j]`, and the undo after those `k` fails.
pub proof fn law_undo_sequence<T>(s: Seq<T>, j: nat)
    requires
        1 <= j <= s.len() + 1,
    ensures
        ({
            let h = undo_times(history_after_snapshots(s), (j - 1) as nat);
            &&& j <= s.len() ==> can_undo(h) && h.snapshots[h.current - 1] == s[s.len() - j]
            &&& j == s.len() + 1 ==> !can_undo(h)
        }),
{
    lemma_history_after_snapshots(s);
    lemma_undo_times(history_after_snapshots(s), (j - 1) as nat);
}

pub struct UndoStack<T> {
    stack: Vec<T>,
    current_index: usize,
}

impl<T> View for UndoStack<T> {
    type V = History<T>;

    closed spec fn view(&self) -> History<T> {
        History { snapshots: self.stack@, current: self.current_index as nat }
    }
}

impl<T> UndoStack<T> {
    #[verifier::type_invariant]
    closed spec fn cursor_in_range(&self) -> bool {
        self.current_index <= self.stack@.len()
    }

    pub fn new() -> (s: Self)
        ensures
            s@.snapshots == Seq::<T>::empty(),
            s@.current == 0,
            cursor_valid(s@),
    {
        UndoStack { stack: Vec::new(), current_index: 0 }
    }

    pub fn take_snapshot(&mut self, snapshot: T)
        requires
            old(self)@.current < usize::MAX,
        ensures
            final(self)@ == spec_take_snapshot(old(self)@, snapshot),
            cursor_valid(final(self)@),
    {
        proof {
            use_type_invariant(&*self);
        }
        let next = self.current_index + 1;
        self.current_index = 0;
        let mut stack = Vec::new();
        std::mem::swap(&mut stack, &mut self.stack);
        stack.truncate(next);
        stack.push(snapshot);
        self.stack = stack;
        self.current_index = next;
    }

    /// Moves the cursor back one step and gives the snapshot it now points at.
    pub fn undo(&mut self) -> (r: Result<&T, ()>)
        ensures
            can_undo(old(self)@) ==> r == Ok::<&T, ()>(&old(self)@.snapshots[old(self)@.current as int
                - 1]) && final(self)@ == spec_undo(old(self)@),
            !can_undo(old(self)@) ==> r == Err::<&T, ()>(()) && final(self)@ == old(self)@,
            cursor_valid(final(self)@),
    {
        proof {
            use_type_invariant(&*self);
        }
        if self.current_index > 0 {
            self.current_index = self.current_index - 1;
            Ok(&self.stack[self.current_index])
        } else {
            Err(())
        }
    }

    /// Moves the cursor forward one step and gives the snapshot it now points at.
    pub fn redo(&mut self) -> (r: Result<&T, ()>)
        requires
            old(self)@.snapshots.len() > 0,
        ensures
            can_redo(old(self)@) ==> r == Ok::<&T, ()>(&old(self)@.snapshots[old(self)@.current as int
                + 1]) && final(self)@ == spec_redo(old(self)@),
            !can_redo(old(self)@) ==> r == Err::<&T, ()>(()) && final(self)@ == old(self)@,
            cursor_valid(final(self)@),
    {
        proof {
            use_type_invariant(&*self);
        }
        if self.current_index < self.stack.len() - 1 {
            self.current_index = self.current_index + 1;
            Ok(&self.stack[self.current_index])
        } else {
            Err(())
        }
    }

    /// The number of stored snapshots.
    pub fn len(&self) -> (n: usize)
        ensures
            n == self@.snapshots.len(),
    {
        self.stack.len()
    }

    pub fn reset(&mut self)
        ensures
            final(self)@.snapshots == Seq::<T>::empty(),
            final(self)@.current == 0,
            cursor_valid(final(self)@),
    {
        self.current_index = 0;
        let mut stack = Vec::new();
        std::mem::swap(&mut stack, &mut self.stack);
        stack.clear();
        self.stack = stack;
    }
}

} // verus!
