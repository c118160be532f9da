use vstd::prelude::*;

verus! {

/// Error returned when a dynamic borrow is attempted while an exclusive
/// mutation session is active through a path other than the cell's own
/// reentrant mechanism.
#[derive(Clone, Copy, Debug, PartialEq, Eq, Structural)]
pub struct BorrowConflict;

/// The abstract state of a [`ReentrantRefCell`]: the wrapped value together
/// with the current re-borrow depth. A depth of 0 means no mutation session
/// is active; a depth of n > 0 means the cell is inside n nested
/// [`ReentrantRefCell::borrow_mut_reentrant`] calls.
pub struct CellView<T> {
    pub value: T,
    pub depth: nat,
}

/// A cell that allows a mutation session to be re-entered from within its own
/// callback, while rejecting independent borrows for the session's duration.
///
/// The motivating use is a callback handed to a foreign system that may call
/// back into the same callback synchronously, before the first invocation has
/// returned. An ordinary dynamically checked cell would treat the re-entry as
/// a conflicting exclusive borrow; this cell grants it instead, tracking the
/// nesting level in a depth counter that is restored on every exit path.
///
/// A mutation session is opened with [`Self::borrow_mut_reentrant`], which
/// hands the cell itself to the callback; nested sessions are opened by the
/// callback calling the same method again. While any session is active,
/// [`Self::borrow`] and [`Self::borrow_mut`] — the independent, non-nested
/// access paths — fail with [`BorrowConflict`] instead of granting a view.
pub struct ReentrantRefCell<T> {
    value: T,
    num_mut_re_borrows: usize,
}

impl<T> View for ReentrantRefCell<T> {
    type V = CellView<T>;

    closed spec fn view(&self) -> CellView<T> {
        CellView { value: self.value, depth: self.num_mut_re_borrows as nat }
    }
}

/// Whether an exclusive mutation session is active in a cell with state `v`.
pub open spec fn mutation_session_active<T>(v: CellView<T>) -> bool {
    v.depth > 0
}

/// What a read through [`ReentrantRefCell::borrow`] yields on a cell with
/// state `v`: the wrapped value when no session is active, a conflict
/// otherwise.
pub open spec fn read_result<T>(v: CellView<T>) -> Result<T, BorrowConflict> {
    if v.depth == 0 {
        Ok(v.value)
    } else {
        Err(BorrowConflict)
    }
}

/// The state a session callback receives on entry: the same value, one
/// nesting level deeper.
pub open spec fn entered_view<T>(v: CellView<T>) -> CellView<T> {
    CellView { value: v.value, depth: v.depth + 1 }
}

/// The state of the cell after a session exits: the value the callback left
/// behind, at the depth from before the session — restored on every exit
/// path, whatever the callback's outcome was.
pub open spec fn restored_view<T>(pre: CellView<T>, mid: CellView<T>) -> CellView<T> {
    CellView { value: mid.value, depth: pre.depth }
}

impl<T> ReentrantRefCell<T> {
    /// Creates a cell holding `data`, with no mutation session active.
    pub fn new(data: T) -> (cell: Self)
        ensures
            cell@ == (CellView { value: data, depth: 0 as nat }),
    {
        ReentrantRefCell { value: data, num_mut_re_borrows: 0 }
    }

    /// The current re-borrow depth: 0 outside any mutation session, the
    /// nesting level inside one.
    pub fn depth(&self) -> (r: usize)
        ensures
            r == self@.depth,
    {
        self.num_mut_re_borrows
    }

    /// Reads the wrapped value. Fails with [`BorrowConflict`] while an
    /// exclusive mutation session is active, since this access path is not
    /// part of that session's nesting.
    pub fn borrow(&self) -> (r: Result<&T, BorrowConflict>)
        ensures
            r is Ok <==> !mutation_session_active(self@),
            r matches Ok(v) ==> read_result(self@) == Ok::<T, BorrowConflict>(*v),
            r matches Ok(v) ==> *v == self@.value,
            r is Err ==> read_result(self@) == Err::<T, BorrowConflict>(BorrowConflict),
    {
        if self.num_mut_re_borrows == 0 {
            Ok(&self.value)
        } else {
            Err(BorrowConflict)
        }
    }

    /// Takes an exclusive view of the wrapped value. Fails with
    /// [`BorrowConflict`] while a mutation session is active: an exclusive
    /// borrow through this path would be independent of the session, not
    /// nested inside it.
    pub fn borrow_mut(&mut self) -> (r: Result<&mut T, BorrowConflict>)
        ensures
            r is Ok <==> !mutation_session_active(old(self)@),
            r matches Ok(v) ==> *v == old(self)@.value
                && final(self)@.value == *final(v)
                && final(self)@.depth == old(self)@.depth,
            r is Err ==> final(self)@ == old(self)@,
    {
        if self.num_mut_re_borrows == 0 {
            Ok(&mut self.value)
        } else {
            Err(BorrowConflict)
        }
    }

    /// The mutable view a session callback works through: the model of the
    /// exclusive access that a session grants. Exclusivity is already
    /// guaranteed by the `&mut self` it takes, so no dynamic check is needed,
    /// at any nesting depth.
    pub fn get_mut(&mut self) -> (r: &mut T)
        ensures
            *r == old(self)@.value,
            final(self)@.value == *final(r),
            final(self)@.depth == old(self)@.depth,
    {
        &mut self.value
    }

    /// Runs `f` inside a mutation session on this cell, and allows `f` itself
    /// to open nested sessions by calling this method again on the cell it
    /// receives.
    ///
    /// On entry the depth counter is incremented; the callback receives the
    /// cell at the deeper level and works on the value through
    /// [`Self::get_mut`] or through nested sessions. On exit the counter is
    /// restored to its previous value — whatever state the callback left the
    /// counter in, and whatever its outcome was; a callback that reports
    /// failure through its return value finds the cell usable again, never
    /// locked out. The callback's result is handed back unchanged.
    pub fn borrow_mut_reentrant<F, U>(self, f: F) -> (r: (Self, U)) where
        F: FnOnce(Self) -> (Self, U),

        requires
            self@.depth < usize::MAX,
            forall|entered: Self| entered@ == entered_view(self@) ==> call_requires(
                f,
                (entered,),
            ),
        ensures
            r.0@.depth == self@.depth,
            exists|entered: Self, mid: Self|
                #![trigger call_ensures(f, (entered,), (mid, r.1))]
                entered@ == entered_view(self@) && call_ensures(f, (entered,), (mid, r.1))
                    && r.0@ == restored_view(self@, mid@),
    {
        let ghost pre = self;
        let ReentrantRefCell { value, num_mut_re_borrows } = self;
        let entered = ReentrantRefCell { value, num_mut_re_borrows: num_mut_re_borrows + 1 };
        let ghost entered_snapshot = entered;
        proof {
            assert(entered@ == entered_view(pre@));
        }
        let (mid, u) = f(entered);
        let ghost mid_snapshot = mid;
        let ReentrantRefCell { value: mid_value, num_mut_re_borrows: _ } = mid;
        let restored = ReentrantRefCell { value: mid_value, num_mut_re_borrows };
        let r_pair = (restored, u);
        proof {
            assert(entered_snapshot@ == entered_view(pre@));
            assert(call_ensures(f, (entered_snapshot,), (mid_snapshot, r_pair.1)));
            assert(r_pair.0@ == restored_view(pre@, mid_snapshot@));
        }
        r_pair
    }
}

/// Constructing the cell with a value and reading it back immediately yields
/// that value unchanged: a fresh cell has no active session, so the read
/// succeeds.
pub proof fn lemma_read_after_new<T>(v: T)
    ensures
        read_result((CellView { value: v, depth: 0 as nat })) == Ok::<T, BorrowConflict>(v),
{
}

/// After a mutation session that started with no session active, a read
/// reflects exactly the value the session's callback left behind, and
/// succeeds: the session's exit restored the depth to 0.
pub proof fn lemma_read_after_mutate<T>(pre: CellView<T>, mid: CellView<T>)
    requires
        pre.depth == 0,
    ensures
        read_result(restored_view(pre, mid)) == Ok::<T, BorrowConflict>(mid.value),
        !mutation_session_active(restored_view(pre, mid)),
{
}

/// Nested re-entry is coherent: the nested callback is handed exactly the
/// value the outer callback has produced so far; the nested exit returns to
/// the outer session's depth; and once the outer session exits in turn, no
/// session is active any more.
pub proof fn lemma_nested_reentry<T>(pre: CellView<T>, current: CellView<T>, inner_mid: CellView<T>)
    requires
        pre.depth == 0,
    ensures
        entered_view(current).value == current.value,
        restored_view(current, inner_mid).depth == current.depth,
        !mutation_session_active(restored_view(pre, restored_view(current, inner_mid))),
{
}

/// The depth counter is restored on every exit path of a session, whatever
/// state the callback left behind — in particular when the callback reports
/// an error. A session opened at depth 0 therefore always leaves the cell
/// with no active session, never permanently locked out.
pub proof fn lemma_depth_restored_on_any_exit<T>(pre: CellView<T>, mid: CellView<T>)
    ensures
        restored_view(pre, mid).depth == pre.depth,
        pre.depth == 0 ==> !mutation_session_active(restored_view(pre, mid)),
{
}

/// While an exclusive mutation session is active, an independent (non-nested)
/// access is rejected with [`BorrowConflict`] instead of being granted a view
/// of the value.
pub proof fn lemma_conflicting_access_rejected<T>(v: CellView<T>)
    requires
        mutation_session_active(v),
    ensures
        read_result(v) == Err::<T, BorrowConflict>(BorrowConflict),
{
}

/// Reading is deterministic: two reads of the same cell state yield identical
/// results, so repeated reads with no intervening mutation agree.
pub proof fn lemma_read_deterministic<T>(
    v: CellView<T>,
    r1: Result<T, BorrowConflict>,
    r2: Result<T, BorrowConflict>,
)
    requires
        r1 == read_result(v),
        r2 == read_result(v),
    ensures
        r1 == r2,
{
}

} // verus!
