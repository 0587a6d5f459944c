//! A cell through which exactly one value can be sent.

use crate::util::waker::WakerSlot;
use std::task::Poll;
use vstd::prelude::*;

verus! {

/// What a [`OneshotCell`] holds.
pub enum CellState<T> {
    /// Initial state: a store may begin, and the cell can be closed.
    Uninit,
    /// A store has begun and nobody else may touch the value.
    Locked,
    /// A value is stored and can be taken.
    Ready(T),
    /// The value is gone, or the cell was closed without one.
    Taken,
}

impl<T> CellState<T> {
    /// The state after an attempt to begin a store.
    pub open spec fn begun(self) -> Self {
        match self {
            CellState::Uninit => CellState::Locked,
            _ => self,
        }
    }

    /// The state after the store that had begun has written `value`.
    pub open spec fn finished(self, value: T) -> Self {
        match self {
            CellState::Locked => CellState::Ready(value),
            _ => self,
        }
    }

    /// The state after an attempt to take the value.
    pub open spec fn emptied(self) -> Self {
        match self {
            CellState::Ready(_) => CellState::Taken,
            _ => self,
        }
    }

    /// The state after an attempt to close the cell.
    pub open spec fn closed(self) -> Self {
        match self {
            CellState::Uninit => CellState::Taken,
            _ => self,
        }
    }

    /// What an attempt to take the value returns.
    pub open spec fn on_take(self) -> Result<T, TakeError> {
        match self {
            CellState::Uninit | CellState::Locked => Err(TakeError::Pending),
            CellState::Ready(value) => Ok(value),
            CellState::Taken => Err(TakeError::Closed),
        }
    }
}

/// Why there was no value to take from a [`OneshotCell`].
#[derive(Copy, Clone, Debug, PartialEq, Eq, Structural)]
pub enum TakeError {
    /// There is no value yet.
    Pending,
    /// There will be no value any more.
    Closed,
}

/// A cell that allows sending exactly one value through it.
///
/// Each method is one indivisible step; [`store`](OneshotCell::store) is made of
/// the two steps [`begin_store`](OneshotCell::begin_store) and
/// [`finish_store`](OneshotCell::finish_store), between which other steps may fall.
pub struct OneshotCell<T, W> {
    waker: WakerSlot<W>,
    state: CellState<T>,
}

impl<T, W> View for OneshotCell<T, W> {
    type V = CellState<T>;

    /// What the cell holds.
    closed spec fn view(&self) -> CellState<T> {
        self.state
    }
}

impl<T, W> OneshotCell<T, W> {
    /// The waker of the task that waits for the value.
    pub closed spec fn waiting(&self) -> Option<W> {
        self.waker@
    }

    /// A cell without a value, for which nobody waits.
    pub fn new() -> (cell: Self)
        ensures
            cell@ is Uninit,
            cell.waiting() is None,
    {
        OneshotCell { waker: WakerSlot::new(), state: CellState::Uninit }
    }

    /// Lock the cell in order to store a value in it.
    ///
    /// This succeeds once, and only while the cell has not been closed.
    pub fn begin_store(&mut self) -> (begun: bool)
        ensures
            begun == (old(self)@ is Uninit),
            final(self)@ == old(self)@.begun(),
            final(self).waiting() == old(self).waiting(),
    {
        if matches!(self.state, CellState::Uninit) {
            self.state = CellState::Locked;
            true
        } else {
            false
        }
    }

    /// Write the value for which the cell was locked.
    ///
    /// The caller has to wake the returned waker.
    pub fn finish_store(&mut self, value: T) -> (waker: Option<W>)
        requires
            old(self)@ is Locked,
        ensures
            final(self)@ == old(self)@.finished(value),
            waker == old(self).waiting(),
            final(self).waiting() is None,
    {
        self.state = CellState::Ready(value);
        self.waker.take()
    }

    /// Store a value within this cell.
    ///
    /// If there has already been a value stored in the cell (even if it has been
    /// taken already), or if the cell was closed, then the value is handed back.
    /// Otherwise the caller has to wake the returned waker.
    pub fn store(&mut self, value: T) -> (stored: Result<Option<W>, T>)
        ensures
            old(self)@ is Uninit ==> {
                &&& stored == Ok::<Option<W>, T>(old(self).waiting())
                &&& final(self)@ == CellState::Ready(value)
                &&& final(self).waiting() is None
            },
            !(old(self)@ is Uninit) ==> {
                &&& stored == Err::<Option<W>, T>(value)
                &&& final(self)@ == old(self)@
                &&& final(self).waiting() == old(self).waiting()
            },
    {
        if !self.begin_store() {
            return Err(value);
        }
        Ok(self.finish_store(value))
    }

    /// Attempt to take the value stored within this cell.
    ///
    /// The error tells whether the cell has no value yet or has lost it.
    pub fn take(&mut self) -> (taken: Result<T, TakeError>)
        ensures
            taken == old(self)@.on_take(),
            final(self)@ == old(self)@.emptied(),
            final(self).waiting() == old(self).waiting(),
    {
        let mut state = CellState::Taken;
        std::mem::swap(&mut state, &mut self.state);
        match state {
            CellState::Ready(value) => Ok(value),
            CellState::Taken => Err(TakeError::Closed),
            unset => {
                self.state = unset;
                Err(TakeError::Pending)
            },
        }
    }

    /// Close the cell without sending a value.
    ///
    /// This only has an effect if no store has begun, and returns whether it had.
    /// If so then the caller has to wake the waker that comes with the answer.
    pub fn close(&mut self) -> (closed: (bool, Option<W>))
        ensures
            closed.0 == (old(self)@ is Uninit),
            final(self)@ == old(self)@.closed(),
            closed.0 ==> closed.1 == old(self).waiting() && final(self).waiting() is None,
            !closed.0 ==> closed.1 is None && final(self).waiting() == old(self).waiting(),
    {
        if matches!(self.state, CellState::Uninit) {
            self.state = CellState::Taken;
            (true, self.waker.take())
        } else {
            (false, None)
        }
    }

    /// Whether a value was stored or the cell was closed.
    pub fn is_complete(&self) -> (complete: bool)
        ensures
            complete == (self@ is Ready || self@ is Taken),
    {
        matches!(self.state, CellState::Ready(_) | CellState::Taken)
    }

    /// Take the value, or `None` if there will be none; register `waker` for the
    /// moment when either can be told.
    pub fn poll_take(&mut self, waker: W) -> (taken: Poll<Option<T>>)
        ensures
            taken == match old(self)@.on_take() {
                Ok(value) => Poll::Ready(Some(value)),
                Err(TakeError::Closed) => Poll::Ready(None),
                Err(TakeError::Pending) => Poll::Pending,
            },
            final(self)@ == old(self)@.emptied(),
            final(self).waiting() == Some(waker),
    {
        self.waker.register(waker);
        match self.take() {
            Ok(value) => Poll::Ready(Some(value)),
            Err(TakeError::Closed) => Poll::Ready(None),
            Err(TakeError::Pending) => Poll::Pending,
        }
    }
}

/// One step that some holder of a [`OneshotCell`] makes.
pub enum CellStep<T> {
    /// [`OneshotCell::begin_store`].
    Begin,
    /// [`OneshotCell::finish_store`], by the holder whose store has begun.
    Finish(T),
    /// [`OneshotCell::take`] or [`OneshotCell::poll_take`].
    Take,
    /// [`OneshotCell::close`].
    Close,
}

impl<T> CellState<T> {
    /// The state after `step`.
    pub open spec fn after(self, step: CellStep<T>) -> Self {
        match step {
            CellStep::Begin => self.begun(),
            CellStep::Finish(value) => self.finished(value),
            CellStep::Take => self.emptied(),
            CellStep::Close => self.closed(),
        }
    }

    /// Whether a value can still come to be stored.
    pub open spec fn has_room(self) -> bool {
        self is Uninit || self is Locked
    }

    /// The value that waits to be taken.
    pub open spec fn pending(self) -> Seq<T> {
        match self {
            CellState::Ready(value) => seq![value],
            _ => seq![],
        }
    }

    /// Whether `steps` can be made one after the other: a store is only finished
    /// where one has begun.
    pub open spec fn allows(self, steps: Seq<CellStep<T>>) -> bool
        decreases steps.len(),
    {
        steps.len() == 0 || {
            &&& steps[0] is Finish ==> self is Locked
            &&& self.after(steps[0]).allows(steps.drop_first())
        }
    }

    /// The state after all of `steps`.
    pub open spec fn after_all(self, steps: Seq<CellStep<T>>) -> Self
        decreases steps.len(),
    {
        if steps.len() == 0 {
            self
        } else {
            self.after(steps[0]).after_all(steps.drop_first())
        }
    }

    /// The values that `steps` store, in order.
    pub open spec fn stored(self, steps: Seq<CellStep<T>>) -> Seq<T>
        decreases steps.len(),
    {
        if steps.len() == 0 {
            seq![]
        } else {
            let rest = self.after(steps[0]).stored(steps.drop_first());
            match steps[0] {
                CellStep::Finish(value) => seq![value] + rest,
                _ => rest,
            }
        }
    }

    /// The values that `steps` take, in order.
    pub open spec fn taken(self, steps: Seq<CellStep<T>>) -> Seq<T>
        decreases steps.len(),
    {
        if steps.len() == 0 {
            seq![]
        } else {
            let rest = self.after(steps[0]).taken(steps.drop_first());
            match (steps[0], self.on_take()) {
                (CellStep::Take, Ok(value)) => seq![value] + rest,
                _ => rest,
            }
        }
    }
}

/// However the steps of its holders interleave, at most one value is ever stored
/// in a cell, and every value stored is either still there or was taken exactly
/// once: what was taken, followed by what is left, is what was stored.
pub proof fn law_one_value_taken_once<T>(steps: Seq<CellStep<T>>)
    requires
        CellState::<T>::Uninit.allows(steps),
    ensures
        CellState::<T>::Uninit.stored(steps).len() <= 1,
        CellState::<T>::Uninit.taken(steps) + CellState::<T>::Uninit.after_all(steps).pending()
            =~= CellState::<T>::Uninit.stored(steps),
{
    lemma_cell_run(CellState::<T>::Uninit, steps);
}

/// Once a cell has been closed, nothing can be stored in it or taken from it.
pub proof fn law_closed_cell_stays_closed<T>(state: CellState<T>, steps: Seq<CellStep<T>>)
    requires
        state is Uninit,
        state.closed().allows(steps),
    ensures
        state.closed().after_all(steps) is Taken,
        state.closed().stored(steps).len() == 0,
        state.closed().taken(steps).len() == 0,
{
    lemma_cell_run(state.closed(), steps);
}

/// What any run of steps does to a cell: it stores at most one value, none if
/// the cell has no room, and takes out in order what was and comes to be there.
proof fn lemma_cell_run<T>(state: CellState<T>, steps: Seq<CellStep<T>>)
    requires
        state.allows(steps),
    ensures
        state.stored(steps).len() <= if state.has_room() { 1nat } else { 0 },
        state.taken(steps) + state.after_all(steps).pending() =~= state.pending()
            + state.stored(steps),
        state is Taken ==> state.after_all(steps) is Taken,
    decreases steps.len(),
{
    if steps.len() > 0 {
        lemma_cell_run(state.after(steps[0]), steps.drop_first());
        let rest = state.after(steps[0]);
        assert(state.taken(steps) + state.after_all(steps).pending() =~= state.pending()
            + state.stored(steps)) by {
            let tail = rest.taken(steps.drop_first()) + rest.after_all(
                steps.drop_first(),
            ).pending();
            assert(tail =~= rest.pending() + rest.stored(steps.drop_first()));
        }
    }
}

/// A value that is stored can be taken, and only then: what is taken is the value that is there, there
/// is none yet exactly as long as one can still come, and none any more otherwise.
pub proof fn law_stored_value_can_be_taken<T>(state: CellState<T>, value: T)
    ensures
        state.on_take() == Ok::<T, TakeError>(value) <==> state == CellState::Ready(value),
        state.on_take() == Err::<T, TakeError>(TakeError::Pending) <==> state is Uninit
            || state is Locked,
        state.on_take() == Err::<T, TakeError>(TakeError::Closed) <==> state is Taken,
        CellState::<T>::Uninit.begun().finished(value).on_take() == Ok::<T, TakeError>(value),
        CellState::<T>::Uninit.begun().finished(value).emptied() is Taken,
{
}

/// Each step has an effect only in the state that it is for.
pub proof fn law_steps_have_effect_in_their_state_only<T>(state: CellState<T>, value: T)
    ensures
        state is Uninit ==> state.begun() is Locked && state.closed() is Taken,
        !(state is Uninit) ==> state.begun() == state && state.closed() == state,
        state is Locked ==> state.finished(value) == CellState::Ready(value),
        !(state is Locked) ==> state.finished(value) == state,
        state is Ready ==> state.emptied() is Taken,
        !(state is Ready) ==> state.emptied() == state,
{
}

} // verus!
