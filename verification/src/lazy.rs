//! The executable lazy cell, verified against the protocol model.

use vstd::prelude::*;
use crate::protocol::CellModel;
use crate::protocol::CellState;
use crate::protocol::initial;
use crate::protocol::lemma_winner_steps;
use crate::protocol::run;
use crate::protocol::winner_steps;

verus! {

/// A storage slot whose value is computed on first access and cached for
/// the rest of the cell's lifetime.
///
/// The slot always holds a value of type `T`: `new` stores a placeholder so
/// that the cell can exist before any builder has run, and the first call
/// to [`Lazy::get`] overwrites it with the built value. The placeholder is
/// never observable through the cell's contract.
///
/// A caller that tries to read its own cell from inside its builder cannot
/// be served a half-built value; with this cell the borrow rules already
/// rule such reentrancy out, since `get` holds the cell exclusively.
pub struct Lazy<T> {
    value: T,
    state: CellState,
}

impl<T> View for Lazy<T> {
    type V = CellModel<T>;

    closed spec fn view(&self) -> CellModel<T> {
        CellModel {
            state: self.state,
            slot: if self.state is Done {
                Some(self.value)
            } else {
                None
            },
        }
    }
}

impl<T> Lazy<T> {
    /// `Running` is transient: it exists only while `get` is executing the
    /// builder, and is never a stable state of the cell.
    pub closed spec fn wf(&self) -> bool {
        self.state !is Running
    }

    /// Creates an empty cell. No builder runs here — `init` is only the
    /// placeholder occupying the slot until the first `get`, and the
    /// contract deliberately says nothing about it: it must never be read.
    pub fn new(init: T) -> (r: Self)
        ensures
            r.wf(),
            r@ == initial::<T>(),
    {
        Lazy { value: init, state: CellState::Empty }
    }

    /// Reads the slot directly, without touching the state. Sound to expose
    /// only once the cell is `Done`; `get` calls it after ensuring that.
    fn force_get<'a>(&'a self) -> (r: &'a T)
        ensures
            self@.state is Done ==> self@.slot == Some(*r),
    {
        &self.value
    }

    /// Returns the cell's value, building it on the first call.
    ///
    /// If the cell is still `Empty`, `builder` runs — once — and its result
    /// is stored and returned; the cell ends `Done` having taken exactly
    /// the protocol's winner steps. If the cell is already `Done`, the call
    /// is a pure read: `builder` is ignored, the cell is unchanged, and the
    /// original value is returned.
    pub fn get<'a, F: FnOnce() -> T>(&'a mut self, builder: F) -> (r: &'a T)
        requires
            old(self).wf(),
            old(self)@.state is Empty ==> call_requires(builder, ()),
        ensures
            final(self).wf(),
            final(self)@.state is Done,
            final(self)@.slot == Some(*r),
            old(self)@.state is Done ==> final(self)@ == old(self)@,
            old(self)@.state is Empty ==> call_ensures(builder, (), *r),
            old(self)@.state is Empty ==> final(self)@ == run(
                old(self)@,
                winner_steps(*r),
            ),
    {
        match self.state {
            CellState::Done => {},
            _ => {
                self.state = CellState::Running;
                let built = builder();
                self.value = built;
                self.state = CellState::Done;
                proof {
                    lemma_winner_steps(old(self)@, self.value);
                }
            },
        }
        self.force_get()
    }
}

} // verus!
