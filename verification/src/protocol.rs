//! A model of the cell's concurrent initialization protocol.
//!
//! A lazy cell is one storage slot guarded by a three-state flag. The flag
//! starts `Empty`; the first caller to move it to `Running` (by an atomic
//! compare-and-exchange) owns the slot, writes the built value into it, and
//! then publishes the value by setting the flag to `Done`. Every other
//! caller waits until it observes `Done` and then reads the slot.
//!
//! This module describes that protocol as a state machine whose steps are
//! the individual atomic actions a caller can take, so that its guarantees
//! can be stated and proved over *every* interleaving of any number of
//! callers: an interleaving is just a sequence of steps, in whatever order
//! the scheduler produced them.

use vstd::prelude::*;

verus! {

/// The synchronization state of a lazy cell.
#[derive(Clone, Copy, PartialEq, Eq, Structural)]
pub enum CellState {
    /// No builder has started; the slot holds no meaningful value.
    Empty,
    /// Exactly one caller is running the builder; the slot is not yet valid.
    Running,
    /// The slot holds the final value, permanently.
    Done,
}

/// The shared state of one cell: the flag and the slot it guards.
///
/// `slot` is `None` until the winning caller has written the built value;
/// a write puts the whole value in place at once, which is what the real
/// cell's release-store on the flag guarantees to later acquire-loads.
pub struct CellModel<T> {
    pub state: CellState,
    pub slot: Option<T>,
}

/// One atomic action a caller can take against the shared cell.
pub enum Step<T> {
    /// Attempt the compare-and-exchange `Empty -> Running`. Succeeds, making
    /// the caller the winner, exactly when the state is still `Empty`.
    Acquire,
    /// The winner writes the built value into the slot (state `Running`).
    Write(T),
    /// The winner publishes: `Running -> Done`, valid only once the slot
    /// has been fully written.
    Finish,
}

/// The state of a freshly created cell: nothing has run, nothing is stored.
pub open spec fn initial<T>() -> CellModel<T> {
    CellModel { state: CellState::Empty, slot: None }
}

/// Whether taking `step` in state `m` makes the caller the winner, i.e.
/// whether the compare-and-exchange out of `Empty` succeeds.
pub open spec fn acquire_wins<T>(m: CellModel<T>, step: Step<T>) -> bool {
    step is Acquire && m.state is Empty
}

/// The effect of one atomic step on the shared cell.
///
/// A failed `Acquire` changes nothing (the caller merely learns it lost).
/// `Write` and `Finish` only have an effect while the cell is `Running`:
/// the slot is exclusively owned by the winner during that phase, and once
/// `Done` nothing is ever written again.
pub open spec fn apply<T>(m: CellModel<T>, step: Step<T>) -> CellModel<T> {
    match step {
        Step::Acquire => if m.state is Empty {
            CellModel { state: CellState::Running, slot: m.slot }
        } else {
            m
        },
        Step::Write(v) => if m.state is Running {
            CellModel { state: m.state, slot: Some(v) }
        } else {
            m
        },
        Step::Finish => if m.state is Running && m.slot is Some {
            CellModel { state: CellState::Done, slot: m.slot }
        } else {
            m
        },
    }
}

/// The cell state after an interleaving `steps` runs from state `m`.
pub open spec fn run<T>(m: CellModel<T>, steps: Seq<Step<T>>) -> CellModel<T>
    decreases steps.len(),
{
    if steps.len() == 0 {
        m
    } else {
        run(apply(m, steps.first()), steps.drop_first())
    }
}

/// How many steps of the interleaving won the race out of `Empty` — that
/// is, how many times the builder gets executed.
pub open spec fn wins<T>(m: CellModel<T>, steps: Seq<Step<T>>) -> nat
    decreases steps.len(),
{
    if steps.len() == 0 {
        0
    } else {
        (if acquire_wins(m, steps.first()) {
            1nat
        } else {
            0nat
        }) + wins(apply(m, steps.first()), steps.drop_first())
    }
}

/// The steps the winning caller takes, in order: win the race, write the
/// built value `v`, publish it.
pub open spec fn winner_steps<T>(v: T) -> Seq<Step<T>> {
    seq![Step::Acquire, Step::Write(v), Step::Finish]
}

/// Running the winner's steps from an `Empty` cell leaves the cell `Done`
/// with exactly the written value, and wins the race exactly once.
pub proof fn lemma_winner_steps<T>(m: CellModel<T>, v: T)
    requires
        m.state is Empty,
    ensures
        run(m, winner_steps(v)) == (CellModel { state: CellState::Done, slot: Some(v) }),
        wins(m, winner_steps(v)) == 1,
{
    let steps = winner_steps::<T>(v);
    let s1 = steps.drop_first();
    let s2 = s1.drop_first();
    let s3 = s2.drop_first();
    assert(steps.first() == Step::<T>::Acquire);
    assert(s1 =~= seq![Step::Write(v), Step::<T>::Finish]);
    assert(s1.first() == Step::<T>::Write(v));
    assert(s2 =~= seq![Step::<T>::Finish]);
    assert(s2.first() == Step::<T>::Finish);
    assert(s3.len() == 0);
    let m1 = apply(m, Step::Acquire);
    let m2 = apply(m1, Step::Write(v));
    let m3 = apply(m2, Step::Finish);
    assert(run(m, steps) == run(m1, s1));
    assert(run(m1, s1) == run(m2, s2));
    assert(run(m2, s2) == run(m3, s3));
    assert(run(m3, s3) == m3);
    assert(m3 == (CellModel { state: CellState::Done, slot: Some(v) }));
    assert(wins(m, steps) == 1nat + wins(m1, s1));
    assert(wins(m1, s1) == wins(m2, s2));
    assert(wins(m2, s2) == wins(m3, s3));
    assert(wins(m3, s3) == 0);
}

/// Once the cell has left `Empty`, it never returns there, so no later
/// step of any interleaving can win the race.
pub proof fn lemma_no_wins_after_empty<T>(m: CellModel<T>, steps: Seq<Step<T>>)
    requires
        m.state !is Empty,
    ensures
        wins(m, steps) == 0,
        run(m, steps).state !is Empty,
    decreases steps.len(),
{
    if steps.len() > 0 {
        lemma_no_wins_after_empty(apply(m, steps.first()), steps.drop_first());
    }
}

/// At-most-once execution: under any interleaving of any number of
/// concurrent callers, starting from any cell state, the race out of
/// `Empty` is won at most once, so the builder body runs at most once.
pub proof fn lemma_at_most_one_win<T>(m: CellModel<T>, steps: Seq<Step<T>>)
    ensures
        wins(m, steps) <= 1,
    decreases steps.len(),
{
    if steps.len() > 0 {
        let next = apply(m, steps.first());
        if acquire_wins(m, steps.first()) {
            lemma_no_wins_after_empty(next, steps.drop_first());
        } else {
            lemma_at_most_one_win(next, steps.drop_first());
        }
    }
}

/// Interleavings compose: running `s` and then `t` is running `s + t`.
pub proof fn lemma_run_append<T>(m: CellModel<T>, s: Seq<Step<T>>, t: Seq<Step<T>>)
    ensures
        run(m, s + t) == run(run(m, s), t),
    decreases s.len(),
{
    if s.len() == 0 {
        assert(s + t =~= t);
    } else {
        assert((s + t).first() == s.first());
        assert((s + t).drop_first() =~= s.drop_first() + t);
        lemma_run_append(apply(m, s.first()), s.drop_first(), t);
    }
}

/// `Done` is the terminal state: once the cell is `Done`, no interleaving
/// of further steps changes it — neither the state nor the stored value.
/// A repeated call on a finished cell is therefore a pure read.
pub proof fn lemma_done_is_permanent<T>(m: CellModel<T>, steps: Seq<Step<T>>)
    requires
        m.state is Done,
    ensures
        run(m, steps) == m,
    decreases steps.len(),
{
    if steps.len() > 0 {
        assert(apply(m, steps.first()) == m);
        lemma_done_is_permanent(m, steps.drop_first());
    }
}

/// Single-instance identity: once any caller has observed the cell `Done`,
/// every caller that reads after any further interleaving observes the
/// cell still `Done` with exactly the same stored value.
pub proof fn lemma_observers_agree<T>(m: CellModel<T>, earlier: Seq<Step<T>>, later: Seq<Step<T>>)
    requires
        run(m, earlier).state is Done,
    ensures
        run(m, earlier + later).state is Done,
        run(m, earlier + later).slot == run(m, earlier).slot,
{
    lemma_run_append(m, earlier, later);
    lemma_done_is_permanent(run(m, earlier), later);
}

/// A cell is well-published when `Done` implies the slot has been written:
/// an observer of `Done` can never find the slot still unwritten.
pub open spec fn published<T>(m: CellModel<T>) -> bool {
    m.state is Done ==> m.slot is Some
}

/// Being well-published is preserved by every step of every interleaving:
/// `Finish` refuses to publish before the slot is fully written, and once
/// `Done` the slot is never cleared.
pub proof fn lemma_published_preserved<T>(m: CellModel<T>, steps: Seq<Step<T>>)
    requires
        published(m),
    ensures
        published(run(m, steps)),
    decreases steps.len(),
{
    if steps.len() > 0 {
        lemma_published_preserved(apply(m, steps.first()), steps.drop_first());
    }
}

/// Visibility: starting from a fresh cell, whatever interleaving ran, a
/// caller that observes `Done` finds a value in the slot.
pub proof fn lemma_done_sees_value<T>(steps: Seq<Step<T>>)
    ensures
        published(run(initial::<T>(), steps)),
{
    lemma_published_preserved(initial::<T>(), steps);
}

/// Visibility, the other half: the value an observer finds in the slot got
/// there through some `Write` step, which put the whole value — every
/// field of it — in place at once. No interleaving yields a torn value.
pub proof fn lemma_value_from_write<T>(m: CellModel<T>, steps: Seq<Step<T>>, v: T)
    requires
        run(m, steps).slot == Some(v),
        m.slot != Some(v),
    ensures
        exists|i: int| 0 <= i < steps.len() && steps[i] == Step::Write(v),
    decreases steps.len(),
{
    let m1 = apply(m, steps.first());
    if m1.slot == Some(v) {
        assert(steps[0] == Step::<T>::Write(v));
    } else {
        lemma_value_from_write(m1, steps.drop_first(), v);
        let i = choose|i: int|
            0 <= i < steps.drop_first().len() && steps.drop_first()[i] == Step::Write(v);
        assert(steps[i + 1] == Step::<T>::Write(v));
    }
}

} // verus!
