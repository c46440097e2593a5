//! A persistent counter state machine: one signed 64-bit count with
//! `init`, `increment`, `decrement` and a read-only `view`.
//!
//! The count saturates at the representable-range boundaries: at
//! `i64::MAX` a further increment leaves it unchanged, and symmetrically
//! at `i64::MIN` for decrement; both calls still report success.

use vstd::prelude::*;

verus! {

/// The persisted state of one counter instance: a single signed count.
#[derive(Clone, Copy, PartialEq, Eq, Structural, Debug)]
pub struct State {
    /// The current value of the counter.
    pub count: i64,
}

/// The error an entry point can signal at the call boundary.
///
/// None of the four operations takes parameters, so none of them ever
/// returns this; the variant is reserved for parameterized entry points.
#[derive(Clone, Copy, PartialEq, Eq, Structural, Debug)]
pub enum CallError {
    /// A call carried parameters that could not be decoded.
    ParseParamsError,
}

/// The count after one increment: one more, saturating at `i64::MAX`.
pub open spec fn incremented(n: int) -> int {
    if n == i64::MAX as int {
        n
    } else {
        n + 1
    }
}

/// The count after one decrement: one less, saturating at `i64::MIN`.
pub open spec fn decremented(n: int) -> int {
    if n == i64::MIN as int {
        n
    } else {
        n - 1
    }
}

/// Creates the state of a fresh counter instance. Always succeeds, and
/// the fresh count is zero.
pub fn init() -> (s: State)
    ensures
        s.count == 0,
{
    State { count: 0 }
}

/// Read-only view of the current state: hands the state back unchanged
/// and never mutates it. Always succeeds.
pub fn view(state: &State) -> (r: &State)
    ensures
        r == state,
{
    state
}

/// Adds one to the count, saturating at `i64::MAX`. Always succeeds:
/// the fallible signature is only the shape the call boundary asks for.
pub fn increment(state: &mut State) -> (r: Result<(), CallError>)
    ensures
        r is Ok,
        final(state).count == incremented(old(state).count as int),
        old(state).count < i64::MAX ==> final(state).count == old(state).count + 1,
        old(state).count == i64::MAX ==> final(state).count == i64::MAX,
{
    if state.count < i64::MAX {
        state.count = state.count + 1;
    }
    Ok(())
}

/// Subtracts one from the count, saturating at `i64::MIN`. Always
/// succeeds, symmetrically to `increment`.
pub fn decrement(state: &mut State) -> (r: Result<(), CallError>)
    ensures
        r is Ok,
        final(state).count == decremented(old(state).count as int),
        old(state).count > i64::MIN ==> final(state).count == old(state).count - 1,
        old(state).count == i64::MIN ==> final(state).count == i64::MIN,
{
    if state.count > i64::MIN {
        state.count = state.count - 1;
    }
    Ok(())
}

/// Inverse law: away from the range boundaries, an increment followed
/// by a decrement, or the reverse, restores the original count.
pub proof fn lemma_increment_decrement_inverse(n: int)
    requires
        n > i64::MIN as int,
        n < i64::MAX as int,
    ensures
        decremented(incremented(n)) == n,
        incremented(decremented(n)) == n,
{
}

} // verus!
