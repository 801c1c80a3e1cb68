//! What it means that an operation can run on a stage.
//!
//! A stage of the amplifier is a value of some type; the operations that the
//! engine offers on it are closures that take the stage by mutable reference.

use vstd::prelude::*;

verus! {

/// `op` can run on every stage.
pub open spec fn runs<S, Y, Op: FnOnce(&mut S) -> Y>(op: Op) -> bool {
    forall|s: &mut S| #[trigger] call_requires(op, (s,))
}

/// `op` can run on every stage with every argument.
pub open spec fn runs_on<S, X, Y, Op: FnOnce(&mut S, X) -> Y>(op: Op) -> bool {
    forall|s: &mut S, x: X| #[trigger] call_requires(op, (s, x))
}

/// `op` can run on every stage with every two arguments.
pub open spec fn runs_on_two<S, X1, X2, Y, Op: FnOnce(&mut S, X1, X2) -> Y>(op: Op) -> bool {
    forall|s: &mut S, x1: X1, x2: X2| #[trigger] call_requires(op, (s, x1, x2))
}

/// `op` can run on every stage with every three arguments.
pub open spec fn runs_on_three<S, X1, X2, X3, Y, Op: FnOnce(&mut S, X1, X2, X3) -> Y>(
    op: Op,
) -> bool {
    forall|s: &mut S, x1: X1, x2: X2, x3: X3| #[trigger] call_requires(op, (s, x1, x2, x3))
}

/// `op` takes every two values.
pub open spec fn takes_two<X1, X2, Y, Op: FnOnce(X1, X2) -> Y>(op: Op) -> bool {
    forall|x1: X1, x2: X2| #[trigger] call_requires(op, (x1, x2))
}

} // verus!
