//! The eight 4-operator connection algorithms (OPN-family topology).
//!
//! Operators are numbered 0..=3. A route `(from, to)` feeds the output of
//! operator `from` into the phase of operator `to`; carriers are summed into
//! the channel output; the feedback operator modulates itself.

use vstd::prelude::*;

verus! {

/// Number of algorithms.
pub const ALGORITHM_COUNT: usize = 8;

/// (modulator operator, target operator).
pub type ModRoute = (usize, usize);

/// Wiring of one algorithm.
pub struct AlgorithmDef {
    /// Modulator -> target routes. Several routes into one target are summed.
    pub routes: Vec<ModRoute>,
    /// The operator with self-feedback.
    pub feedback_op: usize,
    /// Operators summed into the channel output.
    pub carriers: Vec<usize>,
    /// Evaluation order (modulators before carriers).
    pub eval_order: [usize; 4],
}

/// Routes of algorithm `i` (operators 1..4 of the chip numbered 0..3).
pub open spec fn spec_routes(i: int) -> Seq<ModRoute> {
    if i == 0 {
        seq![(0usize, 1usize), (1usize, 2usize), (2usize, 3usize)]
    } else if i == 1 {
        seq![(0usize, 2usize), (1usize, 2usize), (2usize, 3usize)]
    } else if i == 2 {
        seq![(0usize, 3usize), (1usize, 2usize), (2usize, 3usize)]
    } else if i == 3 {
        seq![(0usize, 1usize), (1usize, 3usize), (2usize, 3usize)]
    } else if i == 4 {
        seq![(0usize, 1usize), (2usize, 3usize)]
    } else if i == 5 {
        seq![(0usize, 1usize), (0usize, 2usize), (0usize, 3usize)]
    } else if i == 6 {
        seq![(0usize, 1usize)]
    } else {
        Seq::empty()
    }
}

/// Carriers of algorithm `i`.
pub open spec fn spec_carriers(i: int) -> Seq<usize> {
    if i <= 3 {
        seq![3usize]
    } else if i == 4 {
        seq![1usize, 3usize]
    } else if i <= 6 {
        seq![1usize, 2usize, 3usize]
    } else {
        seq![0usize, 1usize, 2usize, 3usize]
    }
}

/// Position of operator `op` in an evaluation order, or 4 when absent.
pub open spec fn position_in(order: Seq<usize>, op: usize) -> int {
    if order.len() > 0 && order[0] == op {
        0
    } else if order.len() > 1 && order[1] == op {
        1
    } else if order.len() > 2 && order[2] == op {
        2
    } else if order.len() > 3 && order[3] == op {
        3
    } else {
        4
    }
}

/// The structural rules every algorithm obeys: at least one carrier, all
/// operator indices below 4, routes only from a lower to a higher operator,
/// the evaluation order a permutation of 0..4, and every modulator evaluated
/// before its target.
pub open spec fn algorithm_well_formed(a: &AlgorithmDef) -> bool {
    &&& a.carriers@.len() > 0
    &&& a.feedback_op < 4
    &&& forall|k: int| 0 <= k < a.carriers@.len() ==> #[trigger] a.carriers@[k] < 4
    &&& forall|k: int|
        0 <= k < a.routes@.len() ==> {
            let r = #[trigger] a.routes@[k];
            r.0 < r.1 && r.1 < 4
        }
    &&& forall|op: usize| op < 4 ==> 0 <= #[trigger] position_in(a.eval_order@, op) < 4
    &&& forall|p: int, q: int|
        0 <= p < q < 4 ==> #[trigger] a.eval_order@[p] != #[trigger] a.eval_order@[q]
    &&& forall|p: int| 0 <= p < 4 ==> #[trigger] a.eval_order@[p] < 4
    &&& forall|k: int|
        0 <= k < a.routes@.len() ==> {
            let r = #[trigger] a.routes@[k];
            position_in(a.eval_order@, r.0) < position_in(a.eval_order@, r.1)
        }
}

/// The wiring of algorithm `index` (0..=7). Every algorithm is well formed.
pub fn algorithm_def(index: usize) -> (a: AlgorithmDef)
    requires
        index < ALGORITHM_COUNT,
    ensures
        a.routes@ == spec_routes(index as int),
        a.carriers@ == spec_carriers(index as int),
        a.feedback_op == 0,
        a.eval_order@ == seq![0usize, 1usize, 2usize, 3usize],
        algorithm_well_formed(&a),
{
    let routes: Vec<ModRoute> = if index == 0 {
        vec![(0, 1), (1, 2), (2, 3)]
    } else if index == 1 {
        vec![(0, 2), (1, 2), (2, 3)]
    } else if index == 2 {
        vec![(0, 3), (1, 2), (2, 3)]
    } else if index == 3 {
        vec![(0, 1), (1, 3), (2, 3)]
    } else if index == 4 {
        vec![(0, 1), (2, 3)]
    } else if index == 5 {
        vec![(0, 1), (0, 2), (0, 3)]
    } else if index == 6 {
        vec![(0, 1)]
    } else {
        Vec::new()
    };
    let carriers: Vec<usize> = if index <= 3 {
        vec![3]
    } else if index == 4 {
        vec![1, 3]
    } else if index <= 6 {
        vec![1, 2, 3]
    } else {
        vec![0, 1, 2, 3]
    };
    let a = AlgorithmDef { routes, feedback_op: 0, carriers, eval_order: [0, 1, 2, 3] };
    assert(a.routes@ =~= spec_routes(index as int));
    assert(a.carriers@ =~= spec_carriers(index as int));
    assert(a.eval_order@ =~= seq![0usize, 1usize, 2usize, 3usize]);
    a
}

} // verus!
