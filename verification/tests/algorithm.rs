use ym38x6::algorithm::{algorithm_def, ALGORITHM_COUNT};

#[test]
fn all_algorithms_have_non_empty_carriers() {
    for i in 0..ALGORITHM_COUNT {
        let algo = algorithm_def(i);
        assert!(!algo.carriers.is_empty(), "algorithm {i} has no carriers");
    }
}

#[test]
fn all_algorithms_have_valid_eval_order() {
    for i in 0..ALGORITHM_COUNT {
        let algo = algorithm_def(i);
        let mut sorted = algo.eval_order;
        sorted.sort();
        assert_eq!(sorted, [0, 1, 2, 3], "algorithm {i} eval_order is not a permutation of 0..4");
    }
}

#[test]
fn all_indices_within_range_and_routes_forward() {
    for i in 0..ALGORITHM_COUNT {
        let algo = algorithm_def(i);
        assert!(algo.feedback_op < 4, "algorithm {i} feedback_op out of range");
        for &c in &algo.carriers {
            assert!(c < 4, "algorithm {i} carrier index out of range");
        }
        for &(from, to) in &algo.routes {
            assert!(from < 4 && to < 4, "algorithm {i} route index out of range");
            assert!(from < to, "algorithm {i} route {from}->{to} should go from lower to higher index");
        }
    }
}

#[test]
fn eval_order_respects_route_dependencies() {
    for i in 0..ALGORITHM_COUNT {
        let algo = algorithm_def(i);
        let mut position = [0usize; 4];
        for (pos, &op) in algo.eval_order.iter().enumerate() {
            position[op] = pos;
        }
        for &(from, to) in &algo.routes {
            assert!(position[from] < position[to], "algorithm {i}: route {from}->{to} violates eval order");
        }
    }
}

#[test]
fn algorithm_7_is_all_parallel() {
    let algo = algorithm_def(7);
    assert!(algo.routes.is_empty());
    assert_eq!(algo.carriers, vec![0, 1, 2, 3]);
}

#[test]
fn routing_table_values() {
    assert_eq!(algorithm_def(0).routes, vec![(0, 1), (1, 2), (2, 3)]);
    assert_eq!(algorithm_def(1).routes, vec![(0, 2), (1, 2), (2, 3)]);
    assert_eq!(algorithm_def(2).routes, vec![(0, 3), (1, 2), (2, 3)]);
    assert_eq!(algorithm_def(3).routes, vec![(0, 1), (1, 3), (2, 3)]);
    assert_eq!(algorithm_def(4).routes, vec![(0, 1), (2, 3)]);
    assert_eq!(algorithm_def(5).routes, vec![(0, 1), (0, 2), (0, 3)]);
    assert_eq!(algorithm_def(6).routes, vec![(0, 1)]);
    assert_eq!(algorithm_def(4).carriers, vec![1, 3]);
    assert_eq!(algorithm_def(5).carriers, vec![1, 2, 3]);
    assert_eq!(algorithm_def(6).carriers, vec![1, 2, 3]);
    for i in 0..4 {
        assert_eq!(algorithm_def(i).carriers, vec![3]);
        assert_eq!(algorithm_def(i).feedback_op, 0);
    }
}
