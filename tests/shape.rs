use hash_chain::{check_shape, noop_gates_needed, CommonShape, HashChainError, MIN_PADDED_GATES};

fn shape() -> CommonShape {
    CommonShape {
        degree_bits: 12,
        num_public_inputs: 77,
        num_constants: 4,
        num_gate_constraints: 123,
        num_partial_products: 9,
        quotient_degree_factor: 8,
        num_gate_types: 11,
    }
}

#[test]
fn pads_small_circuits_to_minimum() {
    assert_eq!(MIN_PADDED_GATES, 4096);
    assert_eq!(noop_gates_needed(0), 4096);
    assert_eq!(noop_gates_needed(100), 3996);
    assert_eq!(noop_gates_needed(4095), 1);
    assert_eq!(noop_gates_needed(4096), 0);
}

#[test]
fn pads_large_circuits_to_next_power_of_two() {
    assert_eq!(noop_gates_needed(4097), 8192 - 4097);
    assert_eq!(noop_gates_needed(8192), 0);
    assert_eq!(noop_gates_needed(10_000), 16384 - 10_000);
    assert_eq!(noop_gates_needed(1 << 20), 0);
}

#[test]
fn equal_shapes_pass() {
    assert!(check_shape(&shape(), &shape()).is_ok());
}

#[test]
fn differing_shapes_are_shape_mismatch() {
    let mut compiled = shape();
    compiled.degree_bits = 13;
    match check_shape(&shape(), &compiled) {
        Err(HashChainError::ShapeMismatch { resolved, compiled: c }) => {
            assert_eq!(resolved, shape());
            assert_eq!(c.degree_bits, 13);
        }
        _ => panic!("expected a shape mismatch"),
    }
}

#[test]
fn sets_public_input_count() {
    let s = shape().with_public_inputs(9 + 68);
    assert_eq!(s.num_public_inputs, 77);
    let t = shape().with_public_inputs(5);
    assert_eq!(t.num_public_inputs, 5);
    assert_eq!(t.degree_bits, 12);
    assert!(check_shape(&shape(), &t).is_err());
}
