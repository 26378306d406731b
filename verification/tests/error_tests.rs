use danji::error::DanjiError;
use danji::{NodeId, TriodeInstance};

#[test]
fn error_messages() {
    assert_eq!(DanjiError::GpuInit("no device".into()).message(), "GPU init failed: no device");
    assert_eq!(
        DanjiError::Diverged { sample: 0, iterations: 100 }.message(),
        "Diverged at sample 0 after 100 iterations"
    );
    assert_eq!(DanjiError::SingularMatrix { node: 7 }.message(), "Singular matrix at node 7");
    assert_eq!(DanjiError::InvalidCircuit("x".into()).message(), "Invalid circuit: x");
    assert_eq!(DanjiError::Numerical("nan".into()).message(), "Numerical error: nan");
    assert_eq!(
        DanjiError::BufferSize { expected: 512, actual: 256 }.message(),
        "Buffer mismatch: expected 512, got 256"
    );
    assert_eq!(DanjiError::InvalidParam("mu".into()).message(), "Invalid param: mu");
}

#[test]
fn node_ids_and_instances() {
    assert_eq!(NodeId(0), NodeId(0));
    assert_ne!(NodeId(1), NodeId(2));
    let t = TriodeInstance { plate: NodeId(3), grid: NodeId(1), cathode: NodeId(2), params_idx: 0 };
    let u = t;
    assert_eq!(t, u);
    assert_eq!(u.plate.0, 3);
}

#[test]
fn buffer_size_check() {
    assert!(danji::error::check_buffer_sizes(4, 4).is_ok());
    match danji::error::check_buffer_sizes(4, 3) {
        Err(DanjiError::BufferSize { expected, actual }) => {
            assert_eq!(expected, 4);
            assert_eq!(actual, 3);
        }
        _ => panic!("expected a buffer size error"),
    }
}
