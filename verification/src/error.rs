//! The library's error type.
use vstd::prelude::*;
use crate::text::{decimal, push_decimal};

verus! {

/// The ways a simulation can fail.
#[derive(Debug)]
pub enum DanjiError {
    /// GPU initialization failed.
    GpuInit(String),
    /// The Newton-Raphson iteration did not converge at the given sample
    /// (0-based) after the given number of iterations.
    Diverged { sample: usize, iterations: usize },
    /// The nodal matrix is singular at the given node.
    SingularMatrix { node: usize },
    /// The circuit configuration is invalid.
    InvalidCircuit(String),
    /// A numerical computation failed.
    Numerical(String),
    /// An input buffer and an output buffer differ in length.
    BufferSize { expected: usize, actual: usize },
    /// A parameter is invalid.
    InvalidParam(String),
}

/// The human-readable message of each error.
pub open spec fn error_message(e: DanjiError) -> Seq<char> {
    match e {
        DanjiError::GpuInit(msg) => "GPU init failed: "@ + msg@,
        DanjiError::Diverged { sample, iterations } => "Diverged at sample "@ + decimal(
            sample as nat,
        ) + " after "@ + decimal(iterations as nat) + " iterations"@,
        DanjiError::SingularMatrix { node } => "Singular matrix at node "@ + decimal(node as nat),
        DanjiError::InvalidCircuit(msg) => "Invalid circuit: "@ + msg@,
        DanjiError::Numerical(msg) => "Numerical error: "@ + msg@,
        DanjiError::BufferSize { expected, actual } => "Buffer mismatch: expected "@ + decimal(
            expected as nat,
        ) + ", got "@ + decimal(actual as nat),
        DanjiError::InvalidParam(msg) => "Invalid param: "@ + msg@,
    }
}

impl DanjiError {
    /// The human-readable message of this error.
    pub fn message(&self) -> (r: String)
        ensures
            r@ == error_message(*self),
    {
        match self {
            DanjiError::GpuInit(msg) => {
                let mut r = String::from_str("GPU init failed: ");
                r.append(msg.as_str());
                r
            },
            DanjiError::Diverged { sample, iterations } => {
                let mut r = String::from_str("Diverged at sample ");
                push_decimal(&mut r, *sample);
                r.append(" after ");
                push_decimal(&mut r, *iterations);
                r.append(" iterations");
                r
            },
            DanjiError::SingularMatrix { node } => {
                let mut r = String::from_str("Singular matrix at node ");
                push_decimal(&mut r, *node);
                r
            },
            DanjiError::InvalidCircuit(msg) => {
                let mut r = String::from_str("Invalid circuit: ");
                r.append(msg.as_str());
                r
            },
            DanjiError::Numerical(msg) => {
                let mut r = String::from_str("Numerical error: ");
                r.append(msg.as_str());
                r
            },
            DanjiError::BufferSize { expected, actual } => {
                let mut r = String::from_str("Buffer mismatch: expected ");
                push_decimal(&mut r, *expected);
                r.append(", got ");
                push_decimal(&mut r, *actual);
                r
            },
            DanjiError::InvalidParam(msg) => {
                let mut r = String::from_str("Invalid param: ");
                r.append(msg.as_str());
                r
            },
        }
    }
}

/// Checks that an output buffer has the length of its input buffer.
pub fn check_buffer_sizes(input_len: usize, output_len: usize) -> (r: Result<(), DanjiError>)
    ensures
        input_len == output_len ==> r is Ok,
        input_len != output_len ==> (r matches Err(DanjiError::BufferSize { expected, actual })
            && expected == input_len && actual == output_len),
{
    if input_len != output_len {
        Err(DanjiError::BufferSize { expected: input_len, actual: output_len })
    } else {
        Ok(())
    }
}

} // verus!
