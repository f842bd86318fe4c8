//! Build and run configuration shared by the translator and the kernel.
use vstd::prelude::*;

verus! {

/// How guest execution is traced.
#[derive(Debug, Clone, Copy, PartialEq, Eq, Structural)]
pub enum TracingMode {
    /// No tracing.
    Disabled,
    /// Calls inserted at the beginning of blocks write the current program
    /// counter to a shared ring buffer.
    Software,
    /// The `PTWRITE` instruction is used.
    PtWrite,
}

/// The tracing mode the translator is built with.
pub const TRACING_MODE: TracingMode = TracingMode::PtWrite;

/// Which of the kernel's tests run.
#[derive(Debug, PartialEq, Eq)]
pub enum TestConfig {
    /// No test runs.
    Disabled,
    /// Only the named tests run.
    Include(Vec<String>),
    /// Every test runs but the named ones.
    Exclude(Vec<String>),
    /// Every test runs.
    All,
}

/// One instruction of a fuzzing run, with the guest registers before and
/// after it.
#[derive(Debug, Clone, Copy, PartialEq, Eq)]
pub struct InstructionFuzzTest {
    pub test_number: usize,
    pub instruction: u32,
    pub pre_gprs: [u64; 32],
    pub post_gprs: [u64; 32],
    pub pre_fprs: [u128; 32],
    pub post_fprs: [u128; 32],
}

} // verus!
