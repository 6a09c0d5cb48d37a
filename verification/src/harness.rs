//! Support types for a minimal static test harness.
//!
//! A bare-metal build of the test runner cannot use the standard test crate;
//! the compiler instead generates, for each test, a wrapper that passes the
//! test's outcome through [`assert_test_result`] and a static description
//! record built from the types below. The record that pairs a description
//! with the test's wrapper function, and the runner that walks those records
//! and reports to a console, are platform glue and live outside this crate:
//! a function-pointer field cannot be verified.

use vstd::prelude::*;

verus! {

/// Converts the outcome of a test body into the result recorded for its
/// [`StaticTestFn`] wrapper.
pub fn assert_test_result(result: bool) -> (r: bool)
    ensures
        r == result,
{
    result
}

/// Whether a test is expected to panic. Only `No` is used: the harness
/// assumes aborting panics, under which an expected panic cannot be caught.
pub enum ShouldPanic {
    No,
}

/// The name of one test.
pub struct StaticTestName(pub &'static str);

/// Description of one test case.
pub struct TestDesc {
    /// The test may fail without failing the overall suite.
    pub allow_fail: bool,
    /// The test is skipped.
    pub ignore: bool,
    pub name: StaticTestName,
    pub should_panic: ShouldPanic,
    pub test_type: TestType,
}

/// The kind of a test. Only unit tests exist here.
pub enum TestType {
    UnitTest,
}

} // verus!
