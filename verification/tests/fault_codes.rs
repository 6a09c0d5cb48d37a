use dcrypto::ProgramFault;
use dcrypto::harness::ShouldPanic;
use dcrypto::harness::StaticTestName;
use dcrypto::harness::TestDesc;
use dcrypto::harness::TestType;
use dcrypto::harness::assert_test_result;

#[test]
fn every_fault_has_its_stable_code() {
    assert_eq!(usize::from(ProgramFault::Break), 7);
    assert_eq!(usize::from(ProgramFault::DataAccess), 5);
    assert_eq!(usize::from(ProgramFault::LoopOverflow), 3);
    assert_eq!(usize::from(ProgramFault::LoopUnderflow), 4);
    assert_eq!(usize::from(ProgramFault::ModOperandRange), 11);
    assert_eq!(usize::from(ProgramFault::StackOverflow), 2);
    assert_eq!(usize::from(ProgramFault::Fault), 10);
    assert_eq!(usize::from(ProgramFault::Trap), 8);
    assert_eq!(usize::from(ProgramFault::Unknown), 12);
}

#[test]
fn assert_test_result_passes_the_outcome_through() {
    assert!(assert_test_result(true));
    assert!(!assert_test_result(false));
}

#[test]
fn test_descriptions_carry_their_fields() {
    let desc = TestDesc {
        allow_fail: false,
        ignore: true,
        name: StaticTestName("sample"),
        should_panic: ShouldPanic::No,
        test_type: TestType::UnitTest,
    };
    assert!(!desc.allow_fail);
    assert!(desc.ignore);
    assert_eq!(desc.name.0, "sample");
    assert!(matches!(desc.should_panic, ShouldPanic::No));
    assert!(matches!(desc.test_type, TestType::UnitTest));
}
