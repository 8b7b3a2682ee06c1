use cvmodtool::update::{StepAction, UpdateProcedure, UpdateStep};
use cvmodtool::{Progress, UpdateError};

struct TestData;

enum TestStep {
    Continue,
    Complete,
    Cancel,
    Error,
    BadVerify,
}

impl UpdateStep<TestData> for TestStep {
    fn exec(
        &self,
        _data: &mut TestData,
        _progress: &mut Progress,
    ) -> Result<StepAction, UpdateError> {
        match self {
            TestStep::Continue => Ok(StepAction::Continue),
            TestStep::Complete => Ok(StepAction::Complete),
            TestStep::Cancel => Ok(StepAction::Cancel),
            TestStep::Error => Err(UpdateError::Other("Test Error".to_string())),
            TestStep::BadVerify => Ok(StepAction::Continue),
        }
    }

    fn verify(&self, _data: &TestData) -> bool {
        !matches!(self, TestStep::BadVerify)
    }

    fn label(&self, _data: &TestData) -> String {
        "Test Step".to_string()
    }
}

#[test]
fn test_procedure_ok() {
    let mut procedure = UpdateProcedure::new("Procedure Ok".to_string(), TestData);
    procedure.add_step(TestStep::Continue);
    procedure.add_step(TestStep::Continue);
    procedure.add_step(TestStep::Continue);
    assert!(procedure.execute().is_ok());
    assert!(procedure.progress().complete());
}

#[test]
fn test_procedure_cancelled() {
    let mut procedure = UpdateProcedure::new("Procedure Cancelled".to_string(), TestData);
    procedure.add_step(TestStep::Continue);
    procedure.add_step(TestStep::Cancel);
    procedure.add_step(TestStep::Continue);
    assert!(procedure.execute().is_ok());
    assert!(procedure.progress().complete());
}

#[test]
fn test_procedure_err() {
    let mut procedure = UpdateProcedure::new("Procedure Error".to_string(), TestData);
    procedure.add_step(TestStep::Continue);
    procedure.add_step(TestStep::Error);
    procedure.add_step(TestStep::Continue);
    assert!(procedure.execute().is_err());
    assert!(procedure.progress().complete());
}

#[test]
fn test_procedure_early_complete() {
    let mut procedure = UpdateProcedure::new("Procedure Early Complete".to_string(), TestData);
    procedure.add_step(TestStep::Continue);
    procedure.add_step(TestStep::Complete);
    procedure.add_step(TestStep::Error);
    assert!(procedure.execute().is_ok());
    assert!(procedure.progress().complete());
}

#[test]
fn test_procedure_verify_failure() {
    let mut procedure = UpdateProcedure::new("Procedure Verify".to_string(), TestData);
    procedure.add_step(TestStep::Continue);
    procedure.add_step(TestStep::BadVerify);
    procedure.add_step(TestStep::Continue);
    let result = procedure.execute();
    assert!(matches!(result, Err(UpdateError::Verification)));
    assert!(procedure.progress().complete());
}

#[test]
fn test_procedure_error_is_the_steps_own() {
    let mut procedure = UpdateProcedure::new("Procedure Error Value".to_string(), TestData);
    procedure.add_step(TestStep::Error);
    let result = procedure.execute();
    match result {
        Err(UpdateError::Other(message)) => assert_eq!(message, "Test Error"),
        _ => panic!("expected the step's own error"),
    }
}

#[test]
fn test_procedure_empty_succeeds() {
    let mut procedure: UpdateProcedure<TestData, TestStep> =
        UpdateProcedure::new("Procedure Empty".to_string(), TestData);
    assert!(procedure.execute().is_ok());
    assert!(procedure.progress().complete());
}

#[test]
fn test_procedure_accessors() {
    let mut procedure = UpdateProcedure::new("Some Title".to_string(), TestData);
    procedure.add_step(TestStep::Continue);
    assert_eq!(procedure.title().as_str(), "Some Title");
    assert_eq!(procedure.steps().len(), 1);
    assert!(!procedure.progress().complete());
    let _data: &TestData = procedure.data();
}
