use ecdsa_circuit::{Event, Operation, Phase, StructuralError};

const OPERATIONS: [Operation; 5] = [
    Operation::Configure,
    Operation::AssignAuxValues,
    Operation::AssignVerification,
    Operation::LoadRangeTable,
    Operation::Finalize,
];

const PHASES: [Phase; 7] = [
    Phase::Unconfigured,
    Phase::Configured,
    Phase::AuxAssigned,
    Phase::Verified,
    Phase::TableLoaded,
    Phase::Finalized,
    Phase::Aborted,
];

#[test]
fn each_phase_has_its_pending_operation() {
    assert_eq!(Phase::Unconfigured.pending(), Some(Operation::Configure));
    assert_eq!(Phase::Configured.pending(), Some(Operation::AssignAuxValues));
    assert_eq!(Phase::AuxAssigned.pending(), Some(Operation::AssignVerification));
    assert_eq!(Phase::Verified.pending(), Some(Operation::LoadRangeTable));
    assert_eq!(Phase::TableLoaded.pending(), Some(Operation::Finalize));
    assert_eq!(Phase::Finalized.pending(), None);
    assert_eq!(Phase::Aborted.pending(), None);
}

#[test]
fn completed_operations_walk_through_the_phases() {
    let mut phase = Phase::Unconfigured;
    for (done, operation) in OPERATIONS.iter().enumerate() {
        assert_eq!(phase, PHASES[done]);
        phase = phase.advance(Event::Completed(*operation)).unwrap();
    }
    assert_eq!(phase, Phase::Finalized);
}

#[test]
fn only_the_pending_operation_is_accepted() {
    for phase in PHASES {
        for operation in OPERATIONS {
            let outcome = phase.advance(Event::Completed(operation));
            match phase.pending() {
                Some(expected) if expected == operation => assert!(outcome.is_ok()),
                Some(expected) => assert_eq!(
                    outcome,
                    Err(StructuralError::OutOfOrder { expected, reported: operation })
                ),
                None => assert_eq!(outcome, Err(StructuralError::Terminated)),
            }
        }
    }
}

#[test]
fn verification_is_accepted_only_after_the_aux_values() {
    for phase in PHASES {
        let outcome = phase.advance(Event::Completed(Operation::AssignVerification));
        assert_eq!(outcome.is_ok(), phase == Phase::AuxAssigned);
    }
    assert_eq!(
        Phase::AuxAssigned.advance(Event::Completed(Operation::AssignVerification)),
        Ok(Phase::Verified)
    );
}

#[test]
fn failure_is_never_accepted() {
    for phase in PHASES {
        for operation in OPERATIONS {
            let outcome = phase.advance(Event::Failed(operation));
            match phase.pending() {
                Some(expected) if expected == operation => {
                    assert_eq!(outcome, Err(StructuralError::Rejected(operation)))
                }
                Some(expected) => assert_eq!(
                    outcome,
                    Err(StructuralError::OutOfOrder { expected, reported: operation })
                ),
                None => assert_eq!(outcome, Err(StructuralError::Terminated)),
            }
        }
    }
}

#[test]
fn event_names_its_operation() {
    assert_eq!(Event::Completed(Operation::LoadRangeTable).operation(), Operation::LoadRangeTable);
    assert_eq!(Event::Failed(Operation::Configure).operation(), Operation::Configure);
}
