//! The phases of synthesis and the order in which its operations may run.

use vstd::prelude::*;

verus! {

/// The operations of one synthesis, in the order in which they must run.
#[derive(Clone, Copy, Debug, PartialEq, Eq, Structural)]
pub enum Operation {
    /// Fix the configuration of the gates for the static parameters.
    Configure,
    /// Assign the auxiliary generator and its multiples.
    AssignAuxValues,
    /// Assign signature, hash and key, and constrain the signature.
    AssignVerification,
    /// Fill the lookup tables of the range-check gate.
    LoadRangeTable,
    /// Hand the finished constraint system to the backend.
    Finalize,
}

/// How far a synthesis has come.
#[derive(Clone, Copy, Debug, PartialEq, Eq, Structural)]
pub enum Phase {
    /// Nothing has happened yet.
    Unconfigured,
    /// The gates are configured.
    Configured,
    /// The auxiliary values are assigned.
    AuxAssigned,
    /// The verification region is assigned.
    Verified,
    /// The range tables are loaded.
    TableLoaded,
    /// The constraint system is handed over.
    Finalized,
    /// A structural error has ended the synthesis.
    Aborted,
}

/// What the backend reports of an operation.
#[derive(Clone, Copy, Debug, PartialEq, Eq, Structural)]
pub enum Event {
    /// The operation has run to its end.
    Completed(Operation),
    /// The backend has refused the operation.
    Failed(Operation),
}

/// Why a synthesis was aborted. That a signature does not verify is no such
/// error: it shows only when the backend looks for a satisfying assignment.
#[derive(Clone, Copy, Debug, PartialEq, Eq, Structural)]
pub enum StructuralError {
    /// A report about an operation other than the one that was due.
    OutOfOrder { expected: Operation, reported: Operation },
    /// The backend has refused the operation that was due.
    Rejected(Operation),
    /// A report after the synthesis had ended.
    Terminated,
}

impl Event {
    /// The operation that the report is about.
    pub open spec fn spec_operation(self) -> Operation {
        match self {
            Event::Completed(operation) => operation,
            Event::Failed(operation) => operation,
        }
    }

    /// The operation that the report is about.
    #[verifier::when_used_as_spec(spec_operation)]
    pub fn operation(self) -> (operation: Operation)
        ensures
            operation == self.spec_operation(),
    {
        match self {
            Event::Completed(operation) => operation,
            Event::Failed(operation) => operation,
        }
    }
}

impl Phase {
    /// The phase in which `completed` operations have completed in their turn.
    pub open spec fn reached(completed: nat) -> Phase {
        if completed == 0 {
            Phase::Unconfigured
        } else if completed == 1 {
            Phase::Configured
        } else if completed == 2 {
            Phase::AuxAssigned
        } else if completed == 3 {
            Phase::Verified
        } else if completed == 4 {
            Phase::TableLoaded
        } else {
            Phase::Finalized
        }
    }

    /// The operation that is due in this phase, if the synthesis has not ended.
    pub open spec fn spec_pending(self) -> Option<Operation> {
        match self {
            Phase::Unconfigured => Some(Operation::Configure),
            Phase::Configured => Some(Operation::AssignAuxValues),
            Phase::AuxAssigned => Some(Operation::AssignVerification),
            Phase::Verified => Some(Operation::LoadRangeTable),
            Phase::TableLoaded => Some(Operation::Finalize),
            Phase::Finalized => None,
            Phase::Aborted => None,
        }
    }

    /// The operation that is due in this phase, if the synthesis has not ended.
    #[verifier::when_used_as_spec(spec_pending)]
    pub fn pending(self) -> (operation: Option<Operation>)
        ensures
            operation == self.spec_pending(),
    {
        match self {
            Phase::Unconfigured => Some(Operation::Configure),
            Phase::Configured => Some(Operation::AssignAuxValues),
            Phase::AuxAssigned => Some(Operation::AssignVerification),
            Phase::Verified => Some(Operation::LoadRangeTable),
            Phase::TableLoaded => Some(Operation::Finalize),
            Phase::Finalized => None,
            Phase::Aborted => None,
        }
    }

    /// The phase that follows when the operation that is due has completed.
    pub open spec fn successor(self) -> Phase {
        match self {
            Phase::Unconfigured => Phase::Configured,
            Phase::Configured => Phase::AuxAssigned,
            Phase::AuxAssigned => Phase::Verified,
            Phase::Verified => Phase::TableLoaded,
            Phase::TableLoaded => Phase::Finalized,
            Phase::Finalized => Phase::Aborted,
            Phase::Aborted => Phase::Aborted,
        }
    }

    /// What a report leads to: the next phase where it says that the operation
    /// that was due has completed, and the error that aborts the synthesis
    /// otherwise.
    pub open spec fn spec_advance(self, event: Event) -> Result<Phase, StructuralError> {
        match self.spec_pending() {
            None => Err(StructuralError::Terminated),
            Some(expected) => {
                if event.spec_operation() != expected {
                    Err(StructuralError::OutOfOrder { expected, reported: event.spec_operation() })
                } else if event is Failed {
                    Err(StructuralError::Rejected(expected))
                } else {
                    Ok(self.successor())
                }
            },
        }
    }

    /// Takes a report of the backend. The synthesis moves on by one phase where
    /// the report says that the operation that was due has completed; every
    /// other report is a structural error.
    pub fn advance(self, event: Event) -> (next: Result<Phase, StructuralError>)
        ensures
            next == self.spec_advance(event),
    {
        match self.pending() {
            None => Err(StructuralError::Terminated),
            Some(expected) => {
                let reported = event.operation();
                if reported != expected {
                    Err(StructuralError::OutOfOrder { expected, reported })
                } else {
                    match event {
                        Event::Failed(_) => Err(StructuralError::Rejected(expected)),
                        Event::Completed(_) => Ok(
                            match self {
                                Phase::Unconfigured => Phase::Configured,
                                Phase::Configured => Phase::AuxAssigned,
                                Phase::AuxAssigned => Phase::Verified,
                                Phase::Verified => Phase::TableLoaded,
                                _ => Phase::Finalized,
                            },
                        ),
                    }
                }
            },
        }
    }

    /// The phase after a report: the next phase, or `Aborted` on an error.
    pub open spec fn after(self, event: Event) -> Phase {
        match self.spec_advance(event) {
            Ok(next) => next,
            Err(_) => Phase::Aborted,
        }
    }
}

/// The phase that a synthesis is in when it has started in `start` and taken
/// `events` in turn.
pub open spec fn run(start: Phase, events: Seq<Event>) -> Phase
    decreases events.len(),
{
    if events.len() == 0 {
        start
    } else {
        run(start, events.drop_last()).after(events.last())
    }
}

/// The reports of a synthesis in which every operation completes in its turn.
pub open spec fn orderly() -> Seq<Event> {
    seq![
        Event::Completed(Operation::Configure),
        Event::Completed(Operation::AssignAuxValues),
        Event::Completed(Operation::AssignVerification),
        Event::Completed(Operation::LoadRangeTable),
        Event::Completed(Operation::Finalize),
    ]
}

/// Whether `events` are the first reports of a synthesis in which every
/// operation completes in its turn.
pub open spec fn in_order(events: Seq<Event>) -> bool {
    &&& events.len() <= orderly().len()
    &&& forall|i: int| 0 <= i < events.len() ==> events[i] == orderly()[i]
}

} // verus!
