//! What holds of every synthesis, whatever the witness and whatever the
//! backend reports.

use crate::circuit::{ActionView, Configuration, EcdsaVerifyCircuit};
use crate::instruction::{held, shapes, statement_at, times_filled, Instruction, Statement};
use crate::params::NUMBER_OF_PAIRS;
use crate::protocol::{in_order, orderly, run, Event, Operation, Phase};
use crate::witness::Witness;
use vstd::prelude::*;

verus! {

/// What the backend is told, report by report, in a synthesis that starts in
/// `start` and takes `events` in turn.
pub open spec fn actions(circuit: EcdsaVerifyCircuit, start: Phase, events: Seq<Event>) -> Seq<
    ActionView,
> {
    Seq::new(
        events.len(),
        |i: int| circuit.spec_action(run(start, events.take(i)), events[i]),
    )
}

/// A synthesis is aborted as soon as a report departs from the order of the
/// operations: configuration, auxiliary values, verification, range table,
/// handing over. As long as the reports keep to it, the phase counts them.
pub proof fn run_keeps_the_order(events: Seq<Event>)
    ensures
        in_order(events) ==> run(Phase::Unconfigured, events) == Phase::reached(events.len()),
        !in_order(events) ==> run(Phase::Unconfigured, events) == Phase::Aborted,
    decreases events.len(),
{
    if events.len() > 0 {
        let before = events.drop_last();
        run_keeps_the_order(before);
        assert(forall|i: int| 0 <= i < before.len() ==> before[i] == events[i]);
        if in_order(events) {
            assert(events.last() == orderly()[events.len() - 1]);
        }
    }
}

/// A synthesis ends well exactly when the five operations have completed,
/// each once and in its turn, and nothing was reported after them.
pub proof fn finalized_exactly_by_the_orderly_run(events: Seq<Event>)
    ensures
        run(Phase::Unconfigured, events) == Phase::Finalized <==> events == orderly(),
{
    run_keeps_the_order(events);
    if in_order(events) && events.len() == 5 {
        assert(events =~= orderly());
    }
    if events == orderly() {
        assert(in_order(events));
    }
}

/// The auxiliary values are assigned before the verification region: where a
/// synthesis that has not been aborted takes the report that the verification
/// region is assigned, the report just before it says that the auxiliary
/// values are.
pub proof fn aux_values_precede_verification(events: Seq<Event>, position: int)
    requires
        0 <= position < events.len(),
        events[position] == Event::Completed(Operation::AssignVerification),
        run(Phase::Unconfigured, events.take(position + 1)) != Phase::Aborted,
    ensures
        position == 2,
        events[position - 1] == Event::Completed(Operation::AssignAuxValues),
        run(Phase::Unconfigured, events.take(position)) == Phase::AuxAssigned,
{
    let upto = events.take(position + 1);
    run_keeps_the_order(upto);
    assert(upto[position] == orderly()[position]);
    assert(upto[position - 1] == orderly()[position - 1]);
    run_keeps_the_order(events.take(position));
}

/// A report that the verification region is assigned is a structural error in
/// every phase but the one in which the auxiliary values have just been
/// assigned.
pub proof fn verification_out_of_turn_is_refused(phase: Phase)
    ensures
        phase.spec_advance(Event::Completed(Operation::AssignVerification)) is Ok <==> phase
            == Phase::AuxAssigned,
        phase != Phase::AuxAssigned ==> phase.after(
            Event::Completed(Operation::AssignVerification),
        ) == Phase::Aborted,
{
}

/// The range tables are loaded once, after both regions: a report that they
/// are loaded is accepted only when the verification region is assigned, and
/// leads to a phase in which a second such report is an error.
pub proof fn range_table_is_loaded_once(phase: Phase)
    ensures
        phase.spec_advance(Event::Completed(Operation::LoadRangeTable)) is Ok <==> phase
            == Phase::Verified,
        phase.after(Event::Completed(Operation::LoadRangeTable)).after(
            Event::Completed(Operation::LoadRangeTable),
        ) == Phase::Aborted,
{
}

/// Whatever the witness holds, valid or not, known or not, a synthesis in
/// which the backend completes every operation runs through the same five
/// steps and ends well: nothing in it is decided by a witness value.
pub proof fn synthesis_completes_whatever_the_witness(circuit: EcdsaVerifyCircuit)
    ensures
        run(Phase::Unconfigured, orderly()) == Phase::Finalized,
        actions(circuit, Phase::Unconfigured, orderly()) == seq![
            ActionView::AssignRegion {
                operation: Operation::AssignAuxValues,
                offset: 0,
                instructions: circuit.aux_instructions(),
            },
            ActionView::AssignRegion {
                operation: Operation::AssignVerification,
                offset: 0,
                instructions: circuit.verification_instructions(),
            },
            ActionView::LoadRangeTable,
            ActionView::Finalize,
            ActionView::Done,
        ],
{
    assert forall|i: int| 0 <= i <= 5 implies run(Phase::Unconfigured, #[trigger] orderly().take(i))
        == Phase::reached(i as nat) by {
        run_keeps_the_order(orderly().take(i));
    }
    assert(orderly().take(5) =~= orderly());
    assert(actions(circuit, Phase::Unconfigured, orderly()) =~= seq![
        ActionView::AssignRegion {
            operation: Operation::AssignAuxValues,
            offset: 0,
            instructions: circuit.aux_instructions(),
        },
        ActionView::AssignRegion {
            operation: Operation::AssignVerification,
            offset: 0,
            instructions: circuit.verification_instructions(),
        },
        ActionView::LoadRangeTable,
        ActionView::Finalize,
        ActionView::Done,
    ]);
}

/// The verification region constrains exactly the triple that the circuit
/// holds: its last instruction verifies the two halves of the circuit's
/// signature against the circuit's key and hash, each assigned once before it,
/// the three scalars as strict remainders; and no other instruction verifies
/// anything.
pub proof fn verification_constrains_the_witness(circuit: EcdsaVerifyCircuit)
    ensures
        statement_at(circuit.verification_instructions(), 4) == Some(
            Statement {
                public_key: circuit.public_key,
                r: circuit.r(),
                s: circuit.s(),
                msg_hash: circuit.msg_hash,
            },
        ),
        forall|position: int|
            position != 4 ==> statement_at(circuit.verification_instructions(), position)
                is None,
        forall|position: int|
            statement_at(circuit.aux_instructions(), position) is None,
{
    let before = circuit.verification_instructions().take(4);
    reveal_with_fuel(held, 5);
    reveal_with_fuel(times_filled, 5);
    let three = before.drop_last();
    let two = three.drop_last();
    let one = two.drop_last();
    assert(one.drop_last().len() == 0);
}

/// Everything is assigned before the verification runs: in the instructions
/// of a synthesis, taken in their order, the auxiliary generator comes first,
/// its multiples for the circuit's window size second, every instruction that
/// prepares auxiliary values before every other, and the one verification
/// last.
pub proof fn witness_is_assigned_before_verification(circuit: EcdsaVerifyCircuit)
    ensures
        circuit.script().len() == 7,
        circuit.script()[0] == (Instruction::AssignAuxGenerator {
            point: Witness::Known(circuit.aux_generator),
        }),
        circuit.script()[1] == (Instruction::AssignAux {
            window_size: circuit.window_size,
            number_of_pairs: NUMBER_OF_PAIRS,
        }),
        forall|i: int, j: int|
            0 <= i < 7 && 0 <= j < 7 && circuit.script()[i].is_auxiliary()
                && !circuit.script()[j].is_auxiliary() ==> i < j,
        forall|i: int| 0 <= i < 7 ==> (circuit.script()[i] is Verify <==> i == 6),
{
}

/// Which instructions a synthesis issues, in which order, into which slots
/// and under which reduction does not depend on the witness: two circuits
/// with the same window size issue instructions of the same shape. So a
/// configuration that serves one witness serves every other.
pub proof fn instructions_have_one_shape(first: EcdsaVerifyCircuit, second: EcdsaVerifyCircuit)
    requires
        first.window_size == second.window_size,
    ensures
        shapes(first.aux_instructions()) == shapes(second.aux_instructions()),
        shapes(first.verification_instructions()) == shapes(second.verification_instructions()),
{
    assert(shapes(first.aux_instructions()) =~= shapes(second.aux_instructions()));
    assert(shapes(first.verification_instructions()) =~= shapes(
        second.verification_instructions(),
    ));
}

/// Dropping the witness keeps the layout: a copy of a circuit in which key,
/// signature and hash are unknown and the auxiliary generator and the window
/// size are the circuit's own prepares the same auxiliary values and verifies
/// in a region of the same shape.
pub proof fn circuit_without_witnesses_keeps_the_layout(
    circuit: EcdsaVerifyCircuit,
    copy: EcdsaVerifyCircuit,
)
    requires
        copy.public_key is Unknown,
        copy.signature is Unknown,
        copy.msg_hash is Unknown,
        copy.aux_generator == circuit.aux_generator,
        copy.window_size == circuit.window_size,
    ensures
        copy.aux_instructions() == circuit.aux_instructions(),
        shapes(copy.verification_instructions()) == shapes(circuit.verification_instructions()),
        copy.verification_instructions() == shapes(circuit.verification_instructions()),
{
    instructions_have_one_shape(copy, circuit);
    assert(copy.verification_instructions() =~= shapes(copy.verification_instructions()));
}

/// The configuration is a function of the static parameters alone: two
/// configurations derived from the same overflow widths hold the same lists.
pub proof fn configuration_is_witness_independent(
    first: Configuration,
    second: Configuration,
    base: Seq<usize>,
    scalar: Seq<usize>,
)
    requires
        first.describes(base, scalar),
        second.describes(base, scalar),
    ensures
        first.composition_bit_lens@ == second.composition_bit_lens@,
        first.overflow_bit_lens@ == second.overflow_bit_lens@,
{
}

/// Synthesis is deterministic: two circuits that hold the same key, signature,
/// hash, auxiliary generator and window size are told the same things after
/// the same reports.
pub proof fn synthesis_is_deterministic(
    first: EcdsaVerifyCircuit,
    second: EcdsaVerifyCircuit,
    start: Phase,
    events: Seq<Event>,
)
    requires
        first.public_key == second.public_key,
        first.signature == second.signature,
        first.msg_hash == second.msg_hash,
        first.aux_generator == second.aux_generator,
        first.window_size == second.window_size,
    ensures
        first.aux_instructions() == second.aux_instructions(),
        first.verification_instructions() == second.verification_instructions(),
        actions(first, start, events) == actions(second, start, events),
{
}

} // verus!
