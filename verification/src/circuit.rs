//! The witness container and the three things that are done with it: dropping
//! the witness values, configuring the gates, and synthesis.

use crate::field::{Point, Scalar};
use crate::instruction::{Instruction, Reduction, Slot};
use crate::params::{composition_bit_len, spec_composition_bit_len, NUMBER_OF_PAIRS};
use crate::protocol::{Event, Operation, Phase, StructuralError};
use crate::witness::Witness;
use vstd::prelude::*;

verus! {

/// What one proof is about: a candidate public key, a candidate signature and
/// a candidate message hash, with the two constants that shape the circuit.
#[derive(Clone, Copy, Debug, PartialEq, Eq)]
pub struct EcdsaVerifyCircuit {
    /// The key that is claimed to have signed.
    pub public_key: Witness<Point>,
    /// The signature `(r, s)`.
    pub signature: Witness<(Scalar, Scalar)>,
    /// The hash that is claimed to be signed.
    pub msg_hash: Witness<Scalar>,
    /// The point that masks scalar multiplication. It is no secret and does
    /// not bear on what is proved.
    pub aux_generator: Point,
    /// Width in bits of the windows of scalar multiplication.
    pub window_size: usize,
}

/// What the gates are configured with. The arithmetic gate takes no parameter;
/// the range-check gate, which serves both non-native contexts, takes these
/// two lists.
#[derive(Debug, PartialEq, Eq)]
pub struct Configuration {
    /// Widths of the chunks into which limbs are cut.
    pub composition_bit_lens: Vec<usize>,
    /// Widths that the most significant limbs may overflow to: those of the
    /// base field first, then those of the scalar field.
    pub overflow_bit_lens: Vec<usize>,
}

/// What the backend is to do next.
#[derive(Debug, PartialEq, Eq)]
pub enum Action {
    /// Open a region of its own at `offset` and carry out `instructions` in
    /// it, in order; then report on `operation`.
    AssignRegion { operation: Operation, offset: usize, instructions: Vec<Instruction> },
    /// Fill the lookup tables of the range-check gate; then report on
    /// `LoadRangeTable`.
    LoadRangeTable,
    /// Nothing is left to assign: hand the constraint system over; then
    /// report on `Finalize`.
    Finalize,
    /// The synthesis has ended well.
    Done,
    /// The synthesis has ended with a structural error.
    Abort(StructuralError),
}

/// An [`Action`] with its instructions as a sequence.
pub enum ActionView {
    AssignRegion { operation: Operation, offset: usize, instructions: Seq<Instruction> },
    LoadRangeTable,
    Finalize,
    Done,
    Abort(StructuralError),
}

impl View for Action {
    type V = ActionView;

    open spec fn view(&self) -> ActionView {
        match *self {
            Action::AssignRegion { operation, offset, instructions } => ActionView::AssignRegion {
                operation,
                offset,
                instructions: instructions@,
            },
            Action::LoadRangeTable => ActionView::LoadRangeTable,
            Action::Finalize => ActionView::Finalize,
            Action::Done => ActionView::Done,
            Action::Abort(error) => ActionView::Abort(error),
        }
    }
}

/// First half of a signature.
fn first_half(signature: (Scalar, Scalar)) -> (r: Scalar)
    ensures
        r == signature.0,
{
    signature.0
}

/// Second half of a signature.
fn second_half(signature: (Scalar, Scalar)) -> (s: Scalar)
    ensures
        s == signature.1,
{
    signature.1
}

impl Configuration {
    /// The configuration for the given overflow widths of the two non-native
    /// contexts.
    pub open spec fn describes(self, base: Seq<usize>, scalar: Seq<usize>) -> bool {
        &&& self.composition_bit_lens@ == seq![spec_composition_bit_len() as usize]
        &&& self.overflow_bit_lens@ == base + scalar
    }
}

impl EcdsaVerifyCircuit {
    /// The circuit that nothing has been put into: nothing known, the
    /// identity as auxiliary generator, no window.
    pub open spec fn blank() -> Self {
        EcdsaVerifyCircuit {
            public_key: Witness::Unknown,
            signature: Witness::Unknown,
            msg_hash: Witness::Unknown,
            aux_generator: Point::spec_identity(),
            window_size: 0,
        }
    }

    /// First half of the signature.
    pub open spec fn r(self) -> Witness<Scalar> {
        match self.signature {
            Witness::Known(signature) => Witness::Known(signature.0),
            Witness::Unknown => Witness::Unknown,
        }
    }

    /// Second half of the signature.
    pub open spec fn s(self) -> Witness<Scalar> {
        match self.signature {
            Witness::Known(signature) => Witness::Known(signature.1),
            Witness::Unknown => Witness::Unknown,
        }
    }

    /// The instructions of the region that prepares the auxiliary values.
    pub open spec fn aux_instructions(self) -> Seq<Instruction> {
        seq![
            Instruction::AssignAuxGenerator { point: Witness::Known(self.aux_generator) },
            Instruction::AssignAux {
                window_size: self.window_size,
                number_of_pairs: NUMBER_OF_PAIRS,
            },
        ]
    }

    /// The instructions of the region that verifies the signature.
    pub open spec fn verification_instructions(self) -> Seq<Instruction> {
        seq![
            Instruction::AssignInteger {
                value: self.r(),
                reduction: Reduction::Remainder,
                into: Slot::SignatureR,
            },
            Instruction::AssignInteger {
                value: self.s(),
                reduction: Reduction::Remainder,
                into: Slot::SignatureS,
            },
            Instruction::AssignInteger {
                value: self.msg_hash,
                reduction: Reduction::Remainder,
                into: Slot::MessageHash,
            },
            Instruction::AssignPoint { point: self.public_key, into: Slot::PublicKey },
            Instruction::Verify {
                r: Slot::SignatureR,
                s: Slot::SignatureS,
                public_key: Slot::PublicKey,
                msg_hash: Slot::MessageHash,
            },
        ]
    }

    /// Every instruction of a synthesis, in the order in which the regions
    /// are assigned.
    pub open spec fn script(self) -> Seq<Instruction> {
        self.aux_instructions() + self.verification_instructions()
    }

    /// What the backend is to do once `event` has been reported in `phase`.
    pub open spec fn spec_action(self, phase: Phase, event: Event) -> ActionView {
        match phase.spec_advance(event) {
            Err(error) => ActionView::Abort(error),
            Ok(Phase::Configured) => ActionView::AssignRegion {
                operation: Operation::AssignAuxValues,
                offset: 0,
                instructions: self.aux_instructions(),
            },
            Ok(Phase::AuxAssigned) => ActionView::AssignRegion {
                operation: Operation::AssignVerification,
                offset: 0,
                instructions: self.verification_instructions(),
            },
            Ok(Phase::Verified) => ActionView::LoadRangeTable,
            Ok(Phase::TableLoaded) => ActionView::Finalize,
            Ok(_) => ActionView::Done,
        }
    }

    /// A copy of the circuit without its witness: key, signature and hash are
    /// unknown, and the two constants that shape the circuit are kept, so that
    /// the copy is laid out as the circuit is.
    pub fn without_witnesses(&self) -> (circuit: Self)
        ensures
            circuit.public_key is Unknown,
            circuit.signature is Unknown,
            circuit.msg_hash is Unknown,
            circuit.aux_generator == self.aux_generator,
            circuit.window_size == self.window_size,
    {
        EcdsaVerifyCircuit {
            public_key: Witness::unknown(),
            signature: Witness::unknown(),
            msg_hash: Witness::unknown(),
            aux_generator: self.aux_generator,
            window_size: self.window_size,
        }
    }

    /// Derives the configuration of the gates from the overflow widths that
    /// the base-field and the scalar-field context ask for. No witness enters.
    pub fn configure(
        base_overflow_lengths: Vec<usize>,
        scalar_overflow_lengths: Vec<usize>,
    ) -> (config: Configuration)
        ensures
            config.describes(base_overflow_lengths@, scalar_overflow_lengths@),
            config.composition_bit_lens@ == seq![17usize],
    {
        let mut base = base_overflow_lengths;
        let mut scalar = scalar_overflow_lengths;
        let mut overflow_bit_lens: Vec<usize> = Vec::new();
        overflow_bit_lens.append(&mut base);
        overflow_bit_lens.append(&mut scalar);
        let mut composition_bit_lens: Vec<usize> = Vec::new();
        composition_bit_lens.push(composition_bit_len());
        proof {
            assert(overflow_bit_lens@ =~= base_overflow_lengths@ + scalar_overflow_lengths@);
            assert(composition_bit_lens@ =~= seq![17usize]);
        }
        Configuration { composition_bit_lens, overflow_bit_lens }
    }

    /// The instructions of the region that prepares the auxiliary values: the
    /// auxiliary generator, then its multiples.
    pub fn assign_aux_values(&self) -> (instructions: Vec<Instruction>)
        ensures
            instructions@ == self.aux_instructions(),
    {
        let mut instructions: Vec<Instruction> = Vec::new();
        instructions.push(
            Instruction::AssignAuxGenerator { point: Witness::known(self.aux_generator) },
        );
        instructions.push(
            Instruction::AssignAux {
                window_size: self.window_size,
                number_of_pairs: NUMBER_OF_PAIRS,
            },
        );
        proof {
            assert(instructions@ =~= self.aux_instructions());
        }
        instructions
    }

    /// The instructions of the region that verifies the signature: both
    /// halves of the signature and the hash as strict remainders, the key as
    /// a point, then the verification of what was assigned.
    pub fn assign_verification(&self) -> (instructions: Vec<Instruction>)
        ensures
            instructions@ == self.verification_instructions(),
    {
        let r = self.signature.map(first_half);
        let s = self.signature.map(second_half);
        let mut instructions: Vec<Instruction> = Vec::new();
        instructions.push(
            Instruction::AssignInteger {
                value: r,
                reduction: Reduction::Remainder,
                into: Slot::SignatureR,
            },
        );
        instructions.push(
            Instruction::AssignInteger {
                value: s,
                reduction: Reduction::Remainder,
                into: Slot::SignatureS,
            },
        );
        instructions.push(
            Instruction::AssignInteger {
                value: self.msg_hash,
                reduction: Reduction::Remainder,
                into: Slot::MessageHash,
            },
        );
        instructions.push(Instruction::AssignPoint { point: self.public_key, into: Slot::PublicKey });
        instructions.push(
            Instruction::Verify {
                r: Slot::SignatureR,
                s: Slot::SignatureS,
                public_key: Slot::PublicKey,
                msg_hash: Slot::MessageHash,
            },
        );
        proof {
            assert(instructions@ =~= self.verification_instructions());
        }
        instructions
    }

    /// One step of synthesis: takes the report of the backend on the last
    /// operation and says which phase follows and what the backend is to do
    /// next. The witness decides nothing but the values that the instructions
    /// carry.
    pub fn synthesize(&self, phase: Phase, event: Event) -> (step: (Phase, Action))
        ensures
            step.0 == phase.after(event),
            step.1@ == self.spec_action(phase, event),
    {
        match phase.advance(event) {
            Err(error) => (Phase::Aborted, Action::Abort(error)),
            Ok(next) => {
                let action = match next {
                    Phase::Configured => Action::AssignRegion {
                        operation: Operation::AssignAuxValues,
                        offset: 0,
                        instructions: self.assign_aux_values(),
                    },
                    Phase::AuxAssigned => Action::AssignRegion {
                        operation: Operation::AssignVerification,
                        offset: 0,
                        instructions: self.assign_verification(),
                    },
                    Phase::Verified => Action::LoadRangeTable,
                    Phase::TableLoaded => Action::Finalize,
                    _ => Action::Done,
                };
                (next, action)
            },
        }
    }
}

impl Default for EcdsaVerifyCircuit {
    fn default() -> (circuit: Self)
        ensures
            circuit == Self::blank(),
    {
        EcdsaVerifyCircuit {
            public_key: Witness::unknown(),
            signature: Witness::unknown(),
            msg_hash: Witness::unknown(),
            aux_generator: Point::identity(),
            window_size: 0,
        }
    }
}

} // verus!
