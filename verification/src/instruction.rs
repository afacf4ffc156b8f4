//! The instructions that an assignment region is made of, and what a sequence
//! of them constrains.

use crate::field::{Point, Scalar};
use crate::witness::Witness;
use vstd::prelude::*;

verus! {

/// How far an assigned integer is constrained.
#[derive(Clone, Copy, Debug, PartialEq, Eq, Structural)]
pub enum Reduction {
    /// A strict remainder: every limb is range-checked and the whole value is
    /// constrained to lie below the modulus.
    Remainder,
    /// An operand of a later reduction: bounded, but possibly above the
    /// modulus.
    Operand,
    /// A quotient of a multiplication.
    MulQuotient,
    /// Limbs of the right width, with no bound on the whole value.
    Unreduced,
}

/// The places in which a region keeps what it has assigned.
#[derive(Clone, Copy, Debug, PartialEq, Eq, Structural)]
pub enum Slot {
    /// First half of the signature.
    SignatureR,
    /// Second half of the signature.
    SignatureS,
    /// The message hash.
    MessageHash,
    /// The public key.
    PublicKey,
}

/// One call into the backend.
#[derive(Clone, Copy, Debug, PartialEq, Eq)]
pub enum Instruction {
    /// Fix the auxiliary generator that masks scalar multiplication.
    AssignAuxGenerator { point: Witness<Point> },
    /// Derive the auxiliary multiples for `number_of_pairs` scalar
    /// multiplications with windows of `window_size` bits.
    AssignAux { window_size: usize, number_of_pairs: usize },
    /// Assign a scalar as a limb-decomposed integer and keep it in `into`.
    AssignInteger { value: Witness<Scalar>, reduction: Reduction, into: Slot },
    /// Assign a curve point, constrained to lie on the curve and to differ
    /// from the identity, and keep it in `into`.
    AssignPoint { point: Witness<Point>, into: Slot },
    /// Constrain the signature kept in `r` and `s` to be valid for the key kept
    /// in `public_key` and the hash kept in `msg_hash`.
    Verify { r: Slot, s: Slot, public_key: Slot, msg_hash: Slot },
}

/// What a slot holds.
pub enum Assigned {
    /// An integer with the reduction it was assigned under.
    Integer { value: Witness<Scalar>, reduction: Reduction },
    /// A curve point.
    Point { point: Witness<Point> },
}

/// The triple that a verification constrains.
pub struct Statement {
    /// The key that signed.
    pub public_key: Witness<Point>,
    /// First half of the signature.
    pub r: Witness<Scalar>,
    /// Second half of the signature.
    pub s: Witness<Scalar>,
    /// The hash that was signed.
    pub msg_hash: Witness<Scalar>,
}

impl Instruction {
    /// The slot that the instruction fills and what it puts there, if it fills
    /// one.
    pub open spec fn assignment(self) -> Option<(Slot, Assigned)> {
        match self {
            Instruction::AssignInteger { value, reduction, into } => Some(
                (into, Assigned::Integer { value, reduction }),
            ),
            Instruction::AssignPoint { point, into } => Some((into, Assigned::Point { point })),
            _ => None,
        }
    }

    /// Whether the instruction belongs to the preparation of the auxiliary
    /// values.
    pub open spec fn is_auxiliary(self) -> bool {
        self is AssignAuxGenerator || self is AssignAux
    }

    /// The instruction without the witness values it carries.
    pub open spec fn spec_shape(self) -> Instruction {
        match self {
            Instruction::AssignAuxGenerator { .. } => Instruction::AssignAuxGenerator {
                point: Witness::Unknown,
            },
            Instruction::AssignInteger { reduction, into, .. } => Instruction::AssignInteger {
                value: Witness::Unknown,
                reduction,
                into,
            },
            Instruction::AssignPoint { into, .. } => Instruction::AssignPoint {
                point: Witness::Unknown,
                into,
            },
            other => other,
        }
    }

    /// The instruction without the witness values it carries: what is left is
    /// what the layout of the circuit depends on.
    #[verifier::when_used_as_spec(spec_shape)]
    pub fn shape(self) -> (shape: Instruction)
        ensures
            shape == self.spec_shape(),
    {
        match self {
            Instruction::AssignAuxGenerator { .. } => Instruction::AssignAuxGenerator {
                point: Witness::Unknown,
            },
            Instruction::AssignInteger { reduction, into, .. } => Instruction::AssignInteger {
                value: Witness::Unknown,
                reduction,
                into,
            },
            Instruction::AssignPoint { into, .. } => Instruction::AssignPoint {
                point: Witness::Unknown,
                into,
            },
            other => other,
        }
    }
}

/// What `slot` holds once `instructions` have run: what the last instruction
/// that fills it has put there.
pub open spec fn held(instructions: Seq<Instruction>, slot: Slot) -> Option<Assigned>
    decreases instructions.len(),
{
    if instructions.len() == 0 {
        None
    } else {
        match instructions.last().assignment() {
            Some((into, assigned)) if into == slot => Some(assigned),
            _ => held(instructions.drop_last(), slot),
        }
    }
}

/// How many of `instructions` fill `slot`.
pub open spec fn times_filled(instructions: Seq<Instruction>, slot: Slot) -> nat
    decreases instructions.len(),
{
    if instructions.len() == 0 {
        0
    } else {
        let before = times_filled(instructions.drop_last(), slot);
        match instructions.last().assignment() {
            Some((into, _)) if into == slot => before + 1,
            _ => before,
        }
    }
}

/// The statement that the instruction at `position` constrains: it is a
/// verification, and the four slots it reads each hold, filled exactly once by
/// the instructions before it, a strict remainder or a point as the
/// verification expects.
pub open spec fn statement_at(instructions: Seq<Instruction>, position: int) -> Option<Statement> {
    if 0 <= position < instructions.len() {
        let before = instructions.take(position);
        match instructions[position] {
            Instruction::Verify { r, s, public_key, msg_hash } => {
                match (
                    held(before, r),
                    held(before, s),
                    held(before, public_key),
                    held(before, msg_hash),
                ) {
                    (
                        Some(Assigned::Integer { value: r_value, reduction: Reduction::Remainder }),
                        Some(Assigned::Integer { value: s_value, reduction: Reduction::Remainder }),
                        Some(Assigned::Point { point }),
                        Some(
                            Assigned::Integer { value: hash_value, reduction: Reduction::Remainder },
                        ),
                    ) => {
                        if times_filled(before, r) == 1 && times_filled(before, s) == 1
                            && times_filled(before, public_key) == 1 && times_filled(
                            before,
                            msg_hash,
                        ) == 1 {
                            Some(
                                Statement {
                                    public_key: point,
                                    r: r_value,
                                    s: s_value,
                                    msg_hash: hash_value,
                                },
                            )
                        } else {
                            None
                        }
                    },
                    _ => None,
                }
            },
            _ => None,
        }
    } else {
        None
    }
}

/// The instructions without the witness values they carry.
pub open spec fn shapes(instructions: Seq<Instruction>) -> Seq<Instruction> {
    instructions.map_values(|instruction: Instruction| instruction.spec_shape())
}

} // verus!
