//! Orchestration of an in-circuit ECDSA verification over secp256k1.
//!
//! The crate owns the part of the circuit that decides *what* is assigned and
//! *in which order*: the witness container, the parameters handed to the
//! range-check gate, the instructions of the two assignment regions and the
//! phases that synthesis walks through. The gates, the non-native integers and
//! the curve arithmetic belong to the proving backend, which carries out the
//! instructions that this crate issues and reports back how each one ended.

pub mod circuit;
pub mod field;
pub mod instruction;
pub mod laws;
pub mod params;
pub mod protocol;
pub mod witness;

pub use circuit::{Action, Configuration, EcdsaVerifyCircuit};
pub use field::{Point, Scalar};
pub use instruction::{Instruction, Reduction, Slot};
pub use params::{BIT_LEN_LIMB, NUMBER_OF_LIMBS, NUMBER_OF_PAIRS};
pub use protocol::{Event, Operation, Phase, StructuralError};
pub use witness::Witness;
