//! Decoded instructions and the decoder that produces them.

pub mod decoder;

pub use decoder::{
    detect_version_from_instructions, Instruction, InstructionCategory, InstructionDecoder,
};
