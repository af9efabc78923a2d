//! Static analysis of SBPF bytecode: instruction decoding, basic-block
//! recovery, lifting to a small intermediate representation, and rendering
//! as pseudocode with an assembly cross-reference.

pub mod analyzer;
pub mod binary;
pub mod decompiler;
pub mod instruction;
pub mod ordered;
pub mod output;
pub mod tally;
pub mod text;
