//! Summary statistics of a program.

pub mod instructions;
pub mod metadata;
pub mod syscalls;

use crate::analyzer::instructions::{stats_of, InstructionStats, StatsModel};
use crate::analyzer::metadata::{metadata_of, Metadata};
use crate::analyzer::syscalls::{syscalls_of, SyscallInfo, SyscallModel};
use crate::binary::SbpfBinary;
use crate::instruction::decoder::{decode_seq, InstructionDecoder};
use vstd::prelude::*;

verus! {

/// Everything the analysis finds out about a program.
#[derive(Debug, Clone)]
pub struct Analysis {
    pub metadata: Metadata,
    pub instruction_stats: InstructionStats,
    pub syscall_info: SyscallInfo,
}

/// What an analysis holds.
pub struct AnalysisModel {
    pub metadata: Metadata,
    pub instruction_stats: StatsModel,
    pub syscall_info: SyscallModel,
}

impl DeepView for Analysis {
    type V = AnalysisModel;

    open spec fn deep_view(&self) -> AnalysisModel {
        AnalysisModel {
            metadata: self.metadata,
            instruction_stats: self.instruction_stats.deep_view(),
            syscall_info: self.syscall_info.deep_view(),
        }
    }
}

/// The analysis of a program: its metadata and the statistics of the
/// instructions decoded from its code.
pub open spec fn analysis_of(binary: SbpfBinary) -> AnalysisModel {
    let insts = decode_seq(binary.bytecode@);
    AnalysisModel {
        metadata: metadata_of(
            binary.bytecode@.len(),
            binary.entry_point,
            binary.version,
            binary.metadata@.len(),
            insts.len(),
        ),
        instruction_stats: stats_of(insts),
        syscall_info: syscalls_of(insts),
    }
}

/// Analyzes a program.
pub fn analyze(binary: &SbpfBinary) -> (analysis: Analysis)
    ensures
        analysis.deep_view() == analysis_of(*binary),
{
    let decoder = InstructionDecoder::new(binary.version);
    let instructions = decoder.decode_all(binary.bytecode.as_slice());
    Analysis {
        metadata: metadata::extract(binary, instructions.as_slice()),
        instruction_stats: instructions::analyze(instructions.as_slice()),
        syscall_info: syscalls::analyze(instructions.as_slice()),
    }
}

} // verus!
