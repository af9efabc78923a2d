//! An analysis as indented text sections.

use crate::analyzer::instructions::{named_counts, ControlFlowInfo, ControlFlowModel};
use crate::analyzer::instructions::{InstructionStats, StatsModel};
use crate::analyzer::metadata::Metadata;
use crate::analyzer::syscalls::{syscall_name, syscall_name_text, SyscallInfo, SyscallModel};
use crate::analyzer::{Analysis, AnalysisModel};
use crate::binary::SbpfVersion;
use crate::instruction::decoder::InstructionCategory;
use crate::output::ranking::{lemma_ranked_by_count, rank_by_count, ranked_by_count, Entry};
use crate::output::OutputFormatter;
use crate::text::{dec_nat, hex_nat, push_dec_u64, push_dec_usize, push_hex_u64};
use vstd::prelude::*;
use vstd::string::StringExecFns;

verus! {

broadcast use vstd::std_specs::hash::group_hash_axioms;

/// How many opcodes the statistics section lists at most.
pub const TOP_OPCODES: usize = 10;

/// Renders an analysis as text.
pub struct TextFormatter;

/// The name of a revision.
pub open spec fn version_text(v: SbpfVersion) -> Seq<char> {
    match v {
        SbpfVersion::V0 => "V0"@,
        SbpfVersion::V1 => "V1"@,
        SbpfVersion::V2 => "V2"@,
        SbpfVersion::V3 => "V3"@,
    }
}

/// The name of a category.
pub open spec fn category_text(c: InstructionCategory) -> Seq<char> {
    match c {
        InstructionCategory::LoadStore => "LoadStore"@,
        InstructionCategory::Arithmetic => "Arithmetic"@,
        InstructionCategory::Logic => "Logic"@,
        InstructionCategory::ControlFlow => "ControlFlow"@,
        InstructionCategory::Misc => "Misc"@,
    }
}

/// The metadata section of the report.
pub open spec fn metadata_text(m: Metadata) -> Seq<char> {
    "## Metadata\n"@ + "Program Size: "@ + dec_nat(m.program_size as nat) + " bytes\n"@
        + "Entry Point: 0x"@ + hex_nat(m.entry_point as nat) + "\n"@ + "Instruction Count: "@
        + dec_nat(m.instruction_count as nat) + "\n"@ + (match m.version {
        Some(v) => "SBPF Version: "@ + version_text(v) + "\n"@,
        None => "SBPF Version: Unknown\n"@,
    }) + "Metadata Sections: "@ + dec_nat(m.metadata_sections as nat) + "\n"@ + "\n"@
}

/// One line of a count table: the name and the count, indented.
pub open spec fn count_line(name: Seq<char>, count: usize) -> Seq<char> {
    "  "@ + name + ": "@ + dec_nat(count as nat) + "\n"@
}

/// The lines of the first `n` categories.
pub open spec fn category_lines(counts: Seq<(InstructionCategory, usize)>, n: int) -> Seq<char>
    decreases n,
{
    if n <= 0 {
        Seq::empty()
    } else {
        category_lines(counts, n - 1) + count_line(category_text(counts[n - 1].0), counts[n - 1].1)
    }
}

/// The lines of the first `n` entries of a count table.
pub open spec fn entry_lines(entries: Seq<Entry>, n: int) -> Seq<char>
    decreases n,
{
    if n <= 0 {
        Seq::empty()
    } else {
        entry_lines(entries, n - 1) + count_line(entries[n - 1].0, entries[n - 1].1)
    }
}

/// How many opcodes are listed: all of them, up to ten.
pub open spec fn listed_opcodes(entries: Seq<Entry>) -> int {
    if entries.len() > 10 {
        10
    } else {
        entries.len() as int
    }
}

/// The statistics section of the report: the total, every category that
/// occurs, and the ten most frequent opcodes, most frequent first.
pub open spec fn statistics_text(s: StatsModel) -> Seq<char> {
    "## Instruction Statistics\n"@ + "Total Instructions: "@ + dec_nat(s.total as nat) + "\n"@
        + "\nBy Category:\n"@ + category_lines(s.by_category, s.by_category.len() as int)
        + "\nBy Opcode:\n"@ + entry_lines(
        ranked_by_count(s.by_opcode),
        listed_opcodes(s.by_opcode),
    ) + "\n"@
}

/// The control-flow section of the report.
pub open spec fn control_flow_text(c: ControlFlowModel) -> Seq<char> {
    "## Control Flow\n"@ + "Jumps: "@ + dec_nat(c.jumps as nat) + "\n"@ + "Calls: "@ + dec_nat(
        c.calls as nat,
    ) + "\n"@ + "Exits: "@ + dec_nat(c.exits as nat) + "\n"@ + "Unique Jump Targets: "@
        + dec_nat(c.jump_targets.len()) + "\n"@ + "\n"@
}

/// How often a syscall number is called according to a frequency table.
pub open spec fn frequency_at(frequency: Map<u64, usize>, num: u64) -> usize {
    if frequency.dom().contains(num) {
        frequency[num]
    } else {
        0
    }
}

/// The name shown for a syscall number.
pub open spec fn shown_name(num: u64) -> Seq<char> {
    match syscall_name_text(num) {
        Some(name) => name,
        None => "unknown"@,
    }
}

/// One line of the syscall usage: name, number and count.
pub open spec fn syscall_line(num: u64, count: usize) -> Seq<char> {
    "  "@ + shown_name(num) + " ("@ + dec_nat(num as nat) + "): "@ + dec_nat(count as nat)
        + "\n"@
}

/// The lines of the first `n` syscall numbers.
pub open spec fn syscall_lines(s: SyscallModel, n: int) -> Seq<char>
    decreases n,
{
    if n <= 0 {
        Seq::empty()
    } else {
        syscall_lines(s, n - 1) + syscall_line(
            s.syscalls[n - 1],
            frequency_at(s.frequency, s.syscalls[n - 1]),
        )
    }
}

/// The syscall section of the report.
pub open spec fn syscalls_text(s: SyscallModel) -> Seq<char> {
    "## Syscalls\n"@ + "Total Syscalls: "@ + dec_nat(s.total as nat) + "\n"@ + (if s.syscalls.len()
        > 0 {
        "Syscall Usage:\n"@ + syscall_lines(s, s.syscalls.len() as int)
    } else {
        Seq::empty()
    }) + "\n"@
}

/// The whole report.
pub open spec fn analysis_text(a: AnalysisModel) -> Seq<char> {
    "=== SBPF Binary Analysis ===\n\n"@ + metadata_text(a.metadata) + statistics_text(
        a.instruction_stats,
    ) + control_flow_text(a.instruction_stats.control_flow) + syscalls_text(a.syscall_info)
}

/// The name of a revision.
pub fn version_name(v: SbpfVersion) -> (s: &'static str)
    ensures
        s@ == version_text(v),
{
    match v {
        SbpfVersion::V0 => "V0",
        SbpfVersion::V1 => "V1",
        SbpfVersion::V2 => "V2",
        SbpfVersion::V3 => "V3",
    }
}

/// The name of a category.
pub fn category_name(c: InstructionCategory) -> (s: &'static str)
    ensures
        s@ == category_text(c),
{
    match c {
        InstructionCategory::LoadStore => "LoadStore",
        InstructionCategory::Arithmetic => "Arithmetic",
        InstructionCategory::Logic => "Logic",
        InstructionCategory::ControlFlow => "ControlFlow",
        InstructionCategory::Misc => "Misc",
    }
}

fn push_count_line(out: &mut String, name: &str, count: usize)
    ensures
        final(out)@ == old(out)@ + count_line(name@, count),
{
    out.append("  ");
    out.append(name);
    out.append(": ");
    push_dec_usize(out, count);
    out.append("\n");
}

fn push_syscall_line(out: &mut String, num: u64, count: usize)
    ensures
        final(out)@ == old(out)@ + syscall_line(num, count),
{
    let name: &str = match syscall_name(num) {
        Some(s) => s,
        None => "unknown",
    };
    out.append("  ");
    out.append(name);
    out.append(" (");
    push_dec_u64(out, num);
    out.append("): ");
    push_dec_usize(out, count);
    out.append("\n");
}

fn push_metadata(out: &mut String, m: &Metadata)
    ensures
        final(out)@ == old(out)@ + metadata_text(*m),
{
    out.append("## Metadata\n");
    out.append("Program Size: ");
    push_dec_usize(out, m.program_size);
    out.append(" bytes\n");
    out.append("Entry Point: 0x");
    push_hex_u64(out, m.entry_point);
    out.append("\n");
    out.append("Instruction Count: ");
    push_dec_usize(out, m.instruction_count);
    out.append("\n");
    match m.version {
        Some(v) => {
            out.append("SBPF Version: ");
            out.append(version_name(v));
            out.append("\n");
        },
        None => {
            out.append("SBPF Version: Unknown\n");
        },
    }
    out.append("Metadata Sections: ");
    push_dec_usize(out, m.metadata_sections);
    out.append("\n");
    out.append("\n");
}

fn push_statistics(out: &mut String, stats: &InstructionStats)
    ensures
        final(out)@ == old(out)@ + statistics_text(stats.deep_view()),
{
    out.append("## Instruction Statistics\n");
    out.append("Total Instructions: ");
    push_dec_usize(out, stats.total);
    out.append("\n");
    out.append("\nBy Category:\n");
    let ghost head = out@;
    let ghost categories = stats.by_category@;
    let n: usize = stats.by_category.len();
    let mut i: usize = 0;
    while i < n
        invariant
            n == stats.by_category@.len(),
            categories == stats.by_category@,
            0 <= i <= n,
            out@ == head + category_lines(categories, i as int),
        decreases n - i,
    {
        push_count_line(out, category_name(stats.by_category[i].0), stats.by_category[i].1);
        i = i + 1;
    }
    out.append("\nBy Opcode:\n");
    let ranked = rank_by_count(&stats.by_opcode);
    let ghost middle = out@;
    let ghost entries = named_counts(ranked@);
    let shown: usize = if ranked.len() > TOP_OPCODES {
        TOP_OPCODES
    } else {
        ranked.len()
    };
    proof {
        lemma_ranked_by_count(named_counts(stats.by_opcode@));
    }
    let mut k: usize = 0;
    while k < shown
        invariant
            entries == named_counts(ranked@),
            shown <= ranked@.len(),
            0 <= k <= shown,
            out@ == middle + entry_lines(entries, k as int),
        decreases shown - k,
    {
        push_count_line(out, ranked[k].0.as_str(), ranked[k].1);
        k = k + 1;
    }
    out.append("\n");
}

fn push_control_flow(out: &mut String, flow: &ControlFlowInfo)
    ensures
        final(out)@ == old(out)@ + control_flow_text(flow.deep_view()),
{
    out.append("## Control Flow\n");
    out.append("Jumps: ");
    push_dec_usize(out, flow.jumps);
    out.append("\n");
    out.append("Calls: ");
    push_dec_usize(out, flow.calls);
    out.append("\n");
    out.append("Exits: ");
    push_dec_usize(out, flow.exits);
    out.append("\n");
    out.append("Unique Jump Targets: ");
    push_dec_usize(out, flow.jump_targets.len());
    out.append("\n");
    out.append("\n");
}

fn push_syscalls(out: &mut String, info: &SyscallInfo)
    ensures
        final(out)@ == old(out)@ + syscalls_text(info.deep_view()),
{
    out.append("## Syscalls\n");
    out.append("Total Syscalls: ");
    push_dec_usize(out, info.total);
    out.append("\n");
    let n: usize = info.syscalls.len();
    if n > 0 {
        out.append("Syscall Usage:\n");
        let ghost head = out@;
        let ghost model = info.deep_view();
        let mut i: usize = 0;
        while i < n
            invariant
                n == info.syscalls@.len(),
                model == info.deep_view(),
                0 <= i <= n,
                out@ == head + syscall_lines(model, i as int),
            decreases n - i,
        {
            let num: u64 = info.syscalls[i];
            let count: usize = match info.frequency.get(&num) {
                Some(c) => *c,
                None => 0,
            };
            push_syscall_line(out, num, count);
            i = i + 1;
        }
    }
    out.append("\n");
}

impl OutputFormatter for TextFormatter {
    /// Renders the report: a heading and the four sections.
    fn format(&self, analysis: &Analysis) -> (out: String)
        ensures
            out@ == analysis_text(analysis.deep_view()),
    {
        let mut out = String::new();
        out.append("=== SBPF Binary Analysis ===\n\n");
        push_metadata(&mut out, &analysis.metadata);
        push_statistics(&mut out, &analysis.instruction_stats);
        push_control_flow(&mut out, &analysis.instruction_stats.control_flow);
        push_syscalls(&mut out, &analysis.syscall_info);
        out
    }
}

} // verus!
