//! An analysis as a record ready to be written out as structured data:
//! addresses as `0x`-prefixed hexadecimal strings, keys as text.

use crate::analyzer::instructions::{named_counts, ControlFlowInfo, ControlFlowModel};
use crate::analyzer::instructions::{InstructionStats, StatsModel};
use crate::analyzer::metadata::Metadata;
use crate::analyzer::syscalls::{SyscallInfo, SyscallModel};
use crate::analyzer::{Analysis, AnalysisModel};
use crate::instruction::decoder::InstructionCategory;
use crate::output::ranking::Entry;
use crate::output::text::{category_name, category_text, version_name, version_text};
use crate::text::{dec_nat, hex_nat, push_dec_u64, push_hex_u64};
use std::collections::HashMap;
use vstd::prelude::*;
use vstd::std_specs::hash::{axiom_spec_hash_map_iter, spec_hash_map_iter};
use vstd::std_specs::iter::IteratorSpec;
use vstd::string::StringExecFns;

verus! {

broadcast use vstd::std_specs::hash::group_hash_axioms;

/// The metadata of the record.
#[derive(Debug, Clone)]
pub struct MetadataJson {
    pub program_size: usize,
    pub entry_point: String,
    pub instruction_count: usize,
    pub version: Option<String>,
    pub metadata_sections: usize,
}

/// The control-flow totals of the record.
#[derive(Debug, Clone)]
pub struct ControlFlowInfoJson {
    pub jumps: usize,
    pub calls: usize,
    pub exits: usize,
    pub jump_targets: Vec<String>,
}

/// The instruction counts of the record.
#[derive(Debug, Clone)]
pub struct InstructionStatsJson {
    pub total: usize,
    pub by_category: Vec<(String, usize)>,
    pub by_opcode: Vec<(String, usize)>,
    pub control_flow: ControlFlowInfoJson,
}

/// The syscall usage of the record.
#[derive(Debug, Clone)]
pub struct SyscallInfoJson {
    pub total: usize,
    pub frequency: Vec<(String, usize)>,
    pub syscalls: Vec<u64>,
}

/// The record.
#[derive(Debug, Clone)]
pub struct AnalysisJson {
    pub metadata: MetadataJson,
    pub instructions: InstructionStatsJson,
    pub syscalls: SyscallInfoJson,
}

/// An address as it is written in the record.
pub open spec fn hex_text(a: u64) -> Seq<char> {
    "0x"@ + hex_nat(a as nat)
}

/// Whether `m` is the record of the metadata `from`.
pub open spec fn metadata_matches(m: MetadataJson, from: Metadata) -> bool {
    &&& m.program_size == from.program_size
    &&& m.entry_point@ == hex_text(from.entry_point)
    &&& m.instruction_count == from.instruction_count
    &&& match from.version {
        Some(v) => m.version is Some && m.version->Some_0@ == version_text(v),
        None => m.version is None,
    }
    &&& m.metadata_sections == from.metadata_sections
}

/// Whether `c` is the record of the control-flow totals `from`.
pub open spec fn control_flow_matches(c: ControlFlowInfoJson, from: ControlFlowModel) -> bool {
    &&& c.jumps == from.jumps
    &&& c.calls == from.calls
    &&& c.exits == from.exits
    &&& c.jump_targets.deep_view() == from.jump_targets.map_values(|a: u64| hex_text(a))
}

/// A category count table with the categories replaced by their names.
pub open spec fn with_category_names(counts: Seq<(InstructionCategory, usize)>) -> Seq<Entry> {
    counts.map_values(|e: (InstructionCategory, usize)| (category_text(e.0), e.1))
}

/// Whether `s` is the record of the instruction counts `from`.
pub open spec fn stats_match(s: InstructionStatsJson, from: StatsModel) -> bool {
    &&& s.total == from.total
    &&& named_counts(s.by_category@) == with_category_names(from.by_category)
    &&& named_counts(s.by_opcode@) == from.by_opcode
    &&& control_flow_matches(s.control_flow, from.control_flow)
}

/// Whether `e` pairs a syscall number of the table, in decimal, with its
/// count.
pub open spec fn is_entry_of(e: Entry, from: Map<u64, usize>) -> bool {
    exists|k: u64| #[trigger] from.dom().contains(k) && e == (dec_nat(k as nat), from[k])
}

/// Whether `entries` lists a frequency table: one entry per syscall number
/// of the table, keyed by the number in decimal, in any order.
pub open spec fn frequency_matches(entries: Seq<Entry>, from: Map<u64, usize>) -> bool {
    &&& entries.len() == from.dom().len()
    &&& forall|i: int| 0 <= i < entries.len() ==> is_entry_of(#[trigger] entries[i], from)
    &&& forall|k: u64| #[trigger]
        from.dom().contains(k) ==> entries.contains((dec_nat(k as nat), from[k]))
}

/// Whether `s` is the record of the syscall usage `from`.
pub open spec fn syscalls_match(s: SyscallInfoJson, from: SyscallModel) -> bool {
    &&& s.total == from.total
    &&& frequency_matches(named_counts(s.frequency@), from.frequency)
    &&& s.syscalls@ == from.syscalls
}

/// Whether `json` is the record of the analysis `from`.
pub open spec fn json_matches(json: AnalysisJson, from: AnalysisModel) -> bool {
    &&& metadata_matches(json.metadata, from.metadata)
    &&& stats_match(json.instructions, from.instruction_stats)
    &&& syscalls_match(json.syscalls, from.syscall_info)
}

/// An address as `0x` and its hexadecimal digits.
pub fn hex_string(a: u64) -> (s: String)
    ensures
        s@ == hex_text(a),
{
    let mut s = String::from_str("0x");
    push_hex_u64(&mut s, a);
    s
}

fn metadata_json(m: &Metadata) -> (json: MetadataJson)
    ensures
        metadata_matches(json, *m),
{
    MetadataJson {
        program_size: m.program_size,
        entry_point: hex_string(m.entry_point),
        instruction_count: m.instruction_count,
        version: match m.version {
            Some(v) => Some(String::from_str(version_name(v))),
            None => None,
        },
        metadata_sections: m.metadata_sections,
    }
}

fn control_flow_json(flow: &ControlFlowInfo) -> (json: ControlFlowInfoJson)
    ensures
        control_flow_matches(json, flow.deep_view()),
{
    let mut jump_targets: Vec<String> = Vec::new();
    let n: usize = flow.jump_targets.len();
    let mut i: usize = 0;
    while i < n
        invariant
            n == flow.jump_targets@.len(),
            0 <= i <= n,
            jump_targets@.len() == i,
            forall|k: int|
                0 <= k < i ==> (#[trigger] jump_targets@[k])@ == hex_text(flow.jump_targets@[k]),
        decreases n - i,
    {
        jump_targets.push(hex_string(flow.jump_targets[i]));
        i = i + 1;
    }
    assert(jump_targets.deep_view() =~= flow.jump_targets@.map_values(|a: u64| hex_text(a)));
    ControlFlowInfoJson { jumps: flow.jumps, calls: flow.calls, exits: flow.exits, jump_targets }
}

fn stats_json(stats: &InstructionStats) -> (json: InstructionStatsJson)
    ensures
        stats_match(json, stats.deep_view()),
{
    let mut by_category: Vec<(String, usize)> = Vec::new();
    let n: usize = stats.by_category.len();
    let mut i: usize = 0;
    while i < n
        invariant
            n == stats.by_category@.len(),
            0 <= i <= n,
            by_category@.len() == i,
            forall|k: int|
                0 <= k < i ==> (#[trigger] by_category@[k]).0@ == category_text(
                    stats.by_category@[k].0,
                ) && by_category@[k].1 == stats.by_category@[k].1,
        decreases n - i,
    {
        by_category.push(
            (String::from_str(category_name(stats.by_category[i].0)), stats.by_category[i].1),
        );
        i = i + 1;
    }
    assert(named_counts(by_category@) =~= with_category_names(stats.by_category@));
    let mut by_opcode: Vec<(String, usize)> = Vec::new();
    let m: usize = stats.by_opcode.len();
    let mut j: usize = 0;
    while j < m
        invariant
            m == stats.by_opcode@.len(),
            0 <= j <= m,
            by_opcode@.len() == j,
            forall|k: int|
                0 <= k < j ==> (#[trigger] by_opcode@[k]).0@ == stats.by_opcode@[k].0@
                    && by_opcode@[k].1 == stats.by_opcode@[k].1,
        decreases m - j,
    {
        by_opcode.push((stats.by_opcode[j].0.clone(), stats.by_opcode[j].1));
        j = j + 1;
    }
    assert(named_counts(by_opcode@) =~= named_counts(stats.by_opcode@));
    InstructionStatsJson {
        total: stats.total,
        by_category,
        by_opcode,
        control_flow: control_flow_json(&stats.control_flow),
    }
}

/// A number in decimal.
pub fn dec_string(n: u64) -> (s: String)
    ensures
        s@ == dec_nat(n as nat),
{
    let mut s = String::new();
    push_dec_u64(&mut s, n);
    s
}

fn frequency_json(frequency: &HashMap<u64, usize>) -> (entries: Vec<(String, usize)>)
    ensures
        frequency_matches(named_counts(entries@), frequency@),
{
    let mut entries: Vec<(String, usize)> = Vec::new();
    let ghost pairs = spec_hash_map_iter(frequency).remaining();
    proof {
        axiom_spec_hash_map_iter(frequency);
    }
    for pair in it: frequency.iter()
        invariant
            it.seq() == pairs,
            entries@.len() == it.index(),
            forall|k: int|
                0 <= k < entries@.len() ==> (#[trigger] entries@[k]).0@ == dec_nat(
                    *pairs[k].0 as nat,
                ) && entries@[k].1 == *pairs[k].1,
    {
        let (key, count) = pair;
        entries.push((dec_string(*key), *count));
    }
    proof {
        let named = named_counts(entries@);
        let from = frequency@;
        assert forall|i: int| 0 <= i < named.len() implies is_entry_of(
            #[trigger] named[i],
            from,
        ) by {
            let k = *pairs[i].0;
            assert(from.dom().contains(k) && named[i] == (dec_nat(k as nat), from[k]));
        }
        assert forall|k: u64| #[trigger] from.dom().contains(k) implies named.contains(
            (dec_nat(k as nat), from[k]),
        ) by {
            let j = choose|j: int| 0 <= j < pairs.len() && pairs[j] == (&k, &from[k]);
            assert(named[j] == (dec_nat(k as nat), from[k]));
        }
    }
    entries
}

fn syscalls_json(info: &SyscallInfo) -> (json: SyscallInfoJson)
    ensures
        syscalls_match(json, info.deep_view()),
{
    SyscallInfoJson {
        total: info.total,
        frequency: frequency_json(&info.frequency),
        syscalls: info.syscalls.clone(),
    }
}

impl AnalysisJson {
    /// The record of an analysis: counts as they are, addresses and jump
    /// targets as `0x`-prefixed hexadecimal strings, revision and categories
    /// by name, syscall numbers of the frequency table in decimal.
    pub fn from(analysis: &Analysis) -> (json: AnalysisJson)
        ensures
            json_matches(json, analysis.deep_view()),
    {
        AnalysisJson {
            metadata: metadata_json(&analysis.metadata),
            instructions: stats_json(&analysis.instruction_stats),
            syscalls: syscalls_json(&analysis.syscall_info),
        }
    }
}

} // verus!
