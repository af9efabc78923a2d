//! Instruction counts by category and opcode, and control-flow totals.

use crate::binary::sbpf::{variant_name, variant_text, Opcode};
use crate::decompiler::disasm::is_jump;
use crate::instruction::decoder::{branch_target, category_of, Instruction, InstructionCategory};
use crate::ordered::{ascending_of, insert_sorted, lemma_ascending_of, strictly_increasing};
use crate::tally::{
    lemma_occurrences_bound, lemma_tally, lemma_tally_step, lemma_tally_total, occurrences, tally,
    total_count,
};
use vstd::prelude::*;

verus! {

/// Totals of the control-flow instructions.
#[derive(Debug, Clone)]
pub struct ControlFlowInfo {
    /// Number of jump instructions.
    pub jumps: usize,
    /// Number of call instructions.
    pub calls: usize,
    /// Number of exit instructions.
    pub exits: usize,
    /// The distinct jump targets, ascending.
    pub jump_targets: Vec<u64>,
}

/// Instruction counts of a program.
#[derive(Debug, Clone)]
pub struct InstructionStats {
    /// Number of instructions.
    pub total: usize,
    /// Count per category that occurs, in order of first occurrence.
    pub by_category: Vec<(InstructionCategory, usize)>,
    /// Count per opcode name that occurs, in order of first occurrence.
    pub by_opcode: Vec<(String, usize)>,
    /// Control-flow totals.
    pub control_flow: ControlFlowInfo,
}

/// What the control-flow totals hold.
pub struct ControlFlowModel {
    pub jumps: usize,
    pub calls: usize,
    pub exits: usize,
    pub jump_targets: Seq<u64>,
}

/// What the instruction counts hold.
pub struct StatsModel {
    pub total: usize,
    pub by_category: Seq<(InstructionCategory, usize)>,
    pub by_opcode: Seq<(Seq<char>, usize)>,
    pub control_flow: ControlFlowModel,
}

impl DeepView for ControlFlowInfo {
    type V = ControlFlowModel;

    open spec fn deep_view(&self) -> ControlFlowModel {
        ControlFlowModel {
            jumps: self.jumps,
            calls: self.calls,
            exits: self.exits,
            jump_targets: self.jump_targets@,
        }
    }
}

/// The entries of a count table with their names as character sequences.
pub open spec fn named_counts(entries: Seq<(String, usize)>) -> Seq<(Seq<char>, usize)> {
    entries.map_values(|e: (String, usize)| (e.0@, e.1))
}

impl DeepView for InstructionStats {
    type V = StatsModel;

    open spec fn deep_view(&self) -> StatsModel {
        StatsModel {
            total: self.total,
            by_category: self.by_category@,
            by_opcode: named_counts(self.by_opcode@),
            control_flow: self.control_flow.deep_view(),
        }
    }
}

/// The category of each instruction, in order.
pub open spec fn categories_of(insts: Seq<Instruction>) -> Seq<InstructionCategory> {
    insts.map_values(|i: Instruction| category_of(i.opcode))
}

/// The opcode of each instruction, in order.
pub open spec fn opcodes_of(insts: Seq<Instruction>) -> Seq<Opcode> {
    insts.map_values(|i: Instruction| i.opcode)
}

/// The target of an instruction when it is one of the twelve jumps.
pub open spec fn any_jump_target() -> spec_fn(Instruction) -> Option<u64> {
    |i: Instruction|
        if is_jump(i.opcode) {
            Some(branch_target(i.address, i.imm))
        } else {
            None
        }
}

/// The targets of the jumps of a program, one per jump, in order.
pub open spec fn jump_targets_of(insts: Seq<Instruction>) -> Seq<u64> {
    insts.filter_map(any_jump_target())
}

/// An opcode count table with the opcodes replaced by their names.
pub open spec fn with_variant_names(counts: Seq<(Opcode, usize)>) -> Seq<(Seq<char>, usize)> {
    counts.map_values(|e: (Opcode, usize)| (variant_text(e.0), e.1))
}

/// The control-flow totals of a program: a jump is a control-flow
/// instruction other than a call or an exit.
pub open spec fn control_flow_of(insts: Seq<Instruction>) -> ControlFlowModel {
    ControlFlowModel {
        jumps: jump_targets_of(insts).len() as usize,
        calls: occurrences(opcodes_of(insts), Opcode::Call) as usize,
        exits: occurrences(opcodes_of(insts), Opcode::Exit) as usize,
        jump_targets: ascending_of(jump_targets_of(insts)),
    }
}

/// The instruction counts of a program.
pub open spec fn stats_of(insts: Seq<Instruction>) -> StatsModel {
    StatsModel {
        total: insts.len() as usize,
        by_category: tally(categories_of(insts)),
        by_opcode: with_variant_names(tally(opcodes_of(insts))),
        control_flow: control_flow_of(insts),
    }
}

/// Counts the instructions of each category.
pub fn tally_categories(instructions: &[Instruction]) -> (counts: Vec<
    (InstructionCategory, usize),
>)
    ensures
        counts@ == tally(categories_of(instructions@)),
{
    let ghost keys = categories_of(instructions@);
    let mut counts: Vec<(InstructionCategory, usize)> = Vec::new();
    let n: usize = instructions.len();
    let mut i: usize = 0;
    while i < n
        invariant
            n == instructions@.len(),
            keys == categories_of(instructions@),
            0 <= i <= n,
            counts@ == tally(keys.take(i as int)),
        decreases n - i,
    {
        let key = instructions[i].category();
        proof {
            lemma_tally_step(keys, i as int);
            lemma_tally(keys.take(i as int));
            lemma_occurrences_bound(keys.take(i as int), key);
        }
        let mut j: usize = 0;
        while j < counts.len() && counts[j].0 != key
            invariant
                0 <= j <= counts@.len(),
                forall|k: int| 0 <= k < j ==> (#[trigger] counts@[k]).0 != key,
            decreases counts@.len() - j,
        {
            j = j + 1;
        }
        if j < counts.len() {
            let seen: usize = counts[j].1;
            counts.set(j, (key, seen + 1));
        } else {
            counts.push((key, 1));
        }
        i = i + 1;
    }
    assert(keys.take(n as int) =~= keys);
    counts
}

/// Counts the instructions of each opcode.
pub fn tally_opcodes(instructions: &[Instruction]) -> (counts: Vec<(Opcode, usize)>)
    ensures
        counts@ == tally(opcodes_of(instructions@)),
{
    let ghost keys = opcodes_of(instructions@);
    let mut counts: Vec<(Opcode, usize)> = Vec::new();
    let n: usize = instructions.len();
    let mut i: usize = 0;
    while i < n
        invariant
            n == instructions@.len(),
            keys == opcodes_of(instructions@),
            0 <= i <= n,
            counts@ == tally(keys.take(i as int)),
        decreases n - i,
    {
        let key = instructions[i].opcode;
        proof {
            lemma_tally_step(keys, i as int);
            lemma_tally(keys.take(i as int));
            lemma_occurrences_bound(keys.take(i as int), key);
        }
        let mut j: usize = 0;
        while j < counts.len() && counts[j].0 != key
            invariant
                0 <= j <= counts@.len(),
                forall|k: int| 0 <= k < j ==> (#[trigger] counts@[k]).0 != key,
            decreases counts@.len() - j,
        {
            j = j + 1;
        }
        if j < counts.len() {
            let seen: usize = counts[j].1;
            counts.set(j, (key, seen + 1));
        } else {
            counts.push((key, 1));
        }
        i = i + 1;
    }
    assert(keys.take(n as int) =~= keys);
    counts
}

/// Replaces the opcodes of a count table by their names.
fn name_opcodes(counts: &Vec<(Opcode, usize)>) -> (named: Vec<(String, usize)>)
    ensures
        named_counts(named@) == with_variant_names(counts@),
{
    let mut named: Vec<(String, usize)> = Vec::new();
    let n: usize = counts.len();
    let mut i: usize = 0;
    while i < n
        invariant
            n == counts@.len(),
            0 <= i <= n,
            named@.len() == i,
            forall|k: int|
                0 <= k < i ==> (#[trigger] named@[k]).0@ == variant_text(counts@[k].0)
                    && named@[k].1 == counts@[k].1,
        decreases n - i,
    {
        named.push((variant_name(counts[i].0), counts[i].1));
        i = i + 1;
    }
    named
}

/// Counts jumps, calls and exits and collects the distinct jump targets.
fn analyze_control_flow(instructions: &[Instruction]) -> (info: ControlFlowInfo)
    ensures
        info.deep_view() == control_flow_of(instructions@),
{
    let ghost ops = opcodes_of(instructions@);
    let ghost target = any_jump_target();
    let mut jump_targets: Vec<u64> = Vec::new();
    let mut jumps: usize = 0;
    let mut calls: usize = 0;
    let mut exits: usize = 0;
    let n: usize = instructions.len();
    let mut i: usize = 0;
    while i < n
        invariant
            n == instructions@.len(),
            ops == opcodes_of(instructions@),
            target == any_jump_target(),
            0 <= i <= n,
            jumps <= i,
            calls <= i,
            exits <= i,
            jumps == instructions@.take(i as int).filter_map(target).len(),
            calls == occurrences(ops.take(i as int), Opcode::Call),
            exits == occurrences(ops.take(i as int), Opcode::Exit),
            jump_targets@ == ascending_of(instructions@.take(i as int).filter_map(target)),
            strictly_increasing(jump_targets@),
        decreases n - i,
    {
        let inst = &instructions[i];
        proof {
            let so_far = instructions@.take(i as int).filter_map(target);
            let next = instructions@.take(i + 1).filter_map(target);
            instructions@.lemma_filter_map_take_succ(target, i as int);
            assert(ops.take(i + 1).drop_last() =~= ops.take(i as int));
            if is_jump(inst.opcode) {
                assert(next.drop_last() =~= so_far);
            }
        }
        match inst.category() {
            InstructionCategory::ControlFlow => {
                match inst.opcode {
                    Opcode::Call => {
                        calls = calls + 1;
                    },
                    Opcode::Exit => {
                        exits = exits + 1;
                    },
                    _ => {
                        jumps = jumps + 1;
                        insert_sorted(&mut jump_targets, inst.relative_target());
                    },
                }
            },
            _ => {},
        }
        i = i + 1;
    }
    assert(instructions@.take(n as int) =~= instructions@);
    assert(ops.take(n as int) =~= ops);
    ControlFlowInfo { jumps, calls, exits, jump_targets }
}

/// Gathers the instruction counts of a program.
pub fn analyze(instructions: &[Instruction]) -> (stats: InstructionStats)
    ensures
        stats.deep_view() == stats_of(instructions@),
{
    let by_category = tally_categories(instructions);
    let opcode_counts = tally_opcodes(instructions);
    let by_opcode = name_opcodes(&opcode_counts);
    let control_flow = analyze_control_flow(instructions);
    InstructionStats { total: instructions.len(), by_category, by_opcode, control_flow }
}

/// The jump targets of the statistics are strictly increasing, hence free
/// of duplicates, and are exactly the targets that some jump has; calls,
/// exits and jumps together are the control-flow instructions.
pub proof fn lemma_control_flow_totals(insts: Seq<Instruction>)
    ensures
        strictly_increasing(ascending_of(jump_targets_of(insts))),
        forall|a: u64| #[trigger]
            ascending_of(jump_targets_of(insts)).contains(a) <==> jump_targets_of(
                insts,
            ).contains(a),
        jump_targets_of(insts).len() + occurrences(opcodes_of(insts), Opcode::Call)
            + occurrences(opcodes_of(insts), Opcode::Exit) == occurrences(
            categories_of(insts),
            InstructionCategory::ControlFlow,
        ),
    decreases insts.len(),
{
    lemma_ascending_of(jump_targets_of(insts));
    if insts.len() > 0 {
        let head = insts.drop_last();
        lemma_control_flow_totals(head);
        assert(opcodes_of(insts).drop_last() =~= opcodes_of(head));
        assert(categories_of(insts).drop_last() =~= categories_of(head));
    }
}

/// Naming the opcodes of a count table leaves the sum of its counts as it
/// is.
proof fn lemma_named_total(counts: Seq<(Opcode, usize)>)
    ensures
        total_count(with_variant_names(counts)) == total_count(counts),
    decreases counts.len(),
{
    if counts.len() > 0 {
        assert(with_variant_names(counts).drop_last() =~= with_variant_names(
            counts.drop_last(),
        ));
        lemma_named_total(counts.drop_last());
    }
}

/// Every instruction is counted once in each table: the counts by category
/// and the counts by opcode both add up to the number of instructions.
pub proof fn lemma_counts_add_up(insts: Seq<Instruction>)
    requires
        insts.len() <= usize::MAX,
    ensures
        total_count(stats_of(insts).by_category) == stats_of(insts).total,
        total_count(stats_of(insts).by_opcode) == stats_of(insts).total,
{
    lemma_tally_total(categories_of(insts));
    lemma_tally_total(opcodes_of(insts));
    lemma_named_total(tally(opcodes_of(insts)));
}

} // verus!
