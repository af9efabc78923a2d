//! Basic-block boundaries: where blocks start and where they end.

use crate::decompiler::lifter::{calculate_jump_target, jump_target};
use crate::instruction::decoder::{category_of, slot_aligned, Instruction, InstructionCategory};
use crate::ordered::{insert_ascending, insert_sorted, lemma_insert_ascending, strictly_increasing};
use vstd::prelude::*;

verus! {

/// The block starts found in the first `n` instructions: address 0, every
/// computed jump target, and the address of the instruction that follows a
/// control-flow instruction; ascending, each once.
pub open spec fn block_starts_upto(insts: Seq<Instruction>, n: int) -> Seq<u64>
    decreases n,
{
    if n <= 0 {
        seq![0u64]
    } else {
        let before = block_starts_upto(insts, n - 1);
        let inst = insts[n - 1];
        if category_of(inst.opcode) is ControlFlow {
            let with_target = match jump_target(inst) {
                Some(t) => insert_ascending(before, t),
                None => before,
            };
            if n < insts.len() {
                insert_ascending(with_target, insts[n].address)
            } else {
                with_target
            }
        } else {
            before
        }
    }
}

/// The block starts of an instruction sequence.
pub open spec fn block_starts(insts: Seq<Instruction>) -> Seq<u64> {
    block_starts_upto(insts, insts.len() as int)
}

/// Whether `a` starts a block on account of the first `n` instructions.
pub open spec fn starts_block_upto(insts: Seq<Instruction>, n: int, a: u64) -> bool {
    a == 0 || exists|i: int|
        0 <= i < n && i < insts.len() && category_of((#[trigger] insts[i]).opcode) is ControlFlow
            && (jump_target(insts[i]) == Some(a) || (i + 1 < insts.len() && insts[i + 1].address
            == a))
}

/// Whether `a` starts a block: it is 0, the computed target of a jump, or
/// the address of the instruction that follows a control-flow instruction.
pub open spec fn starts_block(insts: Seq<Instruction>, a: u64) -> bool {
    starts_block_upto(insts, insts.len() as int, a)
}

/// What the `n`-th instruction adds to the addresses that start a block.
proof fn lemma_starts_block_step(insts: Seq<Instruction>, n: int, a: u64)
    requires
        0 < n <= insts.len(),
    ensures
        starts_block_upto(insts, n, a) <==> (starts_block_upto(insts, n - 1, a) || (category_of(
            insts[n - 1].opcode,
        ) is ControlFlow && (jump_target(insts[n - 1]) == Some(a) || (n < insts.len()
            && insts[n].address == a)))),
{
    if starts_block_upto(insts, n, a) && a != 0 {
        let i = choose|i: int|
            0 <= i < n && i < insts.len() && category_of((#[trigger] insts[i]).opcode)
                is ControlFlow && (jump_target(insts[i]) == Some(a) || (i + 1 < insts.len()
                && insts[i + 1].address == a));
    }
    if starts_block_upto(insts, n - 1, a) && a != 0 {
        let i = choose|i: int|
            0 <= i < n - 1 && i < insts.len() && category_of((#[trigger] insts[i]).opcode)
                is ControlFlow && (jump_target(insts[i]) == Some(a) || (i + 1 < insts.len()
                && insts[i + 1].address == a));
    }
    if category_of(insts[n - 1].opcode) is ControlFlow {
        let i = n - 1;
        assert(category_of(insts[i].opcode) is ControlFlow);
    }
}

/// The block starts are strictly increasing, begin with 0, and hold exactly
/// the addresses that start a block.
pub proof fn lemma_block_starts_upto(insts: Seq<Instruction>, n: int)
    requires
        0 <= n <= insts.len(),
    ensures
        strictly_increasing(block_starts_upto(insts, n)),
        block_starts_upto(insts, n).len() > 0,
        block_starts_upto(insts, n)[0] == 0,
        forall|a: u64| #[trigger]
            block_starts_upto(insts, n).contains(a) <==> starts_block_upto(insts, n, a),
    decreases n,
{
    let starts = block_starts_upto(insts, n);
    if n == 0 {
        assert(starts[0] == 0);
    } else {
        let before = block_starts_upto(insts, n - 1);
        lemma_block_starts_upto(insts, n - 1);
        let inst = insts[n - 1];
        let with_target = match jump_target(inst) {
            Some(t) => insert_ascending(before, t),
            None => before,
        };
        if jump_target(inst) is Some {
            lemma_insert_ascending(before, jump_target(inst)->Some_0);
        }
        if n < insts.len() {
            lemma_insert_ascending(with_target, insts[n].address);
        }
        assert forall|a: u64| #[trigger]
            starts.contains(a) <==> starts_block_upto(insts, n, a) by {
            lemma_starts_block_step(insts, n, a);
            assert(with_target.contains(a) <==> (before.contains(a) || jump_target(inst)
                == Some(a)));
        }
    }
}

/// Block boundaries always include address 0 and are strictly increasing,
/// hence sorted and free of duplicates; an address is a boundary exactly
/// when it is 0, a computed jump target, or the address of the instruction
/// after a control-flow instruction.
pub proof fn lemma_block_starts(insts: Seq<Instruction>)
    ensures
        strictly_increasing(block_starts(insts)),
        block_starts(insts).len() > 0,
        block_starts(insts)[0] == 0,
        block_starts(insts).contains(0),
        forall|a: u64| #[trigger] block_starts(insts).contains(a) <==> starts_block(insts, a),
{
    lemma_block_starts_upto(insts, insts.len() as int);
}

/// One past the last byte of the instruction stream: the address of the
/// last instruction plus its size.
pub open spec fn stream_end(insts: Seq<Instruction>) -> int
    recommends
        insts.len() > 0,
{
    insts.last().address as int + insts.last().size as int
}

/// Where the `k`-th block ends: at the next block start, or at the end of
/// the stream for the last block.
pub open spec fn block_end(insts: Seq<Instruction>, k: int) -> int {
    let starts = block_starts(insts);
    if k + 1 < starts.len() {
        starts[k + 1] as int
    } else {
        stream_end(insts)
    }
}

/// Whether the address `a` lies in the half-open range of the `k`-th block.
pub open spec fn in_block(insts: Seq<Instruction>, k: int, a: u64) -> bool {
    0 <= k < block_starts(insts).len() && block_starts(insts)[k] <= a && a < block_end(insts, k)
}

/// The index of the last element of the strictly increasing `s` that is not
/// above `a`.
proof fn lemma_last_not_above(s: Seq<u64>, a: u64) -> (k: int)
    requires
        strictly_increasing(s),
        s.len() > 0,
        s[0] <= a,
    ensures
        0 <= k < s.len(),
        s[k] <= a,
        k + 1 < s.len() ==> a < s[k + 1],
    decreases s.len(),
{
    if s.last() <= a {
        s.len() - 1
    } else {
        lemma_last_not_above(s.drop_last(), a)
    }
}

/// The blocks do not overlap, and together they cover the addresses below
/// the end of the stream or below the last block start: an address lies in
/// at most one block, and in one exactly when it is below either bound.
pub proof fn lemma_blocks_partition(insts: Seq<Instruction>, a: u64)
    requires
        insts.len() > 0,
    ensures
        forall|j: int, k: int| in_block(insts, j, a) && in_block(insts, k, a) ==> j == k,
        (exists|k: int| in_block(insts, k, a)) <==> (a < stream_end(insts) || a < block_starts(
            insts,
        ).last()),
{
    let starts = block_starts(insts);
    lemma_block_starts(insts);
    if a < stream_end(insts) || a < starts.last() {
        let k = lemma_last_not_above(starts, a);
        assert(in_block(insts, k, a));
    }
}

/// In a stream of consecutive slots, as decoding yields, every instruction
/// address lies in exactly one block.
pub proof fn lemma_every_instruction_in_one_block(insts: Seq<Instruction>, i: int)
    requires
        slot_aligned(insts),
        0 <= i < insts.len(),
    ensures
        exists|k: int| in_block(insts, k, insts[i].address),
        forall|j: int, k: int|
            in_block(insts, j, insts[i].address) && in_block(insts, k, insts[i].address) ==> j
                == k,
{
    lemma_blocks_partition(insts, insts[i].address);
}

/// Computes the block starts of `instructions`.
pub fn find_block_starts(instructions: &[Instruction]) -> (starts: Vec<u64>)
    ensures
        starts@ == block_starts(instructions@),
        strictly_increasing(starts@),
        starts@.len() > 0,
        starts@[0] == 0,
{
    let mut starts: Vec<u64> = Vec::new();
    starts.push(0);
    let n: usize = instructions.len();
    let mut i: usize = 0;
    proof {
        lemma_block_starts_upto(instructions@, 0);
    }
    while i < n
        invariant
            n == instructions@.len(),
            0 <= i <= n,
            starts@ == block_starts_upto(instructions@, i as int),
            strictly_increasing(starts@),
        decreases n - i,
    {
        let inst = &instructions[i];
        if matches!(inst.category(), InstructionCategory::ControlFlow) {
            match calculate_jump_target(inst) {
                Some(target) => {
                    insert_sorted(&mut starts, target);
                },
                None => {},
            }
            if i + 1 < n {
                insert_sorted(&mut starts, instructions[i + 1].address);
            }
        }
        i = i + 1;
    }
    proof {
        lemma_block_starts(instructions@);
    }
    starts
}

} // verus!
