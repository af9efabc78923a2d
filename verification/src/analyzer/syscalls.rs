//! Which host functions a program calls, and how often.

use crate::instruction::decoder::Instruction;
use crate::ordered::{ascending_of, insert_sorted, lemma_ascending_of, strictly_increasing};
use crate::tally::{lemma_occurrences_bound, lemma_occurrences_positive, occurrences};
use std::collections::HashMap;
use vstd::prelude::*;

verus! {

broadcast use vstd::std_specs::hash::group_hash_axioms;

/// Syscall usage of a program.
#[derive(Debug, Clone)]
pub struct SyscallInfo {
    /// Number of syscall instructions.
    pub total: usize,
    /// How often each syscall number is called.
    pub frequency: HashMap<u64, usize>,
    /// The distinct syscall numbers, ascending.
    pub syscalls: Vec<u64>,
}

/// What the syscall usage holds.
pub struct SyscallModel {
    pub total: usize,
    pub frequency: Map<u64, usize>,
    pub syscalls: Seq<u64>,
}

impl DeepView for SyscallInfo {
    type V = SyscallModel;

    open spec fn deep_view(&self) -> SyscallModel {
        SyscallModel {
            total: self.total,
            frequency: self.frequency@,
            syscalls: self.syscalls@,
        }
    }
}

/// The syscall number of an instruction, if it is a syscall.
pub open spec fn syscall_number_of() -> spec_fn(Instruction) -> Option<u64> {
    |i: Instruction| i.spec_syscall_number()
}

/// The syscall numbers of a program, one per syscall, in order.
pub open spec fn syscall_numbers_of(insts: Seq<Instruction>) -> Seq<u64> {
    insts.filter_map(syscall_number_of())
}

/// How often each number occurs in `numbers`, for the numbers that occur.
pub open spec fn frequency_of(numbers: Seq<u64>) -> Map<u64, usize> {
    Map::new(|k: u64| numbers.contains(k), |k: u64| occurrences(numbers, k) as usize)
}

/// The syscall usage of a program.
pub open spec fn syscalls_of(insts: Seq<Instruction>) -> SyscallModel {
    let numbers = syscall_numbers_of(insts);
    SyscallModel {
        total: numbers.len() as usize,
        frequency: frequency_of(numbers),
        syscalls: ascending_of(numbers),
    }
}

/// Gathers the syscall usage of a program.
pub fn analyze(instructions: &[Instruction]) -> (info: SyscallInfo)
    ensures
        info.deep_view() == syscalls_of(instructions@),
{
    let ghost number = syscall_number_of();
    let mut frequency: HashMap<u64, usize> = HashMap::new();
    let mut syscalls: Vec<u64> = Vec::new();
    let mut total: usize = 0;
    let n: usize = instructions.len();
    let mut i: usize = 0;
    while i < n
        invariant
            n == instructions@.len(),
            number == syscall_number_of(),
            0 <= i <= n,
            total <= i,
            total == instructions@.take(i as int).filter_map(number).len(),
            frequency@ == frequency_of(instructions@.take(i as int).filter_map(number)),
            syscalls@ == ascending_of(instructions@.take(i as int).filter_map(number)),
            strictly_increasing(syscalls@),
        decreases n - i,
    {
        let inst = &instructions[i];
        let ghost so_far = instructions@.take(i as int).filter_map(number);
        let ghost next = instructions@.take(i + 1).filter_map(number);
        proof {
            instructions@.lemma_filter_map_take_succ(number, i as int);
        }
        match inst.syscall_number() {
            Some(num) => {
                proof {
                    assert(next.drop_last() =~= so_far);
                    lemma_occurrences_bound(so_far, num);
                    lemma_occurrences_positive(so_far, num);
                    assert forall|k: u64| next.contains(k) <==> (so_far.contains(k) || k
                        == num) by {
                        lemma_occurrences_positive(so_far, k);
                        lemma_occurrences_positive(next, k);
                    }
                }
                let seen: usize = match frequency.get(&num) {
                    Some(count) => *count,
                    None => 0,
                };
                frequency.insert(num, seen + 1);
                insert_sorted(&mut syscalls, num);
                total = total + 1;
            },
            None => {},
        }
        i = i + 1;
    }
    assert(instructions@.take(n as int) =~= instructions@);
    SyscallInfo { total, frequency, syscalls }
}

/// The frequencies add up: each syscall number that occurs is listed once,
/// in ascending order, with a positive count, and nothing else is counted.
pub proof fn lemma_syscall_usage(insts: Seq<Instruction>)
    ensures
        strictly_increasing(syscalls_of(insts).syscalls),
        forall|k: u64| #[trigger]
            syscalls_of(insts).syscalls.contains(k) <==> syscalls_of(
                insts,
            ).frequency.dom().contains(k),
        forall|k: u64| #[trigger]
            syscalls_of(insts).frequency.dom().contains(k) ==> occurrences(
                syscall_numbers_of(insts),
                k,
            ) > 0,
{
    let numbers = syscall_numbers_of(insts);
    lemma_ascending_of(numbers);
    assert forall|k: u64| #[trigger]
        syscalls_of(insts).frequency.dom().contains(k) implies occurrences(numbers, k) > 0 by {
        lemma_occurrences_positive(numbers, k);
    }
}

/// The name of the host function behind a syscall number, for the numbers
/// that have one.
pub open spec fn syscall_name_text(num: u64) -> Option<Seq<char>> {
    if num == 0 {
        Some("sol_log"@)
    } else if num == 1 {
        Some("sol_invoke"@)
    } else if num == 2 {
        Some("sol_invoke_signed"@)
    } else if num == 3 {
        Some("sol_create_account"@)
    } else if num == 4 {
        Some("sol_assign"@)
    } else if num == 5 {
        Some("sol_transfer"@)
    } else if num == 6 {
        Some("sol_get_account_data_len"@)
    } else if num == 7 {
        Some("sol_get_account_data"@)
    } else if num == 8 {
        Some("sol_set_account_data"@)
    } else if num == 9 {
        Some("sol_get_clock_sysvar"@)
    } else if num == 10 {
        Some("sol_get_rent_sysvar"@)
    } else if num == 11 {
        Some("sol_get_clock_sysvar"@)
    } else if num == 12 {
        Some("sol_memcpy"@)
    } else if num == 13 {
        Some("sol_memcmp"@)
    } else if num == 14 {
        Some("sol_memset"@)
    } else if num == 15 {
        Some("sol_invoke_signed"@)
    } else {
        None
    }
}

/// The name of the host function behind a syscall number.
pub fn syscall_name(num: u64) -> (name: Option<&'static str>)
    ensures
        name is Some <==> num <= 15,
        match name {
            Some(s) => Some(s@),
            None => None,
        } == syscall_name_text(num),
{
    match num {
        0 => Some("sol_log"),
        1 => Some("sol_invoke"),
        2 => Some("sol_invoke_signed"),
        3 => Some("sol_create_account"),
        4 => Some("sol_assign"),
        5 => Some("sol_transfer"),
        6 => Some("sol_get_account_data_len"),
        7 => Some("sol_get_account_data"),
        8 => Some("sol_set_account_data"),
        9 => Some("sol_get_clock_sysvar"),
        10 => Some("sol_get_rent_sysvar"),
        11 => Some("sol_get_clock_sysvar"),
        12 => Some("sol_memcpy"),
        13 => Some("sol_memcmp"),
        14 => Some("sol_memset"),
        15 => Some("sol_invoke_signed"),
        _ => None,
    }
}

} // verus!
