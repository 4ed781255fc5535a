//! The execution engine: the per-opcode semantics, the bounded
//! fetch-decode-execute loop, and the proofs that the executable machine
//! follows them exactly.
//!
//! Word arithmetic wraps at the word boundary, as machine-word arithmetic
//! does; the wrapped values are stated precisely via `vstd::wrapping`.

use vstd::prelude::*;
use vstd::wrapping::usize_specs;

use crate::inst::Inst;
use crate::inst::InstType;
use crate::inst::Word;
use crate::machine::Articuno;
use crate::machine::VmState;
use crate::machine::STACK_CAPACITY;
use crate::trap::Trap;

verus! {

/// The instruction pointer after an ordinary (non-jumping) instruction: the
/// old pointer plus one, wrapping at the word boundary.
pub open spec fn next_ip(ip: Word) -> Word {
    usize_specs::wrapping_add(ip, 1)
}

/// The state and trap produced by executing one instruction.
///
/// Every opcode checks its own preconditions; on any trap the state is
/// returned unchanged, the operation never having been attempted.  Jumps set
/// the instruction pointer directly and are not auto-advanced afterwards;
/// every other successful instruction advances the pointer by one.  `Dup`
/// grows the stack, so on a stack already at capacity it faults with
/// `StackOverflow`, keeping the capacity bound intact under every
/// instruction combination.
pub open spec fn exec_inst_spec(s: VmState, inst: Inst) -> (VmState, Trap) {
    match inst.ins_t {
        InstType::InstPush => {
            if s.stack.len() >= STACK_CAPACITY {
                (s, Trap::StackOverflow)
            } else {
                (
                    VmState { stack: s.stack.push(inst.operand), ip: next_ip(s.ip), ..s },
                    Trap::NoFault,
                )
            }
        },
        InstType::InstPlus => {
            if s.stack.len() < 2 {
                (s, Trap::StackUnderflow)
            } else {
                let a = s.stack[s.stack.len() - 1];
                let b = s.stack[s.stack.len() - 2];
                (
                    VmState {
                        stack: s.stack.take(s.stack.len() - 2).push(
                            usize_specs::wrapping_add(b, a),
                        ),
                        ip: next_ip(s.ip),
                        ..s
                    },
                    Trap::NoFault,
                )
            }
        },
        InstType::InstMinus => {
            if s.stack.len() < 2 {
                (s, Trap::StackUnderflow)
            } else {
                let a = s.stack[s.stack.len() - 1];
                let b = s.stack[s.stack.len() - 2];
                (
                    VmState {
                        stack: s.stack.take(s.stack.len() - 2).push(
                            usize_specs::wrapping_sub(b, a),
                        ),
                        ip: next_ip(s.ip),
                        ..s
                    },
                    Trap::NoFault,
                )
            }
        },
        InstType::InstMult => {
            if s.stack.len() < 2 {
                (s, Trap::StackUnderflow)
            } else {
                let a = s.stack[s.stack.len() - 1];
                let b = s.stack[s.stack.len() - 2];
                (
                    VmState {
                        stack: s.stack.take(s.stack.len() - 2).push(
                            usize_specs::wrapping_mul(b, a),
                        ),
                        ip: next_ip(s.ip),
                        ..s
                    },
                    Trap::NoFault,
                )
            }
        },
        InstType::InstDiv => {
            if s.stack.len() < 2 {
                (s, Trap::StackUnderflow)
            } else if s.stack[s.stack.len() - 1] == 0 {
                (s, Trap::DivideByZero)
            } else {
                let a = s.stack[s.stack.len() - 1];
                let b = s.stack[s.stack.len() - 2];
                (
                    VmState {
                        stack: s.stack.take(s.stack.len() - 2).push((b / a) as Word),
                        ip: next_ip(s.ip),
                        ..s
                    },
                    Trap::NoFault,
                )
            }
        },
        InstType::InstEq => {
            if s.stack.len() < 2 {
                (s, Trap::StackUnderflow)
            } else {
                let a = s.stack[s.stack.len() - 1];
                let b = s.stack[s.stack.len() - 2];
                let r: Word = if a == b { 1 } else { 0 };
                (
                    VmState {
                        stack: s.stack.take(s.stack.len() - 2).push(r),
                        ip: next_ip(s.ip),
                        ..s
                    },
                    Trap::NoFault,
                )
            }
        },
        InstType::InstDup => {
            if s.stack.len() == 0 {
                (s, Trap::StackUnderflow)
            } else if inst.operand >= s.stack.len() {
                (s, Trap::IllegalInstructionAccess)
            } else if s.stack.len() >= STACK_CAPACITY {
                (s, Trap::StackOverflow)
            } else {
                (
                    VmState {
                        stack: s.stack.push(s.stack[inst.operand as int]),
                        ip: next_ip(s.ip),
                        ..s
                    },
                    Trap::NoFault,
                )
            }
        },
        InstType::InstJmp => {
            (VmState { ip: inst.operand, ..s }, Trap::NoFault)
        },
        InstType::InstJmpIf => {
            if s.stack.len() < 1 {
                (s, Trap::StackUnderflow)
            } else if s.stack[s.stack.len() - 1] == 1 {
                (
                    VmState { stack: s.stack.take(s.stack.len() - 1), ip: inst.operand, ..s },
                    Trap::NoFault,
                )
            } else {
                (VmState { ip: next_ip(s.ip), ..s }, Trap::NoFault)
            }
        },
        InstType::InstHalt => {
            (VmState { ip: next_ip(s.ip), halt: true, ..s }, Trap::NoFault)
        },
        InstType::InstDump => {
            (VmState { ip: next_ip(s.ip), ..s }, Trap::NoFault)
        },
        InstType::InstPrintDebug => {
            if s.stack.len() < 1 {
                (s, Trap::StackUnderflow)
            } else {
                (VmState { ip: next_ip(s.ip), ..s }, Trap::NoFault)
            }
        },
    }
}

/// The state and trap produced by running the machine for at most `fuel`
/// steps.
///
/// Each step fetches the instruction at the pointer and executes it.  The run
/// stops when the halt flag is set (success), when a trap is raised (failure,
/// the trap is returned), when the pointer leaves the program bounds at fetch
/// time (failure, `IllegalInstructionAccess`), or when the fuel is exhausted
/// (success without a trap: the machine was merely stopped from outside).
pub open spec fn run_spec(s: VmState, fuel: nat) -> (VmState, Trap)
    decreases fuel,
{
    if s.halt || fuel == 0 {
        (s, Trap::NoFault)
    } else if s.ip >= s.program.len() {
        (s, Trap::IllegalInstructionAccess)
    } else {
        let r = exec_inst_spec(s, s.program[s.ip as int]);
        if r.1 == Trap::NoFault {
            run_spec(r.0, (fuel - 1) as nat)
        } else {
            r
        }
    }
}

/// Whether an opcode pops two operands and pushes one result.
pub open spec fn is_binary_op(t: InstType) -> bool {
    ||| t == InstType::InstPlus
    ||| t == InstType::InstMinus
    ||| t == InstType::InstMult
    ||| t == InstType::InstDiv
    ||| t == InstType::InstEq
}

/// Pushing succeeds exactly when the stack is below capacity, appending the
/// operand on top; on a stack already holding `STACK_CAPACITY` elements it
/// faults with `StackOverflow` and leaves the state, and so the element
/// count, unchanged.
pub proof fn lemma_push_bounds(s: VmState, inst: Inst)
    requires
        inst.ins_t == InstType::InstPush,
    ensures
        s.stack.len() < STACK_CAPACITY ==> exec_inst_spec(s, inst).1 == Trap::NoFault
            && exec_inst_spec(s, inst).0.stack == s.stack.push(inst.operand),
        s.stack.len() >= STACK_CAPACITY ==> exec_inst_spec(s, inst) == (s, Trap::StackOverflow),
{
}

/// The binary opcodes fault with `StackUnderflow`, leaving the state
/// unchanged, when the stack holds fewer than two operands; with two or more
/// (and a nonzero divisor for division) they succeed and shrink the stack by
/// exactly one.
pub proof fn lemma_binary_op_arity(s: VmState, inst: Inst)
    requires
        is_binary_op(inst.ins_t),
    ensures
        s.stack.len() < 2 ==> exec_inst_spec(s, inst) == (s, Trap::StackUnderflow),
        s.stack.len() >= 2 && !(inst.ins_t == InstType::InstDiv && s.stack.last() == 0)
            ==> exec_inst_spec(s, inst).1 == Trap::NoFault
            && exec_inst_spec(s, inst).0.stack.len() == s.stack.len() - 1,
{
}

/// Division with a zero divisor on top of the stack faults with
/// `DivideByZero` before consuming anything: both operands are still on the
/// stack at the time of the fault.
pub proof fn lemma_div_by_zero(s: VmState, inst: Inst)
    requires
        inst.ins_t == InstType::InstDiv,
        s.stack.len() >= 2,
        s.stack.last() == 0,
    ensures
        exec_inst_spec(s, inst) == (s, Trap::DivideByZero),
{
}

/// An unconditional jump never faults and never touches the stack: it sets
/// the instruction pointer to its operand and changes nothing else, and the
/// pointer is not advanced afterwards.
pub proof fn lemma_jmp_semantics(s: VmState, inst: Inst)
    requires
        inst.ins_t == InstType::InstJmp,
    ensures
        exec_inst_spec(s, inst) == ((VmState { ip: inst.operand, ..s }), Trap::NoFault),
{
}

/// No instruction writes the program store: the program is immutable during
/// execution of a single instruction.
pub proof fn lemma_exec_preserves_program(s: VmState, inst: Inst)
    ensures
        exec_inst_spec(s, inst).0.program == s.program,
{
}

/// Executing an instruction from a state within capacities yields a state
/// within capacities: the capacity bounds hold under every instruction
/// combination.
pub proof fn lemma_exec_preserves_wf(s: VmState, inst: Inst)
    requires
        s.wf(),
    ensures
        exec_inst_spec(s, inst).0.wf(),
{
}

/// A trapping instruction performs no work: whenever execution yields a
/// fault, the machine state is returned unchanged.
pub proof fn lemma_trap_preserves_state(s: VmState, inst: Inst)
    ensures
        exec_inst_spec(s, inst).1 != Trap::NoFault ==> exec_inst_spec(s, inst).0 == s,
{
}

/// No run, however long, writes the program store: the program is immutable
/// for the whole execution.
pub proof fn lemma_run_preserves_program(s: VmState, fuel: nat)
    ensures
        run_spec(s, fuel).0.program == s.program,
    decreases fuel,
{
    if !s.halt && fuel > 0 && s.ip < s.program.len() {
        let r = exec_inst_spec(s, s.program[s.ip as int]);
        lemma_exec_preserves_program(s, s.program[s.ip as int]);
        if r.1 == Trap::NoFault {
            lemma_run_preserves_program(r.0, (fuel - 1) as nat);
        }
    }
}

/// Executes one instruction against the machine, exactly as
/// [`exec_inst_spec`] describes.
pub fn art_exec_inst(art: &mut Articuno, inst: &Inst) -> (trap: Trap)
    requires
        old(art).wf(),
    ensures
        final(art).wf(),
        final(art)@ == exec_inst_spec(old(art)@, *inst).0,
        trap == exec_inst_spec(old(art)@, *inst).1,
{
    match inst.ins_t {
        InstType::InstPlus => {
            if art.stack_size < 2 {
                return Trap::StackUnderflow;
            }
            let a = art.stack.pop().unwrap();
            let b = art.stack.pop().unwrap();
            art.stack.push(b.wrapping_add(a));
            art.stack_size = art.stack_size - 1;
        },
        InstType::InstMinus => {
            if art.stack_size < 2 {
                return Trap::StackUnderflow;
            }
            let a = art.stack.pop().unwrap();
            let b = art.stack.pop().unwrap();
            art.stack.push(b.wrapping_sub(a));
            art.stack_size = art.stack_size - 1;
        },
        InstType::InstMult => {
            if art.stack_size < 2 {
                return Trap::StackUnderflow;
            }
            let a = art.stack.pop().unwrap();
            let b = art.stack.pop().unwrap();
            art.stack.push(b.wrapping_mul(a));
            art.stack_size = art.stack_size - 1;
        },
        InstType::InstDiv => {
            if art.stack_size < 2 {
                return Trap::StackUnderflow;
            }
            if art.stack[art.stack_size - 1] == 0 {
                return Trap::DivideByZero;
            }
            let a = art.stack.pop().unwrap();
            let b = art.stack.pop().unwrap();
            art.stack.push(b / a);
            art.stack_size = art.stack_size - 1;
        },
        InstType::InstPush => {
            if art.stack_size >= STACK_CAPACITY {
                return Trap::StackOverflow;
            }
            art.stack.push(inst.operand);
            art.stack_size = art.stack_size + 1;
        },
        InstType::InstDump => {
        },
        InstType::InstJmp => {
            art.ip = inst.operand;
            proof {
                assert(art@ =~= exec_inst_spec(old(art)@, *inst).0);
            }
            return Trap::NoFault;
        },
        InstType::InstJmpIf => {
            if art.stack_size < 1 {
                return Trap::StackUnderflow;
            }
            if art.stack[art.stack_size - 1] == 1 {
                art.stack.pop();
                art.stack_size = art.stack_size - 1;
                art.ip = inst.operand;
                proof {
                    assert(art@ =~= exec_inst_spec(old(art)@, *inst).0);
                }
                return Trap::NoFault;
            }
        },
        InstType::InstEq => {
            if art.stack_size < 2 {
                return Trap::StackUnderflow;
            }
            let a = art.stack.pop().unwrap();
            let b = art.stack.pop().unwrap();
            if a == b {
                art.stack.push(1);
            } else {
                art.stack.push(0);
            }
            art.stack_size = art.stack_size - 1;
        },
        InstType::InstHalt => {
            art.halt = true;
        },
        InstType::InstPrintDebug => {
            if art.stack_size < 1 {
                return Trap::StackUnderflow;
            }
        },
        InstType::InstDup => {
            if art.stack_size == 0 {
                return Trap::StackUnderflow;
            }
            if inst.operand >= art.stack_size {
                return Trap::IllegalInstructionAccess;
            }
            if art.stack_size >= STACK_CAPACITY {
                return Trap::StackOverflow;
            }
            let a = art.stack[inst.operand];
            art.stack.push(a);
            art.stack_size = art.stack_size + 1;
        },
    }
    art.ip = art.ip.wrapping_add(1);
    proof {
        assert(art@ =~= exec_inst_spec(old(art)@, *inst).0);
    }
    Trap::NoFault
}

/// Runs the machine for at most `limit` steps, exactly as [`run_spec`]
/// describes.  The limit is the external step budget: exhausting it stops the
/// loop without a trap.
pub fn art_run(art: &mut Articuno, limit: usize) -> (trap: Trap)
    requires
        old(art).wf(),
    ensures
        final(art).wf(),
        final(art)@ == run_spec(old(art)@, limit as nat).0,
        trap == run_spec(old(art)@, limit as nat).1,
{
    let ghost s0 = art@;
    let mut i: usize = 0;
    while !art.halt && i < limit
        invariant
            s0 == old(art)@,
            art.wf(),
            i <= limit,
            run_spec(s0, limit as nat) == run_spec(art@, (limit - i) as nat),
        decreases limit - i,
    {
        if art.ip >= art.program_size {
            return Trap::IllegalInstructionAccess;
        }
        let inst = art.program[art.ip];
        let ghost before = art@;
        let trap = art_exec_inst(art, &inst);
        proof {
            assert(run_spec(before, (limit - i) as nat) == if trap == Trap::NoFault {
                run_spec(art@, (limit - i - 1) as nat)
            } else {
                (art@, trap)
            });
        }
        if !matches!(trap, Trap::NoFault) {
            return trap;
        }
        i = i + 1;
    }
    Trap::NoFault
}

} // verus!

