//! The instruction representation: the machine word, the closed opcode set,
//! and the constructors that build each instruction.

use vstd::prelude::*;

verus! {

/// The scalar value type manipulated by the machine: a fixed-width unsigned
/// machine word.  It is the sole operand type and the sole stack element type.
pub type Word = usize;

/// The closed set of opcodes.  Dispatch is an exhaustive match; adding an
/// opcode means extending both this type and the execution engine.
#[derive(Clone, Copy, PartialEq, Eq, Structural, Debug)]
pub enum InstType {
    /// Push the operand onto the stack.
    InstPush,
    /// Pop two words, push their sum.
    InstPlus,
    /// Pop two words, push the second popped minus the first popped.
    InstMinus,
    /// Pop two words, push their product.
    InstMult,
    /// Pop two words, push the second popped divided by the first popped.
    InstDiv,
    /// Push a copy of the element at the operand's offset from the bottom.
    InstDup,
    /// Set the instruction pointer to the operand.
    InstJmp,
    /// Pop one word; jump to the operand if it equals 1, else fall through.
    InstJmpIf,
    /// Pop two words, push 1 if they are equal and 0 otherwise.
    InstEq,
    /// Set the halt flag; the run terminates after this instruction.
    InstHalt,
    /// Report the whole stack as a debug side effect; no state change.
    InstDump,
    /// Report the stack as a debug side effect; faults if the stack is empty.
    InstPrintDebug,
}

/// One instruction: an opcode paired with a single operand.  Instructions are
/// immutable once constructed; the operand is conventionally zero for opcodes
/// that take none.
#[derive(Clone, Copy, PartialEq, Eq, Structural, Debug)]
pub struct Inst {
    pub ins_t: InstType,
    pub operand: Word,
}

/// Builds a push instruction carrying the literal value to push.
pub fn inst_push(operand: Word) -> (inst: Inst)
    ensures
        inst == (Inst { ins_t: InstType::InstPush, operand }),
{
    Inst { ins_t: InstType::InstPush, operand }
}

/// Builds an addition instruction.
pub fn inst_plus() -> (inst: Inst)
    ensures
        inst == (Inst { ins_t: InstType::InstPlus, operand: 0 }),
{
    Inst { ins_t: InstType::InstPlus, operand: 0 }
}

/// Builds a subtraction instruction.
pub fn inst_minus() -> (inst: Inst)
    ensures
        inst == (Inst { ins_t: InstType::InstMinus, operand: 0 }),
{
    Inst { ins_t: InstType::InstMinus, operand: 0 }
}

/// Builds a multiplication instruction.
pub fn inst_mul() -> (inst: Inst)
    ensures
        inst == (Inst { ins_t: InstType::InstMult, operand: 0 }),
{
    Inst { ins_t: InstType::InstMult, operand: 0 }
}

/// Builds a division instruction.
pub fn inst_div() -> (inst: Inst)
    ensures
        inst == (Inst { ins_t: InstType::InstDiv, operand: 0 }),
{
    Inst { ins_t: InstType::InstDiv, operand: 0 }
}

/// Builds a stack-dump instruction.
pub fn inst_dump() -> (inst: Inst)
    ensures
        inst == (Inst { ins_t: InstType::InstDump, operand: 0 }),
{
    Inst { ins_t: InstType::InstDump, operand: 0 }
}

/// Builds an unconditional jump to the given program index.
pub fn inst_jump(operand: Word) -> (inst: Inst)
    ensures
        inst == (Inst { ins_t: InstType::InstJmp, operand }),
{
    Inst { ins_t: InstType::InstJmp, operand }
}

/// Builds a halt instruction.
pub fn inst_halt() -> (inst: Inst)
    ensures
        inst == (Inst { ins_t: InstType::InstHalt, operand: 0 }),
{
    Inst { ins_t: InstType::InstHalt, operand: 0 }
}

/// Builds a conditional jump to the given program index.
pub fn inst_jmp_if(operand: Word) -> (inst: Inst)
    ensures
        inst == (Inst { ins_t: InstType::InstJmpIf, operand }),
{
    Inst { ins_t: InstType::InstJmpIf, operand }
}

/// Builds an equality-test instruction.
pub fn inst_eq() -> (inst: Inst)
    ensures
        inst == (Inst { ins_t: InstType::InstEq, operand: 0 }),
{
    Inst { ins_t: InstType::InstEq, operand: 0 }
}

/// Builds a debug-print instruction.
pub fn inst_print_debug() -> (inst: Inst)
    ensures
        inst == (Inst { ins_t: InstType::InstPrintDebug, operand: 0 }),
{
    Inst { ins_t: InstType::InstPrintDebug, operand: 0 }
}

/// Builds a duplication instruction for the given offset from the bottom.
pub fn inst_dup(operand: Word) -> (inst: Inst)
    ensures
        inst == (Inst { ins_t: InstType::InstDup, operand }),
{
    Inst { ins_t: InstType::InstDup, operand }
}

} // verus!
