//! The machine state: a bounded operand stack, a bounded program store, the
//! instruction pointer and the halt flag, together with its abstract model.

use vstd::prelude::*;

use crate::inst::Inst;
use crate::inst::Word;

verus! {

/// The most elements the operand stack can ever hold.
pub const STACK_CAPACITY: usize = 1024;

/// The most instructions the program store can ever hold.
pub const PROGRAM_CAPACITY: usize = 1024;

/// The abstract machine state: the mathematical model that the contracts and
/// the execution semantics are stated over.
#[verifier::ext_equal]
pub ghost struct VmState {
    /// The operand stack, bottom first.
    pub stack: Seq<Word>,
    /// The program store, in execution order.
    pub program: Seq<Inst>,
    /// The index of the next instruction to fetch.
    pub ip: Word,
    /// Whether a halt instruction has been executed.
    pub halt: bool,
}

impl VmState {
    /// Both bounded stores are within their capacities.
    pub open spec fn wf(self) -> bool {
        &&& self.stack.len() <= STACK_CAPACITY
        &&& self.program.len() <= PROGRAM_CAPACITY
    }
}

/// The machine: one operand stack and one program store by composition, plus
/// the instruction pointer and the halt flag.  The tracked sizes are kept in
/// lockstep with the physical contents; that consistency is part of [`Articuno::wf`].
pub struct Articuno {
    pub stack: Vec<Word>,
    pub stack_size: usize,
    pub program: Vec<Inst>,
    pub program_size: usize,
    pub ip: Word,
    pub halt: bool,
}

impl View for Articuno {
    type V = VmState;

    open spec fn view(&self) -> VmState {
        VmState { stack: self.stack@, program: self.program@, ip: self.ip, halt: self.halt }
    }
}

impl Articuno {
    /// Well-formedness: each tracked size equals the length of its backing
    /// storage, and both stores are within their capacities.
    pub open spec fn wf(&self) -> bool {
        &&& self.stack_size == self.stack@.len()
        &&& self.program_size == self.program@.len()
        &&& self@.wf()
    }
}

/// Creates a machine with an empty stack, an empty program, the instruction
/// pointer at zero and the halt flag clear.
pub fn art_new() -> (art: Articuno)
    ensures
        art.wf(),
        art@.stack == Seq::<Word>::empty(),
        art@.program == Seq::<Inst>::empty(),
        art@.ip == 0,
        art@.halt == false,
{
    Articuno {
        stack: Vec::new(),
        stack_size: 0,
        program: Vec::new(),
        program_size: 0,
        ip: 0,
        halt: false,
    }
}

/// Appends one instruction to the program store.  Programs are built this way
/// only, before execution begins; a full program store is a construction-time
/// fault, so callers must check the capacity first.
pub fn art_push_inst(art: &mut Articuno, inst: Inst)
    requires
        old(art).wf(),
        old(art)@.program.len() < PROGRAM_CAPACITY,
    ensures
        final(art).wf(),
        final(art)@.program == old(art)@.program.push(inst),
        final(art)@.stack == old(art)@.stack,
        final(art)@.ip == old(art)@.ip,
        final(art)@.halt == old(art)@.halt,
{
    art.program.push(inst);
    art.program_size = art.program_size + 1;
}

/// Returns the stack contents, bottom to top: the data of the debug dump.
/// Rendering the dump is the driver's concern, not the machine's.
pub fn art_dump_stack(art: &Articuno) -> (r: Vec<Word>)
    ensures
        r@ == art@.stack,
{
    let mut r: Vec<Word> = Vec::new();
    let mut i: usize = 0;
    while i < art.stack.len()
        invariant
            i <= art.stack@.len(),
            r@ == art.stack@.take(i as int),
        decreases art.stack@.len() - i,
    {
        r.push(art.stack[i]);
        proof {
            assert(art.stack@.take(i + 1) =~= art.stack@.take(i as int).push(art.stack@[i as int]));
        }
        i = i + 1;
    }
    proof {
        assert(art.stack@.take(art.stack@.len() as int) =~= art.stack@);
    }
    r
}

} // verus!
