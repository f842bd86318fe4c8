//! Handing an instruction to the assembler.
use vstd::prelude::*;
use crate::asm_forms::{AsmOp, EncodeError, LabelMap, emit, emit_ready};
use iced_x86::code_asm::CodeAssembler;
use crate::encoder::Instruction;
use crate::lowering::{lower, lower_spec};

verus! {

/// Whether every form of a plan can be handed to the assembler.
pub open spec fn all_ready(ops: Seq<AsmOp>, labels: &LabelMap) -> bool {
    forall|i: int| 0 <= i < ops.len() ==> emit_ready(#[trigger] ops[i], labels)
}

impl Instruction {
    /// Adds the instruction to the assembler, as the forms of
    /// [`lower_spec`] in order. Fails with the lowering's error where the
    /// instruction has no encoding, with a register or label error where a
    /// form is not ready, and otherwise only where the assembler refuses a
    /// form. An instruction with no forms (a dead one, a label) succeeds and
    /// leaves the assembler as it was.
    pub fn encode(&self, assembler: &mut CodeAssembler, labels: &LabelMap) -> (r: Result<(), EncodeError>)
        ensures
            lower_spec(*self) is Err ==> r == Err::<(), EncodeError>(lower_spec(*self)->Err_0),
            r is Ok ==> lower_spec(*self) is Ok && all_ready(lower_spec(*self)->Ok_0, labels),
            (lower_spec(*self) is Ok && all_ready(lower_spec(*self)->Ok_0, labels)) ==> (r is Ok
                || r == Err::<(), EncodeError>(EncodeError::Assembler)),
            lower_spec(*self) matches Ok(ops) && ops.len() == 0 ==> r is Ok && *final(assembler) == *old(assembler),
            (self.0 is DEAD || self.0 is LABEL) ==> r is Ok && *final(assembler) == *old(assembler),
    {
        let ops = match lower(*self) {
            Ok(ops) => ops,
            Err(e) => return Err(e),
        };
        let ghost plan = lower_spec(*self)->Ok_0;
        assert(ops@ == plan);
        let mut i: usize = 0;
        while i < ops.len()
            invariant
                lower_spec(*self) is Ok,
                plan == lower_spec(*self)->Ok_0,
                ops@ == plan,
                i <= ops@.len(),
                forall|j: int| 0 <= j < i ==> emit_ready(#[trigger] plan[j], labels),
                i == 0 ==> *assembler == *old(assembler),
            decreases ops.len() - i,
        {
            let op = ops[i];
            match emit(assembler, op, labels) {
                Ok(()) => {},
                Err(e) => {
                    proof {
                        if all_ready(plan, labels) {
                            assert(emit_ready(plan[i as int], labels));
                        }
                    }
                    return Err(e);
                },
            }
            i = i + 1;
        }
        Ok(())
    }
}

} // verus!
