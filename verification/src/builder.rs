//! Writing a program instruction by instruction.

use vstd::prelude::*;

use crate::operator::Operator;
use crate::{Id, Instruction, Program};

verus! {

/// The number of `Var` instructions in `instrs`.
pub open spec fn var_count(instrs: Seq<Instruction>) -> nat
    decreases instrs.len(),
{
    if instrs.len() == 0 {
        0
    } else {
        var_count(instrs.drop_last()) + if instrs.last().operator is Var { 1nat } else { 0nat }
    }
}

/// What holds of every program that a builder writes: each instruction defines the id
/// of its own position, and there is one input per `Var` instruction.
pub open spec fn program_wf(instrs: Seq<Instruction>, inputs: Seq<Vec<Vec<i64>>>) -> bool {
    &&& forall|i: int| 0 <= i < instrs.len() ==> (#[trigger] instrs[i]).result == Id(i as u32)
    &&& inputs.len() == var_count(instrs)
}

/// Writes a program one instruction at a time; each method returns the id it defines.
#[derive(Debug)]
pub struct ProgramBuilder {
    program: Program,
}

impl ProgramBuilder {
    /// The instructions written so far.
    pub closed spec fn instructions(&self) -> Seq<Instruction> {
        self.program.instructions@
    }

    /// The inputs given so far, one per `var`.
    pub closed spec fn inputs(&self) -> Seq<Vec<Vec<i64>>> {
        self.program.inputs@
    }

    /// The builder's invariant.
    pub open spec fn wf(&self) -> bool {
        program_wf(self.instructions(), self.inputs())
    }

    /// A builder with nothing written.
    pub fn new() -> (b: ProgramBuilder)
        ensures
            b.wf(),
            b.instructions() == Seq::<Instruction>::empty(),
            b.inputs() == Seq::<Vec<Vec<i64>>>::empty(),
    {
        ProgramBuilder { program: Program { instructions: Vec::new(), inputs: Vec::new() } }
    }

    /// The program written.
    pub fn finish(self) -> (p: Program)
        ensures
            p.instructions@ == self.instructions(),
            p.inputs@ == self.inputs(),
    {
        self.program
    }

    /// The id that the next instruction defines.
    fn next_id(&self) -> (r: Id)
        requires
            self.instructions().len() <= u32::MAX,
        ensures
            r == Id(self.instructions().len() as u32),
    {
        Id(self.program.instructions.len() as u32)
    }

    /// Declares a program input with the given value.
    pub fn var(&mut self, input: Vec<Vec<i64>>) -> (r: Id)
        requires
            old(self).wf(),
            old(self).instructions().len() < u32::MAX,
        ensures
            final(self).wf(),
            r == Id(old(self).instructions().len() as u32),
            final(self).instructions() == old(self).instructions().push(
                Instruction { result: r, operator: Operator::Var },
            ),
            final(self).inputs() == old(self).inputs().push(input),
    {
        let result = self.next_id();
        self.program.instructions.push(Instruction { result, operator: Operator::Var });
        self.program.inputs.push(input);
        proof {
            let s = self.instructions();
            assert(s.drop_last() =~= old(self).instructions());
        }
        result
    }

    /// Appends an instruction applying `operator`.
    fn push_operator(&mut self, operator: Operator) -> (r: Id)
        requires
            old(self).wf(),
            old(self).instructions().len() < u32::MAX,
            !(operator is Var),
        ensures
            final(self).wf(),
            r == Id(old(self).instructions().len() as u32),
            final(self).instructions() == old(self).instructions().push(
                Instruction { result: r, operator },
            ),
            final(self).inputs() == old(self).inputs(),
    {
        let result = self.next_id();
        self.program.instructions.push(Instruction { result, operator });
        proof {
            let s = self.instructions();
            assert(s.drop_last() =~= old(self).instructions());
        }
        result
    }

    /// Appends `TfAdd` applied to `a`, `b`.
    pub fn tf_add(&mut self, a: Id, b: Id) -> (r: Id)
        requires
            old(self).wf(),
            old(self).instructions().len() < u32::MAX,
        ensures
            final(self).wf(),
            r == Id(old(self).instructions().len() as u32),
            final(self).instructions() == old(self).instructions().push(
                Instruction { result: r, operator: Operator::TfAdd(a, b) },
            ),
            final(self).inputs() == old(self).inputs(),
    {
        self.push_operator(Operator::TfAdd(a, b))
    }

    /// Appends `TfArgmax` applied to `a`.
    pub fn tf_argmax(&mut self, a: Id) -> (r: Id)
        requires
            old(self).wf(),
            old(self).instructions().len() < u32::MAX,
        ensures
            final(self).wf(),
            r == Id(old(self).instructions().len() as u32),
            final(self).instructions() == old(self).instructions().push(
                Instruction { result: r, operator: Operator::TfArgmax(a) },
            ),
            final(self).inputs() == old(self).inputs(),
    {
        self.push_operator(Operator::TfArgmax(a))
    }

    /// Appends `TfBooleanMask` applied to `a`, `b`.
    pub fn tf_boolean_mask(&mut self, a: Id, b: Id) -> (r: Id)
        requires
            old(self).wf(),
            old(self).instructions().len() < u32::MAX,
        ensures
            final(self).wf(),
            r == Id(old(self).instructions().len() as u32),
            final(self).instructions() == old(self).instructions().push(
                Instruction { result: r, operator: Operator::TfBooleanMask(a, b) },
            ),
            final(self).inputs() == old(self).inputs(),
    {
        self.push_operator(Operator::TfBooleanMask(a, b))
    }

    /// Appends `TfBooleanMask_` applied to `a`, `b`.
    pub fn tf_boolean_mask_(&mut self, a: Id, b: Id) -> (r: Id)
        requires
            old(self).wf(),
            old(self).instructions().len() < u32::MAX,
        ensures
            final(self).wf(),
            r == Id(old(self).instructions().len() as u32),
            final(self).instructions() == old(self).instructions().push(
                Instruction { result: r, operator: Operator::TfBooleanMask_(a, b) },
            ),
            final(self).inputs() == old(self).inputs(),
    {
        self.push_operator(Operator::TfBooleanMask_(a, b))
    }

    /// Appends `TfCast` applied to `a`.
    pub fn tf_cast(&mut self, a: Id) -> (r: Id)
        requires
            old(self).wf(),
            old(self).instructions().len() < u32::MAX,
        ensures
            final(self).wf(),
            r == Id(old(self).instructions().len() as u32),
            final(self).instructions() == old(self).instructions().push(
                Instruction { result: r, operator: Operator::TfCast(a) },
            ),
            final(self).inputs() == old(self).inputs(),
    {
        self.push_operator(Operator::TfCast(a))
    }

    /// Appends `TfConcat0` applied to `a`, `b`.
    pub fn tf_concat0(&mut self, a: Id, b: Id) -> (r: Id)
        requires
            old(self).wf(),
            old(self).instructions().len() < u32::MAX,
        ensures
            final(self).wf(),
            r == Id(old(self).instructions().len() as u32),
            final(self).instructions() == old(self).instructions().push(
                Instruction { result: r, operator: Operator::TfConcat0(a, b) },
            ),
            final(self).inputs() == old(self).inputs(),
    {
        self.push_operator(Operator::TfConcat0(a, b))
    }

    /// Appends `TfConcat1` applied to `a`, `b`.
    pub fn tf_concat1(&mut self, a: Id, b: Id) -> (r: Id)
        requires
            old(self).wf(),
            old(self).instructions().len() < u32::MAX,
        ensures
            final(self).wf(),
            r == Id(old(self).instructions().len() as u32),
            final(self).instructions() == old(self).instructions().push(
                Instruction { result: r, operator: Operator::TfConcat1(a, b) },
            ),
            final(self).inputs() == old(self).inputs(),
    {
        self.push_operator(Operator::TfConcat1(a, b))
    }

    /// Appends `TfConstant` applied to `a`.
    pub fn tf_constant(&mut self, a: Id) -> (r: Id)
        requires
            old(self).wf(),
            old(self).instructions().len() < u32::MAX,
        ensures
            final(self).wf(),
            r == Id(old(self).instructions().len() as u32),
            final(self).instructions() == old(self).instructions().push(
                Instruction { result: r, operator: Operator::TfConstant(a) },
            ),
            final(self).inputs() == old(self).inputs(),
    {
        self.push_operator(Operator::TfConstant(a))
    }

    /// Appends `TfDivide` applied to `a`, `b`.
    pub fn tf_divide(&mut self, a: Id, b: Id) -> (r: Id)
        requires
            old(self).wf(),
            old(self).instructions().len() < u32::MAX,
        ensures
            final(self).wf(),
            r == Id(old(self).instructions().len() as u32),
            final(self).instructions() == old(self).instructions().push(
                Instruction { result: r, operator: Operator::TfDivide(a, b) },
            ),
            final(self).inputs() == old(self).inputs(),
    {
        self.push_operator(Operator::TfDivide(a, b))
    }

    /// Appends `TfEqual` applied to `a`, `b`.
    pub fn tf_equal(&mut self, a: Id, b: Id) -> (r: Id)
        requires
            old(self).wf(),
            old(self).instructions().len() < u32::MAX,
        ensures
            final(self).wf(),
            r == Id(old(self).instructions().len() as u32),
            final(self).instructions() == old(self).instructions().push(
                Instruction { result: r, operator: Operator::TfEqual(a, b) },
            ),
            final(self).inputs() == old(self).inputs(),
    {
        self.push_operator(Operator::TfEqual(a, b))
    }

    /// Appends `TfExpandDims` applied to `a`.
    pub fn tf_expand_dims(&mut self, a: Id) -> (r: Id)
        requires
            old(self).wf(),
            old(self).instructions().len() < u32::MAX,
        ensures
            final(self).wf(),
            r == Id(old(self).instructions().len() as u32),
            final(self).instructions() == old(self).instructions().push(
                Instruction { result: r, operator: Operator::TfExpandDims(a) },
            ),
            final(self).inputs() == old(self).inputs(),
    {
        self.push_operator(Operator::TfExpandDims(a))
    }

    /// Appends `TfGreater` applied to `a`, `b`.
    pub fn tf_greater(&mut self, a: Id, b: Id) -> (r: Id)
        requires
            old(self).wf(),
            old(self).instructions().len() < u32::MAX,
        ensures
            final(self).wf(),
            r == Id(old(self).instructions().len() as u32),
            final(self).instructions() == old(self).instructions().push(
                Instruction { result: r, operator: Operator::TfGreater(a, b) },
            ),
            final(self).inputs() == old(self).inputs(),
    {
        self.push_operator(Operator::TfGreater(a, b))
    }

    /// Appends `TfBincount` applied to `a`.
    pub fn tf_bincount(&mut self, a: Id) -> (r: Id)
        requires
            old(self).wf(),
            old(self).instructions().len() < u32::MAX,
        ensures
            final(self).wf(),
            r == Id(old(self).instructions().len() as u32),
            final(self).instructions() == old(self).instructions().push(
                Instruction { result: r, operator: Operator::TfBincount(a) },
            ),
            final(self).inputs() == old(self).inputs(),
    {
        self.push_operator(Operator::TfBincount(a))
    }

    /// Appends `TfCumsum` applied to `a`, `b`.
    pub fn tf_cumsum(&mut self, a: Id, b: Id) -> (r: Id)
        requires
            old(self).wf(),
            old(self).instructions().len() < u32::MAX,
        ensures
            final(self).wf(),
            r == Id(old(self).instructions().len() as u32),
            final(self).instructions() == old(self).instructions().push(
                Instruction { result: r, operator: Operator::TfCumsum(a, b) },
            ),
            final(self).inputs() == old(self).inputs(),
    {
        self.push_operator(Operator::TfCumsum(a, b))
    }

    /// Appends `TfMultiply` applied to `a`, `b`.
    pub fn tf_multiply(&mut self, a: Id, b: Id) -> (r: Id)
        requires
            old(self).wf(),
            old(self).instructions().len() < u32::MAX,
        ensures
            final(self).wf(),
            r == Id(old(self).instructions().len() as u32),
            final(self).instructions() == old(self).instructions().push(
                Instruction { result: r, operator: Operator::TfMultiply(a, b) },
            ),
            final(self).inputs() == old(self).inputs(),
    {
        self.push_operator(Operator::TfMultiply(a, b))
    }

    /// Appends `TfRange` applied to `a`, `b`.
    pub fn tf_range(&mut self, a: Id, b: Id) -> (r: Id)
        requires
            old(self).wf(),
            old(self).instructions().len() < u32::MAX,
        ensures
            final(self).wf(),
            r == Id(old(self).instructions().len() as u32),
            final(self).instructions() == old(self).instructions().push(
                Instruction { result: r, operator: Operator::TfRange(a, b) },
            ),
            final(self).inputs() == old(self).inputs(),
    {
        self.push_operator(Operator::TfRange(a, b))
    }

    /// Appends `TfSequenceMask` applied to `a`.
    pub fn tf_sequence_mask(&mut self, a: Id) -> (r: Id)
        requires
            old(self).wf(),
            old(self).instructions().len() < u32::MAX,
        ensures
            final(self).wf(),
            r == Id(old(self).instructions().len() as u32),
            final(self).instructions() == old(self).instructions().push(
                Instruction { result: r, operator: Operator::TfSequenceMask(a) },
            ),
            final(self).inputs() == old(self).inputs(),
    {
        self.push_operator(Operator::TfSequenceMask(a))
    }

    /// Appends `TfSquare` applied to `a`.
    pub fn tf_square(&mut self, a: Id) -> (r: Id)
        requires
            old(self).wf(),
            old(self).instructions().len() < u32::MAX,
        ensures
            final(self).wf(),
            r == Id(old(self).instructions().len() as u32),
            final(self).instructions() == old(self).instructions().push(
                Instruction { result: r, operator: Operator::TfSquare(a) },
            ),
            final(self).inputs() == old(self).inputs(),
    {
        self.push_operator(Operator::TfSquare(a))
    }

    /// Appends `TfSubtract` applied to `a`, `b`.
    pub fn tf_subtract(&mut self, a: Id, b: Id) -> (r: Id)
        requires
            old(self).wf(),
            old(self).instructions().len() < u32::MAX,
        ensures
            final(self).wf(),
            r == Id(old(self).instructions().len() as u32),
            final(self).instructions() == old(self).instructions().push(
                Instruction { result: r, operator: Operator::TfSubtract(a, b) },
            ),
            final(self).inputs() == old(self).inputs(),
    {
        self.push_operator(Operator::TfSubtract(a, b))
    }

    /// Appends `TfTensordot` applied to `a`, `b`.
    pub fn tf_tensordot(&mut self, a: Id, b: Id) -> (r: Id)
        requires
            old(self).wf(),
            old(self).instructions().len() < u32::MAX,
        ensures
            final(self).wf(),
            r == Id(old(self).instructions().len() as u32),
            final(self).instructions() == old(self).instructions().push(
                Instruction { result: r, operator: Operator::TfTensordot(a, b) },
            ),
            final(self).inputs() == old(self).inputs(),
    {
        self.push_operator(Operator::TfTensordot(a, b))
    }

    /// Appends `TfTranspose` applied to `a`.
    pub fn tf_transpose(&mut self, a: Id) -> (r: Id)
        requires
            old(self).wf(),
            old(self).instructions().len() < u32::MAX,
        ensures
            final(self).wf(),
            r == Id(old(self).instructions().len() as u32),
            final(self).instructions() == old(self).instructions().push(
                Instruction { result: r, operator: Operator::TfTranspose(a) },
            ),
            final(self).inputs() == old(self).inputs(),
    {
        self.push_operator(Operator::TfTranspose(a))
    }

    /// Appends `TfWhere1` applied to `a`.
    pub fn tf_where1(&mut self, a: Id) -> (r: Id)
        requires
            old(self).wf(),
            old(self).instructions().len() < u32::MAX,
        ensures
            final(self).wf(),
            r == Id(old(self).instructions().len() as u32),
            final(self).instructions() == old(self).instructions().push(
                Instruction { result: r, operator: Operator::TfWhere1(a) },
            ),
            final(self).inputs() == old(self).inputs(),
    {
        self.push_operator(Operator::TfWhere1(a))
    }

    /// Appends `TfWhere3` applied to `a`, `b`, `c`.
    pub fn tf_where3(&mut self, a: Id, b: Id, c: Id) -> (r: Id)
        requires
            old(self).wf(),
            old(self).instructions().len() < u32::MAX,
        ensures
            final(self).wf(),
            r == Id(old(self).instructions().len() as u32),
            final(self).instructions() == old(self).instructions().push(
                Instruction { result: r, operator: Operator::TfWhere3(a, b, c) },
            ),
            final(self).inputs() == old(self).inputs(),
    {
        self.push_operator(Operator::TfWhere3(a, b, c))
    }

    /// Appends `TfEye` applied to `a`, `b`.
    pub fn tf_eye(&mut self, a: Id, b: Id) -> (r: Id)
        requires
            old(self).wf(),
            old(self).instructions().len() < u32::MAX,
        ensures
            final(self).wf(),
            r == Id(old(self).instructions().len() as u32),
            final(self).instructions() == old(self).instructions().push(
                Instruction { result: r, operator: Operator::TfEye(a, b) },
            ),
            final(self).inputs() == old(self).inputs(),
    {
        self.push_operator(Operator::TfEye(a, b))
    }

    /// Appends `TfFill` applied to `a`, `b`.
    pub fn tf_fill(&mut self, a: Id, b: Id) -> (r: Id)
        requires
            old(self).wf(),
            old(self).instructions().len() < u32::MAX,
        ensures
            final(self).wf(),
            r == Id(old(self).instructions().len() as u32),
            final(self).instructions() == old(self).instructions().push(
                Instruction { result: r, operator: Operator::TfFill(a, b) },
            ),
            final(self).inputs() == old(self).inputs(),
    {
        self.push_operator(Operator::TfFill(a, b))
    }

    /// Appends `TfMatmul` applied to `a`, `b`.
    pub fn tf_matmul(&mut self, a: Id, b: Id) -> (r: Id)
        requires
            old(self).wf(),
            old(self).instructions().len() < u32::MAX,
        ensures
            final(self).wf(),
            r == Id(old(self).instructions().len() as u32),
            final(self).instructions() == old(self).instructions().push(
                Instruction { result: r, operator: Operator::TfMatmul(a, b) },
            ),
            final(self).inputs() == old(self).inputs(),
    {
        self.push_operator(Operator::TfMatmul(a, b))
    }

    /// Appends `TfMaximum` applied to `a`, `b`.
    pub fn tf_maximum(&mut self, a: Id, b: Id) -> (r: Id)
        requires
            old(self).wf(),
            old(self).instructions().len() < u32::MAX,
        ensures
            final(self).wf(),
            r == Id(old(self).instructions().len() as u32),
            final(self).instructions() == old(self).instructions().push(
                Instruction { result: r, operator: Operator::TfMaximum(a, b) },
            ),
            final(self).inputs() == old(self).inputs(),
    {
        self.push_operator(Operator::TfMaximum(a, b))
    }

    /// Appends `TfMinimum` applied to `a`, `b`.
    pub fn tf_minimum(&mut self, a: Id, b: Id) -> (r: Id)
        requires
            old(self).wf(),
            old(self).instructions().len() < u32::MAX,
        ensures
            final(self).wf(),
            r == Id(old(self).instructions().len() as u32),
            final(self).instructions() == old(self).instructions().push(
                Instruction { result: r, operator: Operator::TfMinimum(a, b) },
            ),
            final(self).inputs() == old(self).inputs(),
    {
        self.push_operator(Operator::TfMinimum(a, b))
    }

    /// Appends `TfNotEqual` applied to `a`, `b`.
    pub fn tf_not_equal(&mut self, a: Id, b: Id) -> (r: Id)
        requires
            old(self).wf(),
            old(self).instructions().len() < u32::MAX,
        ensures
            final(self).wf(),
            r == Id(old(self).instructions().len() as u32),
            final(self).instructions() == old(self).instructions().push(
                Instruction { result: r, operator: Operator::TfNotEqual(a, b) },
            ),
            final(self).inputs() == old(self).inputs(),
    {
        self.push_operator(Operator::TfNotEqual(a, b))
    }

    /// Appends `TfOnes` applied to `a`.
    pub fn tf_ones(&mut self, a: Id) -> (r: Id)
        requires
            old(self).wf(),
            old(self).instructions().len() < u32::MAX,
        ensures
            final(self).wf(),
            r == Id(old(self).instructions().len() as u32),
            final(self).instructions() == old(self).instructions().push(
                Instruction { result: r, operator: Operator::TfOnes(a) },
            ),
            final(self).inputs() == old(self).inputs(),
    {
        self.push_operator(Operator::TfOnes(a))
    }

    /// Appends `TfReduceAny0` applied to `a`.
    pub fn tf_reduce_any0(&mut self, a: Id) -> (r: Id)
        requires
            old(self).wf(),
            old(self).instructions().len() < u32::MAX,
        ensures
            final(self).wf(),
            r == Id(old(self).instructions().len() as u32),
            final(self).instructions() == old(self).instructions().push(
                Instruction { result: r, operator: Operator::TfReduceAny0(a) },
            ),
            final(self).inputs() == old(self).inputs(),
    {
        self.push_operator(Operator::TfReduceAny0(a))
    }

    /// Appends `TfReduceAny1` applied to `a`.
    pub fn tf_reduce_any1(&mut self, a: Id) -> (r: Id)
        requires
            old(self).wf(),
            old(self).instructions().len() < u32::MAX,
        ensures
            final(self).wf(),
            r == Id(old(self).instructions().len() as u32),
            final(self).instructions() == old(self).instructions().push(
                Instruction { result: r, operator: Operator::TfReduceAny1(a) },
            ),
            final(self).inputs() == old(self).inputs(),
    {
        self.push_operator(Operator::TfReduceAny1(a))
    }

    /// Appends `TfReduceMean` applied to `a`.
    pub fn tf_reduce_mean(&mut self, a: Id) -> (r: Id)
        requires
            old(self).wf(),
            old(self).instructions().len() < u32::MAX,
        ensures
            final(self).wf(),
            r == Id(old(self).instructions().len() as u32),
            final(self).instructions() == old(self).instructions().push(
                Instruction { result: r, operator: Operator::TfReduceMean(a) },
            ),
            final(self).inputs() == old(self).inputs(),
    {
        self.push_operator(Operator::TfReduceMean(a))
    }

    /// Appends `TfReduceProd` applied to `a`.
    pub fn tf_reduce_prod(&mut self, a: Id) -> (r: Id)
        requires
            old(self).wf(),
            old(self).instructions().len() < u32::MAX,
        ensures
            final(self).wf(),
            r == Id(old(self).instructions().len() as u32),
            final(self).instructions() == old(self).instructions().push(
                Instruction { result: r, operator: Operator::TfReduceProd(a) },
            ),
            final(self).inputs() == old(self).inputs(),
    {
        self.push_operator(Operator::TfReduceProd(a))
    }

    /// Appends `TfRoll` applied to `a`.
    pub fn tf_roll(&mut self, a: Id) -> (r: Id)
        requires
            old(self).wf(),
            old(self).instructions().len() < u32::MAX,
        ensures
            final(self).wf(),
            r == Id(old(self).instructions().len() as u32),
            final(self).instructions() == old(self).instructions().push(
                Instruction { result: r, operator: Operator::TfRoll(a) },
            ),
            final(self).inputs() == old(self).inputs(),
    {
        self.push_operator(Operator::TfRoll(a))
    }

    /// Appends `TfZeros` applied to `a`.
    pub fn tf_zeros(&mut self, a: Id) -> (r: Id)
        requires
            old(self).wf(),
            old(self).instructions().len() < u32::MAX,
        ensures
            final(self).wf(),
            r == Id(old(self).instructions().len() as u32),
            final(self).instructions() == old(self).instructions().push(
                Instruction { result: r, operator: Operator::TfZeros(a) },
            ),
            final(self).inputs() == old(self).inputs(),
    {
        self.push_operator(Operator::TfZeros(a))
    }

}

} // verus!
