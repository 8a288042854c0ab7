//! Laws of the operators themselves: which component encodes each one, and how each is shown.

use vstd::prelude::*;

use crate::component::Component;
use crate::expr::IntExpr;
use crate::operator::{decimal, ids_text, Operator};
use crate::{Grid, Id};

use crate::components::arrays::{TfBooleanMask, TfBooleanMask_, TfConcat0, TfConcat1, TfSegmentMax, TfWhere1};
use crate::components::elementwise::{TfAdd, TfCast, TfConstant, TfDivide, TfEqual, TfGreater, TfMaximum, TfMinimum, TfMultiply, TfNotEqual, TfSquare, TfSubtract, TfWhere3, TfZeros};
use crate::components::reduce::{TfReduceAny0, TfReduceAny1, TfReduceMax, TfReduceMax0, TfReduceMax1, TfReduceMean, TfReduceProd, TfReduceSum, TfReduceSum0, TfReduceSum1};
use crate::components::shape::{TfArgmax, TfBincount, TfCumsum, TfExpandDims, TfEye, TfFill, TfMatmul, TfOneHot, TfOnes, TfRange, TfRoll, TfSequenceMask, TfTensordot, TfTranspose};

verus! {

/// Each operator is encoded by its own component: the operator's encoding, its count of
/// fresh names and its number of operands are those of the component of the same name.
pub proof fn law_operator_encodes_by_its_component(op: Operator, ops: Seq<Grid<IntExpr>>, fresh: u64)
    ensures
        op is TfAdd ==> op.spec_expression(ops, fresh) == TfAdd.spec_expression(ops, fresh)
            && op.spec_fresh_count() == TfAdd.spec_fresh_count() && op.spec_operand_arity() == TfAdd.spec_operand_arity(),
        op is TfArgmax ==> op.spec_expression(ops, fresh) == TfArgmax.spec_expression(ops, fresh)
            && op.spec_fresh_count() == TfArgmax.spec_fresh_count() && op.spec_operand_arity() == TfArgmax.spec_operand_arity(),
        op is TfBooleanMask ==> op.spec_expression(ops, fresh) == TfBooleanMask.spec_expression(ops, fresh)
            && op.spec_fresh_count() == TfBooleanMask.spec_fresh_count() && op.spec_operand_arity() == TfBooleanMask.spec_operand_arity(),
        op is TfBooleanMask_ ==> op.spec_expression(ops, fresh) == TfBooleanMask_.spec_expression(ops, fresh)
            && op.spec_fresh_count() == TfBooleanMask_.spec_fresh_count() && op.spec_operand_arity() == TfBooleanMask_.spec_operand_arity(),
        op is TfCast ==> op.spec_expression(ops, fresh) == TfCast.spec_expression(ops, fresh)
            && op.spec_fresh_count() == TfCast.spec_fresh_count() && op.spec_operand_arity() == TfCast.spec_operand_arity(),
        op is TfConcat0 ==> op.spec_expression(ops, fresh) == TfConcat0.spec_expression(ops, fresh)
            && op.spec_fresh_count() == TfConcat0.spec_fresh_count() && op.spec_operand_arity() == TfConcat0.spec_operand_arity(),
        op is TfConcat1 ==> op.spec_expression(ops, fresh) == TfConcat1.spec_expression(ops, fresh)
            && op.spec_fresh_count() == TfConcat1.spec_fresh_count() && op.spec_operand_arity() == TfConcat1.spec_operand_arity(),
        op is TfConstant ==> op.spec_expression(ops, fresh) == TfConstant.spec_expression(ops, fresh)
            && op.spec_fresh_count() == TfConstant.spec_fresh_count() && op.spec_operand_arity() == TfConstant.spec_operand_arity(),
        op is TfDivide ==> op.spec_expression(ops, fresh) == TfDivide.spec_expression(ops, fresh)
            && op.spec_fresh_count() == TfDivide.spec_fresh_count() && op.spec_operand_arity() == TfDivide.spec_operand_arity(),
        op is TfEqual ==> op.spec_expression(ops, fresh) == TfEqual.spec_expression(ops, fresh)
            && op.spec_fresh_count() == TfEqual.spec_fresh_count() && op.spec_operand_arity() == TfEqual.spec_operand_arity(),
        op is TfExpandDims ==> op.spec_expression(ops, fresh) == TfExpandDims.spec_expression(ops, fresh)
            && op.spec_fresh_count() == TfExpandDims.spec_fresh_count() && op.spec_operand_arity() == TfExpandDims.spec_operand_arity(),
        op is TfGreater ==> op.spec_expression(ops, fresh) == TfGreater.spec_expression(ops, fresh)
            && op.spec_fresh_count() == TfGreater.spec_fresh_count() && op.spec_operand_arity() == TfGreater.spec_operand_arity(),
        op is TfBincount ==> op.spec_expression(ops, fresh) == TfBincount.spec_expression(ops, fresh)
            && op.spec_fresh_count() == TfBincount.spec_fresh_count() && op.spec_operand_arity() == TfBincount.spec_operand_arity(),
        op is TfCumsum ==> op.spec_expression(ops, fresh) == TfCumsum.spec_expression(ops, fresh)
            && op.spec_fresh_count() == TfCumsum.spec_fresh_count() && op.spec_operand_arity() == TfCumsum.spec_operand_arity(),
        op is TfMultiply ==> op.spec_expression(ops, fresh) == TfMultiply.spec_expression(ops, fresh)
            && op.spec_fresh_count() == TfMultiply.spec_fresh_count() && op.spec_operand_arity() == TfMultiply.spec_operand_arity(),
        op is TfRange ==> op.spec_expression(ops, fresh) == TfRange.spec_expression(ops, fresh)
            && op.spec_fresh_count() == TfRange.spec_fresh_count() && op.spec_operand_arity() == TfRange.spec_operand_arity(),
        op is TfSequenceMask ==> op.spec_expression(ops, fresh) == TfSequenceMask.spec_expression(ops, fresh)
            && op.spec_fresh_count() == TfSequenceMask.spec_fresh_count() && op.spec_operand_arity() == TfSequenceMask.spec_operand_arity(),
        op is TfSquare ==> op.spec_expression(ops, fresh) == TfSquare.spec_expression(ops, fresh)
            && op.spec_fresh_count() == TfSquare.spec_fresh_count() && op.spec_operand_arity() == TfSquare.spec_operand_arity(),
        op is TfSubtract ==> op.spec_expression(ops, fresh) == TfSubtract.spec_expression(ops, fresh)
            && op.spec_fresh_count() == TfSubtract.spec_fresh_count() && op.spec_operand_arity() == TfSubtract.spec_operand_arity(),
        op is TfTensordot ==> op.spec_expression(ops, fresh) == TfTensordot.spec_expression(ops, fresh)
            && op.spec_fresh_count() == TfTensordot.spec_fresh_count() && op.spec_operand_arity() == TfTensordot.spec_operand_arity(),
        op is TfTranspose ==> op.spec_expression(ops, fresh) == TfTranspose.spec_expression(ops, fresh)
            && op.spec_fresh_count() == TfTranspose.spec_fresh_count() && op.spec_operand_arity() == TfTranspose.spec_operand_arity(),
        op is TfWhere1 ==> op.spec_expression(ops, fresh) == TfWhere1.spec_expression(ops, fresh)
            && op.spec_fresh_count() == TfWhere1.spec_fresh_count() && op.spec_operand_arity() == TfWhere1.spec_operand_arity(),
        op is TfWhere3 ==> op.spec_expression(ops, fresh) == TfWhere3.spec_expression(ops, fresh)
            && op.spec_fresh_count() == TfWhere3.spec_fresh_count() && op.spec_operand_arity() == TfWhere3.spec_operand_arity(),
        op is TfEye ==> op.spec_expression(ops, fresh) == TfEye.spec_expression(ops, fresh)
            && op.spec_fresh_count() == TfEye.spec_fresh_count() && op.spec_operand_arity() == TfEye.spec_operand_arity(),
        op is TfFill ==> op.spec_expression(ops, fresh) == TfFill.spec_expression(ops, fresh)
            && op.spec_fresh_count() == TfFill.spec_fresh_count() && op.spec_operand_arity() == TfFill.spec_operand_arity(),
        op is TfMatmul ==> op.spec_expression(ops, fresh) == TfMatmul.spec_expression(ops, fresh)
            && op.spec_fresh_count() == TfMatmul.spec_fresh_count() && op.spec_operand_arity() == TfMatmul.spec_operand_arity(),
        op is TfMaximum ==> op.spec_expression(ops, fresh) == TfMaximum.spec_expression(ops, fresh)
            && op.spec_fresh_count() == TfMaximum.spec_fresh_count() && op.spec_operand_arity() == TfMaximum.spec_operand_arity(),
        op is TfMinimum ==> op.spec_expression(ops, fresh) == TfMinimum.spec_expression(ops, fresh)
            && op.spec_fresh_count() == TfMinimum.spec_fresh_count() && op.spec_operand_arity() == TfMinimum.spec_operand_arity(),
        op is TfNotEqual ==> op.spec_expression(ops, fresh) == TfNotEqual.spec_expression(ops, fresh)
            && op.spec_fresh_count() == TfNotEqual.spec_fresh_count() && op.spec_operand_arity() == TfNotEqual.spec_operand_arity(),
        op is TfOnes ==> op.spec_expression(ops, fresh) == TfOnes.spec_expression(ops, fresh)
            && op.spec_fresh_count() == TfOnes.spec_fresh_count() && op.spec_operand_arity() == TfOnes.spec_operand_arity(),
        op is TfReduceAny0 ==> op.spec_expression(ops, fresh) == TfReduceAny0.spec_expression(ops, fresh)
            && op.spec_fresh_count() == TfReduceAny0.spec_fresh_count() && op.spec_operand_arity() == TfReduceAny0.spec_operand_arity(),
        op is TfReduceAny1 ==> op.spec_expression(ops, fresh) == TfReduceAny1.spec_expression(ops, fresh)
            && op.spec_fresh_count() == TfReduceAny1.spec_fresh_count() && op.spec_operand_arity() == TfReduceAny1.spec_operand_arity(),
        op is TfReduceMean ==> op.spec_expression(ops, fresh) == TfReduceMean.spec_expression(ops, fresh)
            && op.spec_fresh_count() == TfReduceMean.spec_fresh_count() && op.spec_operand_arity() == TfReduceMean.spec_operand_arity(),
        op is TfReduceProd ==> op.spec_expression(ops, fresh) == TfReduceProd.spec_expression(ops, fresh)
            && op.spec_fresh_count() == TfReduceProd.spec_fresh_count() && op.spec_operand_arity() == TfReduceProd.spec_operand_arity(),
        op is TfRoll ==> op.spec_expression(ops, fresh) == TfRoll.spec_expression(ops, fresh)
            && op.spec_fresh_count() == TfRoll.spec_fresh_count() && op.spec_operand_arity() == TfRoll.spec_operand_arity(),
        op is TfZeros ==> op.spec_expression(ops, fresh) == TfZeros.spec_expression(ops, fresh)
            && op.spec_fresh_count() == TfZeros.spec_fresh_count() && op.spec_operand_arity() == TfZeros.spec_operand_arity(),
        op is TfOneHot ==> op.spec_expression(ops, fresh) == TfOneHot.spec_expression(ops, fresh)
            && op.spec_fresh_count() == TfOneHot.spec_fresh_count() && op.spec_operand_arity() == TfOneHot.spec_operand_arity(),
        op is TfReduceMax ==> op.spec_expression(ops, fresh) == TfReduceMax.spec_expression(ops, fresh)
            && op.spec_fresh_count() == TfReduceMax.spec_fresh_count() && op.spec_operand_arity() == TfReduceMax.spec_operand_arity(),
        op is TfReduceMax0 ==> op.spec_expression(ops, fresh) == TfReduceMax0.spec_expression(ops, fresh)
            && op.spec_fresh_count() == TfReduceMax0.spec_fresh_count() && op.spec_operand_arity() == TfReduceMax0.spec_operand_arity(),
        op is TfReduceMax1 ==> op.spec_expression(ops, fresh) == TfReduceMax1.spec_expression(ops, fresh)
            && op.spec_fresh_count() == TfReduceMax1.spec_fresh_count() && op.spec_operand_arity() == TfReduceMax1.spec_operand_arity(),
        op is TfReduceSum ==> op.spec_expression(ops, fresh) == TfReduceSum.spec_expression(ops, fresh)
            && op.spec_fresh_count() == TfReduceSum.spec_fresh_count() && op.spec_operand_arity() == TfReduceSum.spec_operand_arity(),
        op is TfReduceSum0 ==> op.spec_expression(ops, fresh) == TfReduceSum0.spec_expression(ops, fresh)
            && op.spec_fresh_count() == TfReduceSum0.spec_fresh_count() && op.spec_operand_arity() == TfReduceSum0.spec_operand_arity(),
        op is TfReduceSum1 ==> op.spec_expression(ops, fresh) == TfReduceSum1.spec_expression(ops, fresh)
            && op.spec_fresh_count() == TfReduceSum1.spec_fresh_count() && op.spec_operand_arity() == TfReduceSum1.spec_operand_arity(),
        op is TfSegmentMax ==> op.spec_expression(ops, fresh) == TfSegmentMax.spec_expression(ops, fresh)
            && op.spec_fresh_count() == TfSegmentMax.spec_fresh_count() && op.spec_operand_arity() == TfSegmentMax.spec_operand_arity(),
{
}

proof fn lemma_ids_text_small(ids: Seq<Id>)
    requires
        1 <= ids.len() <= 3,
    ensures
        ids.len() == 1 ==> ids_text(ids) == decimal(ids[0].0 as nat),
        ids.len() == 2 ==> ids_text(ids) == decimal(ids[0].0 as nat) + ", "@ + decimal(ids[1].0 as nat),
        ids.len() == 3 ==> ids_text(ids) == decimal(ids[0].0 as nat) + ", "@ + decimal(ids[1].0 as nat) + ", "@
            + decimal(ids[2].0 as nat),
{
    if ids.len() == 1 {
        assert(ids_text(ids) == decimal(ids[0].0 as nat));
    } else if ids.len() == 2 {
        let p = ids.drop_last();
        assert(p.len() == 1 && p[0] == ids[0]);
        assert(ids_text(p) == decimal(ids[0].0 as nat));
        assert(ids_text(ids) == ids_text(p) + ", "@ + decimal(ids.last().0 as nat));
    } else {
        let p = ids.drop_last();
        let q = p.drop_last();
        assert(q.len() == 1 && q[0] == ids[0]);
        assert(p.len() == 2 && p.last() == ids[1]);
        assert(ids_text(q) == decimal(ids[0].0 as nat));
        assert(ids_text(p) == ids_text(q) + ", "@ + decimal(p.last().0 as nat));
        assert(ids_text(ids) == ids_text(p) + ", "@ + decimal(ids.last().0 as nat));
    }
}

/// How each operator is shown: its name, its operands in decimal separated by `", "`, and
/// for an operation along one axis, `", axis = "` and that axis.
#[verifier::spinoff_prover]
#[verifier::rlimit(60)]
pub proof fn law_operator_text(op: Operator)
    ensures
        op is Var ==> op.text() == "var: vec"@,
        op matches Operator::TfAdd(a, b) ==> op.text() == "TfAdd: "@ + decimal(a.0 as nat) + ", "@ + decimal(b.0 as nat),
        op matches Operator::TfArgmax(a) ==> op.text() == "TfArgmax: "@ + decimal(a.0 as nat) + ", axis = 1"@,
        op matches Operator::TfBooleanMask(a, b) ==> op.text() == "TfBooleanMask: "@ + decimal(a.0 as nat) + ", "@ + decimal(b.0 as nat),
        op matches Operator::TfBooleanMask_(a, b) ==> op.text() == "TfBooleanMask: "@ + decimal(a.0 as nat) + ", "@ + decimal(b.0 as nat),
        op matches Operator::TfCast(a) ==> op.text() == "TfCast: "@ + decimal(a.0 as nat),
        op matches Operator::TfConcat0(a, b) ==> op.text() == "TfConcat: "@ + decimal(a.0 as nat) + ", "@ + decimal(b.0 as nat) + ", axis = 0"@,
        op matches Operator::TfConcat1(a, b) ==> op.text() == "TfConcat: "@ + decimal(a.0 as nat) + ", "@ + decimal(b.0 as nat) + ", axis = 1"@,
        op matches Operator::TfConstant(a) ==> op.text() == "TfConstant: "@ + decimal(a.0 as nat),
        op matches Operator::TfDivide(a, b) ==> op.text() == "TfDivide: "@ + decimal(a.0 as nat) + ", "@ + decimal(b.0 as nat),
        op matches Operator::TfEqual(a, b) ==> op.text() == "TfEqual: "@ + decimal(a.0 as nat) + ", "@ + decimal(b.0 as nat),
        op matches Operator::TfExpandDims(a) ==> op.text() == "TfExpandDims: "@ + decimal(a.0 as nat) + ", axis = 1"@,
        op matches Operator::TfGreater(a, b) ==> op.text() == "TfGreater: "@ + decimal(a.0 as nat) + ", "@ + decimal(b.0 as nat),
        op matches Operator::TfBincount(a) ==> op.text() == "TfBincount: "@ + decimal(a.0 as nat),
        op matches Operator::TfCumsum(a, b) ==> op.text() == "TfCumsum: "@ + decimal(a.0 as nat) + ", "@ + decimal(b.0 as nat),
        op matches Operator::TfMultiply(a, b) ==> op.text() == "TfMultiply: "@ + decimal(a.0 as nat) + ", "@ + decimal(b.0 as nat),
        op matches Operator::TfRange(a, b) ==> op.text() == "TfRange: "@ + decimal(a.0 as nat) + ", "@ + decimal(b.0 as nat),
        op matches Operator::TfSequenceMask(a) ==> op.text() == "TfSequenceMask: "@ + decimal(a.0 as nat),
        op matches Operator::TfSquare(a) ==> op.text() == "TfSquare: "@ + decimal(a.0 as nat),
        op matches Operator::TfSubtract(a, b) ==> op.text() == "TfSubtract: "@ + decimal(a.0 as nat) + ", "@ + decimal(b.0 as nat),
        op matches Operator::TfTensordot(a, b) ==> op.text() == "TfTensordot: "@ + decimal(a.0 as nat) + ", "@ + decimal(b.0 as nat),
        op matches Operator::TfTranspose(a) ==> op.text() == "TfTranspose: "@ + decimal(a.0 as nat),
        op matches Operator::TfWhere1(a) ==> op.text() == "TfWhere: "@ + decimal(a.0 as nat),
        op matches Operator::TfWhere3(a, b, c) ==> op.text() == "TfWhere: "@ + decimal(a.0 as nat) + ", "@ + decimal(b.0 as nat) + ", "@ + decimal(c.0 as nat),
        op matches Operator::TfEye(a, b) ==> op.text() == "TfEye: "@ + decimal(a.0 as nat) + ", "@ + decimal(b.0 as nat),
        op matches Operator::TfFill(a, b) ==> op.text() == "TfFill: "@ + decimal(a.0 as nat) + ", "@ + decimal(b.0 as nat),
        op matches Operator::TfMatmul(a, b) ==> op.text() == "TfMatmul: "@ + decimal(a.0 as nat) + ", "@ + decimal(b.0 as nat),
        op matches Operator::TfMaximum(a, b) ==> op.text() == "TfMaximum: "@ + decimal(a.0 as nat) + ", "@ + decimal(b.0 as nat),
        op matches Operator::TfMinimum(a, b) ==> op.text() == "TfMinimum: "@ + decimal(a.0 as nat) + ", "@ + decimal(b.0 as nat),
        op matches Operator::TfNotEqual(a, b) ==> op.text() == "TfNotEqual: "@ + decimal(a.0 as nat) + ", "@ + decimal(b.0 as nat),
        op matches Operator::TfOnes(a) ==> op.text() == "TfOnes: "@ + decimal(a.0 as nat),
        op matches Operator::TfReduceAny0(a) ==> op.text() == "TfReduceAny: "@ + decimal(a.0 as nat) + ", axis = 0"@,
        op matches Operator::TfReduceAny1(a) ==> op.text() == "TfReduceAny: "@ + decimal(a.0 as nat) + ", axis = 1"@,
        op matches Operator::TfReduceMean(a) ==> op.text() == "TfReduceMean: "@ + decimal(a.0 as nat) + ", axis = 0"@,
        op matches Operator::TfReduceProd(a) ==> op.text() == "TfReduceProd: "@ + decimal(a.0 as nat) + ", axis = 1"@,
        op matches Operator::TfRoll(a) ==> op.text() == "TfRoll: "@ + decimal(a.0 as nat),
        op matches Operator::TfZeros(a) ==> op.text() == "TfZeros: "@ + decimal(a.0 as nat),
        op matches Operator::TfOneHot(a, b) ==> op.text() == "TfOneHot: "@ + decimal(a.0 as nat) + ", "@ + decimal(b.0 as nat),
        op matches Operator::TfReduceMax(a) ==> op.text() == "TfReduceMax: "@ + decimal(a.0 as nat),
        op matches Operator::TfReduceMax0(a) ==> op.text() == "TfReduceMax: "@ + decimal(a.0 as nat) + ", axis = 0"@,
        op matches Operator::TfReduceMax1(a) ==> op.text() == "TfReduceMax: "@ + decimal(a.0 as nat) + ", axis = 1"@,
        op matches Operator::TfReduceSum(a) ==> op.text() == "TfReduceSum: "@ + decimal(a.0 as nat),
        op matches Operator::TfReduceSum0(a) ==> op.text() == "TfReduceSum: "@ + decimal(a.0 as nat) + ", axis = 0"@,
        op matches Operator::TfReduceSum1(a) ==> op.text() == "TfReduceSum: "@ + decimal(a.0 as nat) + ", axis = 1"@,
        op matches Operator::TfSegmentMax(a, b) ==> op.text() == "TfSegmentMax: "@ + decimal(a.0 as nat) + ", "@ + decimal(b.0 as nat),
{
    reveal_strlit("");
    assert(""@ =~= Seq::<char>::empty());
    if !(op is Var) {
        lemma_ids_text_small(op.operand_seq());
    }
    let t = op.text();
    assert(t == op.label() + ids_text(op.operand_seq()) + op.suffix());
}

} // verus!
