//! The operators of a program as components: each one dispatches to its own component.

use vstd::prelude::*;

use crate::component::Component;
use crate::expr::{zero, ExprContext, IntExpr};
use crate::operator::Operator;
use crate::{Grid, Id, Vecs};

use crate::components::arrays::{TfBooleanMask, TfBooleanMask_, TfConcat0, TfConcat1, TfSegmentMax, TfWhere1};
use crate::components::elementwise::{TfAdd, TfCast, TfConstant, TfDivide, TfEqual, TfGreater, TfMaximum, TfMinimum, TfMultiply, TfNotEqual, TfSquare, TfSubtract, TfWhere3, TfZeros};
use crate::components::reduce::{TfReduceAny0, TfReduceAny1, TfReduceMax, TfReduceMax0, TfReduceMax1, TfReduceMean, TfReduceProd, TfReduceSum, TfReduceSum0, TfReduceSum1};
use crate::components::shape::{TfArgmax, TfBincount, TfCumsum, TfExpandDims, TfEye, TfFill, TfMatmul, TfOneHot, TfOnes, TfRange, TfRoll, TfSequenceMask, TfTensordot, TfTranspose};

verus! {

impl Component for Operator {
    open spec fn spec_operand_arity(&self) -> nat {
        self.operand_seq().len()
    }

    open spec fn spec_operator(&self, ids: Seq<Id>) -> Operator {
        self.with_operands(ids)
    }

    open spec fn spec_expression(&self, ops: Seq<Grid<IntExpr>>, fresh: u64) -> Grid<IntExpr> {
        match *self {
            Operator::Var => Grid { dims: (zero(), zero()), cells: Seq::empty() },
            Operator::TfAdd(_, _) => TfAdd.spec_expression(ops, fresh),
            Operator::TfArgmax(_) => TfArgmax.spec_expression(ops, fresh),
            Operator::TfBooleanMask(_, _) => TfBooleanMask.spec_expression(ops, fresh),
            Operator::TfBooleanMask_(_, _) => TfBooleanMask_.spec_expression(ops, fresh),
            Operator::TfCast(_) => TfCast.spec_expression(ops, fresh),
            Operator::TfConcat0(_, _) => TfConcat0.spec_expression(ops, fresh),
            Operator::TfConcat1(_, _) => TfConcat1.spec_expression(ops, fresh),
            Operator::TfConstant(_) => TfConstant.spec_expression(ops, fresh),
            Operator::TfDivide(_, _) => TfDivide.spec_expression(ops, fresh),
            Operator::TfEqual(_, _) => TfEqual.spec_expression(ops, fresh),
            Operator::TfExpandDims(_) => TfExpandDims.spec_expression(ops, fresh),
            Operator::TfGreater(_, _) => TfGreater.spec_expression(ops, fresh),
            Operator::TfBincount(_) => TfBincount.spec_expression(ops, fresh),
            Operator::TfCumsum(_, _) => TfCumsum.spec_expression(ops, fresh),
            Operator::TfMultiply(_, _) => TfMultiply.spec_expression(ops, fresh),
            Operator::TfRange(_, _) => TfRange.spec_expression(ops, fresh),
            Operator::TfSequenceMask(_) => TfSequenceMask.spec_expression(ops, fresh),
            Operator::TfSquare(_) => TfSquare.spec_expression(ops, fresh),
            Operator::TfSubtract(_, _) => TfSubtract.spec_expression(ops, fresh),
            Operator::TfTensordot(_, _) => TfTensordot.spec_expression(ops, fresh),
            Operator::TfTranspose(_) => TfTranspose.spec_expression(ops, fresh),
            Operator::TfWhere1(_) => TfWhere1.spec_expression(ops, fresh),
            Operator::TfWhere3(_, _, _) => TfWhere3.spec_expression(ops, fresh),
            Operator::TfEye(_, _) => TfEye.spec_expression(ops, fresh),
            Operator::TfFill(_, _) => TfFill.spec_expression(ops, fresh),
            Operator::TfMatmul(_, _) => TfMatmul.spec_expression(ops, fresh),
            Operator::TfMaximum(_, _) => TfMaximum.spec_expression(ops, fresh),
            Operator::TfMinimum(_, _) => TfMinimum.spec_expression(ops, fresh),
            Operator::TfNotEqual(_, _) => TfNotEqual.spec_expression(ops, fresh),
            Operator::TfOnes(_) => TfOnes.spec_expression(ops, fresh),
            Operator::TfReduceAny0(_) => TfReduceAny0.spec_expression(ops, fresh),
            Operator::TfReduceAny1(_) => TfReduceAny1.spec_expression(ops, fresh),
            Operator::TfReduceMean(_) => TfReduceMean.spec_expression(ops, fresh),
            Operator::TfReduceProd(_) => TfReduceProd.spec_expression(ops, fresh),
            Operator::TfRoll(_) => TfRoll.spec_expression(ops, fresh),
            Operator::TfZeros(_) => TfZeros.spec_expression(ops, fresh),
            Operator::TfOneHot(_, _) => TfOneHot.spec_expression(ops, fresh),
            Operator::TfReduceMax(_) => TfReduceMax.spec_expression(ops, fresh),
            Operator::TfReduceMax0(_) => TfReduceMax0.spec_expression(ops, fresh),
            Operator::TfReduceMax1(_) => TfReduceMax1.spec_expression(ops, fresh),
            Operator::TfReduceSum(_) => TfReduceSum.spec_expression(ops, fresh),
            Operator::TfReduceSum0(_) => TfReduceSum0.spec_expression(ops, fresh),
            Operator::TfReduceSum1(_) => TfReduceSum1.spec_expression(ops, fresh),
            Operator::TfSegmentMax(_, _) => TfSegmentMax.spec_expression(ops, fresh),
        }
    }

    open spec fn spec_fresh_count(&self) -> nat {
        match *self {
            Operator::Var => 0,
            Operator::TfAdd(_, _) => TfAdd.spec_fresh_count(),
            Operator::TfArgmax(_) => TfArgmax.spec_fresh_count(),
            Operator::TfBooleanMask(_, _) => TfBooleanMask.spec_fresh_count(),
            Operator::TfBooleanMask_(_, _) => TfBooleanMask_.spec_fresh_count(),
            Operator::TfCast(_) => TfCast.spec_fresh_count(),
            Operator::TfConcat0(_, _) => TfConcat0.spec_fresh_count(),
            Operator::TfConcat1(_, _) => TfConcat1.spec_fresh_count(),
            Operator::TfConstant(_) => TfConstant.spec_fresh_count(),
            Operator::TfDivide(_, _) => TfDivide.spec_fresh_count(),
            Operator::TfEqual(_, _) => TfEqual.spec_fresh_count(),
            Operator::TfExpandDims(_) => TfExpandDims.spec_fresh_count(),
            Operator::TfGreater(_, _) => TfGreater.spec_fresh_count(),
            Operator::TfBincount(_) => TfBincount.spec_fresh_count(),
            Operator::TfCumsum(_, _) => TfCumsum.spec_fresh_count(),
            Operator::TfMultiply(_, _) => TfMultiply.spec_fresh_count(),
            Operator::TfRange(_, _) => TfRange.spec_fresh_count(),
            Operator::TfSequenceMask(_) => TfSequenceMask.spec_fresh_count(),
            Operator::TfSquare(_) => TfSquare.spec_fresh_count(),
            Operator::TfSubtract(_, _) => TfSubtract.spec_fresh_count(),
            Operator::TfTensordot(_, _) => TfTensordot.spec_fresh_count(),
            Operator::TfTranspose(_) => TfTranspose.spec_fresh_count(),
            Operator::TfWhere1(_) => TfWhere1.spec_fresh_count(),
            Operator::TfWhere3(_, _, _) => TfWhere3.spec_fresh_count(),
            Operator::TfEye(_, _) => TfEye.spec_fresh_count(),
            Operator::TfFill(_, _) => TfFill.spec_fresh_count(),
            Operator::TfMatmul(_, _) => TfMatmul.spec_fresh_count(),
            Operator::TfMaximum(_, _) => TfMaximum.spec_fresh_count(),
            Operator::TfMinimum(_, _) => TfMinimum.spec_fresh_count(),
            Operator::TfNotEqual(_, _) => TfNotEqual.spec_fresh_count(),
            Operator::TfOnes(_) => TfOnes.spec_fresh_count(),
            Operator::TfReduceAny0(_) => TfReduceAny0.spec_fresh_count(),
            Operator::TfReduceAny1(_) => TfReduceAny1.spec_fresh_count(),
            Operator::TfReduceMean(_) => TfReduceMean.spec_fresh_count(),
            Operator::TfReduceProd(_) => TfReduceProd.spec_fresh_count(),
            Operator::TfRoll(_) => TfRoll.spec_fresh_count(),
            Operator::TfZeros(_) => TfZeros.spec_fresh_count(),
            Operator::TfOneHot(_, _) => TfOneHot.spec_fresh_count(),
            Operator::TfReduceMax(_) => TfReduceMax.spec_fresh_count(),
            Operator::TfReduceMax0(_) => TfReduceMax0.spec_fresh_count(),
            Operator::TfReduceMax1(_) => TfReduceMax1.spec_fresh_count(),
            Operator::TfReduceSum(_) => TfReduceSum.spec_fresh_count(),
            Operator::TfReduceSum0(_) => TfReduceSum0.spec_fresh_count(),
            Operator::TfReduceSum1(_) => TfReduceSum1.spec_fresh_count(),
            Operator::TfSegmentMax(_, _) => TfSegmentMax.spec_fresh_count(),
        }
    }

    open spec fn is_operation(&self) -> bool {
        !(*self is Var)
    }

    fn operand_arity(&self) -> usize {
        self.arity()
    }

    fn make_operator(&self, immediates: &Vec<Vecs<i64>>, operands: &[Id]) -> Operator {
        match self {
            Operator::Var => vstd::pervasive::unreached(),
            Operator::TfAdd(_, _) => TfAdd.make_operator(immediates, operands),
            Operator::TfArgmax(_) => TfArgmax.make_operator(immediates, operands),
            Operator::TfBooleanMask(_, _) => TfBooleanMask.make_operator(immediates, operands),
            Operator::TfBooleanMask_(_, _) => TfBooleanMask_.make_operator(immediates, operands),
            Operator::TfCast(_) => TfCast.make_operator(immediates, operands),
            Operator::TfConcat0(_, _) => TfConcat0.make_operator(immediates, operands),
            Operator::TfConcat1(_, _) => TfConcat1.make_operator(immediates, operands),
            Operator::TfConstant(_) => TfConstant.make_operator(immediates, operands),
            Operator::TfDivide(_, _) => TfDivide.make_operator(immediates, operands),
            Operator::TfEqual(_, _) => TfEqual.make_operator(immediates, operands),
            Operator::TfExpandDims(_) => TfExpandDims.make_operator(immediates, operands),
            Operator::TfGreater(_, _) => TfGreater.make_operator(immediates, operands),
            Operator::TfBincount(_) => TfBincount.make_operator(immediates, operands),
            Operator::TfCumsum(_, _) => TfCumsum.make_operator(immediates, operands),
            Operator::TfMultiply(_, _) => TfMultiply.make_operator(immediates, operands),
            Operator::TfRange(_, _) => TfRange.make_operator(immediates, operands),
            Operator::TfSequenceMask(_) => TfSequenceMask.make_operator(immediates, operands),
            Operator::TfSquare(_) => TfSquare.make_operator(immediates, operands),
            Operator::TfSubtract(_, _) => TfSubtract.make_operator(immediates, operands),
            Operator::TfTensordot(_, _) => TfTensordot.make_operator(immediates, operands),
            Operator::TfTranspose(_) => TfTranspose.make_operator(immediates, operands),
            Operator::TfWhere1(_) => TfWhere1.make_operator(immediates, operands),
            Operator::TfWhere3(_, _, _) => TfWhere3.make_operator(immediates, operands),
            Operator::TfEye(_, _) => TfEye.make_operator(immediates, operands),
            Operator::TfFill(_, _) => TfFill.make_operator(immediates, operands),
            Operator::TfMatmul(_, _) => TfMatmul.make_operator(immediates, operands),
            Operator::TfMaximum(_, _) => TfMaximum.make_operator(immediates, operands),
            Operator::TfMinimum(_, _) => TfMinimum.make_operator(immediates, operands),
            Operator::TfNotEqual(_, _) => TfNotEqual.make_operator(immediates, operands),
            Operator::TfOnes(_) => TfOnes.make_operator(immediates, operands),
            Operator::TfReduceAny0(_) => TfReduceAny0.make_operator(immediates, operands),
            Operator::TfReduceAny1(_) => TfReduceAny1.make_operator(immediates, operands),
            Operator::TfReduceMean(_) => TfReduceMean.make_operator(immediates, operands),
            Operator::TfReduceProd(_) => TfReduceProd.make_operator(immediates, operands),
            Operator::TfRoll(_) => TfRoll.make_operator(immediates, operands),
            Operator::TfZeros(_) => TfZeros.make_operator(immediates, operands),
            Operator::TfOneHot(_, _) => TfOneHot.make_operator(immediates, operands),
            Operator::TfReduceMax(_) => TfReduceMax.make_operator(immediates, operands),
            Operator::TfReduceMax0(_) => TfReduceMax0.make_operator(immediates, operands),
            Operator::TfReduceMax1(_) => TfReduceMax1.make_operator(immediates, operands),
            Operator::TfReduceSum(_) => TfReduceSum.make_operator(immediates, operands),
            Operator::TfReduceSum0(_) => TfReduceSum0.make_operator(immediates, operands),
            Operator::TfReduceSum1(_) => TfReduceSum1.make_operator(immediates, operands),
            Operator::TfSegmentMax(_, _) => TfSegmentMax.make_operator(immediates, operands),
        }
    }

    fn make_expression(
        &self,
        context: &mut ExprContext,
        immediates: &[Vecs<IntExpr>],
        operands: &[Vecs<IntExpr>],
        bit_width: u32,
    ) -> Vecs<IntExpr> {
        match self {
            Operator::Var => vstd::pervasive::unreached(),
            Operator::TfAdd(_, _) => TfAdd.make_expression(context, immediates, operands, bit_width),
            Operator::TfArgmax(_) => TfArgmax.make_expression(context, immediates, operands, bit_width),
            Operator::TfBooleanMask(_, _) => TfBooleanMask.make_expression(context, immediates, operands, bit_width),
            Operator::TfBooleanMask_(_, _) => TfBooleanMask_.make_expression(context, immediates, operands, bit_width),
            Operator::TfCast(_) => TfCast.make_expression(context, immediates, operands, bit_width),
            Operator::TfConcat0(_, _) => TfConcat0.make_expression(context, immediates, operands, bit_width),
            Operator::TfConcat1(_, _) => TfConcat1.make_expression(context, immediates, operands, bit_width),
            Operator::TfConstant(_) => TfConstant.make_expression(context, immediates, operands, bit_width),
            Operator::TfDivide(_, _) => TfDivide.make_expression(context, immediates, operands, bit_width),
            Operator::TfEqual(_, _) => TfEqual.make_expression(context, immediates, operands, bit_width),
            Operator::TfExpandDims(_) => TfExpandDims.make_expression(context, immediates, operands, bit_width),
            Operator::TfGreater(_, _) => TfGreater.make_expression(context, immediates, operands, bit_width),
            Operator::TfBincount(_) => TfBincount.make_expression(context, immediates, operands, bit_width),
            Operator::TfCumsum(_, _) => TfCumsum.make_expression(context, immediates, operands, bit_width),
            Operator::TfMultiply(_, _) => TfMultiply.make_expression(context, immediates, operands, bit_width),
            Operator::TfRange(_, _) => TfRange.make_expression(context, immediates, operands, bit_width),
            Operator::TfSequenceMask(_) => TfSequenceMask.make_expression(context, immediates, operands, bit_width),
            Operator::TfSquare(_) => TfSquare.make_expression(context, immediates, operands, bit_width),
            Operator::TfSubtract(_, _) => TfSubtract.make_expression(context, immediates, operands, bit_width),
            Operator::TfTensordot(_, _) => TfTensordot.make_expression(context, immediates, operands, bit_width),
            Operator::TfTranspose(_) => TfTranspose.make_expression(context, immediates, operands, bit_width),
            Operator::TfWhere1(_) => TfWhere1.make_expression(context, immediates, operands, bit_width),
            Operator::TfWhere3(_, _, _) => TfWhere3.make_expression(context, immediates, operands, bit_width),
            Operator::TfEye(_, _) => TfEye.make_expression(context, immediates, operands, bit_width),
            Operator::TfFill(_, _) => TfFill.make_expression(context, immediates, operands, bit_width),
            Operator::TfMatmul(_, _) => TfMatmul.make_expression(context, immediates, operands, bit_width),
            Operator::TfMaximum(_, _) => TfMaximum.make_expression(context, immediates, operands, bit_width),
            Operator::TfMinimum(_, _) => TfMinimum.make_expression(context, immediates, operands, bit_width),
            Operator::TfNotEqual(_, _) => TfNotEqual.make_expression(context, immediates, operands, bit_width),
            Operator::TfOnes(_) => TfOnes.make_expression(context, immediates, operands, bit_width),
            Operator::TfReduceAny0(_) => TfReduceAny0.make_expression(context, immediates, operands, bit_width),
            Operator::TfReduceAny1(_) => TfReduceAny1.make_expression(context, immediates, operands, bit_width),
            Operator::TfReduceMean(_) => TfReduceMean.make_expression(context, immediates, operands, bit_width),
            Operator::TfReduceProd(_) => TfReduceProd.make_expression(context, immediates, operands, bit_width),
            Operator::TfRoll(_) => TfRoll.make_expression(context, immediates, operands, bit_width),
            Operator::TfZeros(_) => TfZeros.make_expression(context, immediates, operands, bit_width),
            Operator::TfOneHot(_, _) => TfOneHot.make_expression(context, immediates, operands, bit_width),
            Operator::TfReduceMax(_) => TfReduceMax.make_expression(context, immediates, operands, bit_width),
            Operator::TfReduceMax0(_) => TfReduceMax0.make_expression(context, immediates, operands, bit_width),
            Operator::TfReduceMax1(_) => TfReduceMax1.make_expression(context, immediates, operands, bit_width),
            Operator::TfReduceSum(_) => TfReduceSum.make_expression(context, immediates, operands, bit_width),
            Operator::TfReduceSum0(_) => TfReduceSum0.make_expression(context, immediates, operands, bit_width),
            Operator::TfReduceSum1(_) => TfReduceSum1.make_expression(context, immediates, operands, bit_width),
            Operator::TfSegmentMax(_, _) => TfSegmentMax.make_expression(context, immediates, operands, bit_width),
        }
    }

    fn immediate_arity(&self) -> usize {
        match self {
            Operator::Var => vstd::pervasive::unreached(),
            Operator::TfAdd(_, _) => TfAdd.immediate_arity(),
            Operator::TfArgmax(_) => TfArgmax.immediate_arity(),
            Operator::TfBooleanMask(_, _) => TfBooleanMask.immediate_arity(),
            Operator::TfBooleanMask_(_, _) => TfBooleanMask_.immediate_arity(),
            Operator::TfCast(_) => TfCast.immediate_arity(),
            Operator::TfConcat0(_, _) => TfConcat0.immediate_arity(),
            Operator::TfConcat1(_, _) => TfConcat1.immediate_arity(),
            Operator::TfConstant(_) => TfConstant.immediate_arity(),
            Operator::TfDivide(_, _) => TfDivide.immediate_arity(),
            Operator::TfEqual(_, _) => TfEqual.immediate_arity(),
            Operator::TfExpandDims(_) => TfExpandDims.immediate_arity(),
            Operator::TfGreater(_, _) => TfGreater.immediate_arity(),
            Operator::TfBincount(_) => TfBincount.immediate_arity(),
            Operator::TfCumsum(_, _) => TfCumsum.immediate_arity(),
            Operator::TfMultiply(_, _) => TfMultiply.immediate_arity(),
            Operator::TfRange(_, _) => TfRange.immediate_arity(),
            Operator::TfSequenceMask(_) => TfSequenceMask.immediate_arity(),
            Operator::TfSquare(_) => TfSquare.immediate_arity(),
            Operator::TfSubtract(_, _) => TfSubtract.immediate_arity(),
            Operator::TfTensordot(_, _) => TfTensordot.immediate_arity(),
            Operator::TfTranspose(_) => TfTranspose.immediate_arity(),
            Operator::TfWhere1(_) => TfWhere1.immediate_arity(),
            Operator::TfWhere3(_, _, _) => TfWhere3.immediate_arity(),
            Operator::TfEye(_, _) => TfEye.immediate_arity(),
            Operator::TfFill(_, _) => TfFill.immediate_arity(),
            Operator::TfMatmul(_, _) => TfMatmul.immediate_arity(),
            Operator::TfMaximum(_, _) => TfMaximum.immediate_arity(),
            Operator::TfMinimum(_, _) => TfMinimum.immediate_arity(),
            Operator::TfNotEqual(_, _) => TfNotEqual.immediate_arity(),
            Operator::TfOnes(_) => TfOnes.immediate_arity(),
            Operator::TfReduceAny0(_) => TfReduceAny0.immediate_arity(),
            Operator::TfReduceAny1(_) => TfReduceAny1.immediate_arity(),
            Operator::TfReduceMean(_) => TfReduceMean.immediate_arity(),
            Operator::TfReduceProd(_) => TfReduceProd.immediate_arity(),
            Operator::TfRoll(_) => TfRoll.immediate_arity(),
            Operator::TfZeros(_) => TfZeros.immediate_arity(),
            Operator::TfOneHot(_, _) => TfOneHot.immediate_arity(),
            Operator::TfReduceMax(_) => TfReduceMax.immediate_arity(),
            Operator::TfReduceMax0(_) => TfReduceMax0.immediate_arity(),
            Operator::TfReduceMax1(_) => TfReduceMax1.immediate_arity(),
            Operator::TfReduceSum(_) => TfReduceSum.immediate_arity(),
            Operator::TfReduceSum0(_) => TfReduceSum0.immediate_arity(),
            Operator::TfReduceSum1(_) => TfReduceSum1.immediate_arity(),
            Operator::TfSegmentMax(_, _) => TfSegmentMax.immediate_arity(),
        }
    }
}

/// The `TfAdd` component, boxed; it coerces to a `Box<dyn Component>` where components
/// are gathered.
pub fn tf_add() -> (c: Box<TfAdd>)
    ensures
        c.spec_operand_arity() == 2,
        forall|ops: Seq<Grid<IntExpr>>, fresh: u64| c.spec_expression(ops, fresh) == TfAdd.spec_expression(ops, fresh),
{
    Box::new(TfAdd)
}

/// The `TfArgmax` component, boxed; it coerces to a `Box<dyn Component>` where components
/// are gathered.
pub fn tf_argmax() -> (c: Box<TfArgmax>)
    ensures
        c.spec_operand_arity() == 1,
        forall|ops: Seq<Grid<IntExpr>>, fresh: u64| c.spec_expression(ops, fresh) == TfArgmax.spec_expression(ops, fresh),
{
    Box::new(TfArgmax)
}

/// The `TfBooleanMask` component, boxed; it coerces to a `Box<dyn Component>` where components
/// are gathered.
pub fn tf_boolean_mask() -> (c: Box<TfBooleanMask>)
    ensures
        c.spec_operand_arity() == 2,
        forall|ops: Seq<Grid<IntExpr>>, fresh: u64| c.spec_expression(ops, fresh) == TfBooleanMask.spec_expression(ops, fresh),
{
    Box::new(TfBooleanMask)
}

/// The `TfBooleanMask_` component, boxed; it coerces to a `Box<dyn Component>` where components
/// are gathered.
pub fn tf_boolean_mask_() -> (c: Box<TfBooleanMask_>)
    ensures
        c.spec_operand_arity() == 2,
        forall|ops: Seq<Grid<IntExpr>>, fresh: u64| c.spec_expression(ops, fresh) == TfBooleanMask_.spec_expression(ops, fresh),
{
    Box::new(TfBooleanMask_)
}

/// The `TfCast` component, boxed; it coerces to a `Box<dyn Component>` where components
/// are gathered.
pub fn tf_cast() -> (c: Box<TfCast>)
    ensures
        c.spec_operand_arity() == 1,
        forall|ops: Seq<Grid<IntExpr>>, fresh: u64| c.spec_expression(ops, fresh) == TfCast.spec_expression(ops, fresh),
{
    Box::new(TfCast)
}

/// The `TfConcat0` component, boxed; it coerces to a `Box<dyn Component>` where components
/// are gathered.
pub fn tf_concat0() -> (c: Box<TfConcat0>)
    ensures
        c.spec_operand_arity() == 2,
        forall|ops: Seq<Grid<IntExpr>>, fresh: u64| c.spec_expression(ops, fresh) == TfConcat0.spec_expression(ops, fresh),
{
    Box::new(TfConcat0)
}

/// The `TfConcat1` component, boxed; it coerces to a `Box<dyn Component>` where components
/// are gathered.
pub fn tf_concat1() -> (c: Box<TfConcat1>)
    ensures
        c.spec_operand_arity() == 2,
        forall|ops: Seq<Grid<IntExpr>>, fresh: u64| c.spec_expression(ops, fresh) == TfConcat1.spec_expression(ops, fresh),
{
    Box::new(TfConcat1)
}

/// The `TfConstant` component, boxed; it coerces to a `Box<dyn Component>` where components
/// are gathered.
pub fn tf_constant() -> (c: Box<TfConstant>)
    ensures
        c.spec_operand_arity() == 1,
        forall|ops: Seq<Grid<IntExpr>>, fresh: u64| c.spec_expression(ops, fresh) == TfConstant.spec_expression(ops, fresh),
{
    Box::new(TfConstant)
}

/// The `TfDivide` component, boxed; it coerces to a `Box<dyn Component>` where components
/// are gathered.
pub fn tf_divide() -> (c: Box<TfDivide>)
    ensures
        c.spec_operand_arity() == 2,
        forall|ops: Seq<Grid<IntExpr>>, fresh: u64| c.spec_expression(ops, fresh) == TfDivide.spec_expression(ops, fresh),
{
    Box::new(TfDivide)
}

/// The `TfEqual` component, boxed; it coerces to a `Box<dyn Component>` where components
/// are gathered.
pub fn tf_equal() -> (c: Box<TfEqual>)
    ensures
        c.spec_operand_arity() == 2,
        forall|ops: Seq<Grid<IntExpr>>, fresh: u64| c.spec_expression(ops, fresh) == TfEqual.spec_expression(ops, fresh),
{
    Box::new(TfEqual)
}

/// The `TfExpandDims` component, boxed; it coerces to a `Box<dyn Component>` where components
/// are gathered.
pub fn tf_expand_dims() -> (c: Box<TfExpandDims>)
    ensures
        c.spec_operand_arity() == 1,
        forall|ops: Seq<Grid<IntExpr>>, fresh: u64| c.spec_expression(ops, fresh) == TfExpandDims.spec_expression(ops, fresh),
{
    Box::new(TfExpandDims)
}

/// The `TfGreater` component, boxed; it coerces to a `Box<dyn Component>` where components
/// are gathered.
pub fn tf_greater() -> (c: Box<TfGreater>)
    ensures
        c.spec_operand_arity() == 2,
        forall|ops: Seq<Grid<IntExpr>>, fresh: u64| c.spec_expression(ops, fresh) == TfGreater.spec_expression(ops, fresh),
{
    Box::new(TfGreater)
}

/// The `TfBincount` component, boxed; it coerces to a `Box<dyn Component>` where components
/// are gathered.
pub fn tf_bincount() -> (c: Box<TfBincount>)
    ensures
        c.spec_operand_arity() == 1,
        forall|ops: Seq<Grid<IntExpr>>, fresh: u64| c.spec_expression(ops, fresh) == TfBincount.spec_expression(ops, fresh),
{
    Box::new(TfBincount)
}

/// The `TfCumsum` component, boxed; it coerces to a `Box<dyn Component>` where components
/// are gathered.
pub fn tf_cumsum() -> (c: Box<TfCumsum>)
    ensures
        c.spec_operand_arity() == 2,
        forall|ops: Seq<Grid<IntExpr>>, fresh: u64| c.spec_expression(ops, fresh) == TfCumsum.spec_expression(ops, fresh),
{
    Box::new(TfCumsum)
}

/// The `TfMultiply` component, boxed; it coerces to a `Box<dyn Component>` where components
/// are gathered.
pub fn tf_multiply() -> (c: Box<TfMultiply>)
    ensures
        c.spec_operand_arity() == 2,
        forall|ops: Seq<Grid<IntExpr>>, fresh: u64| c.spec_expression(ops, fresh) == TfMultiply.spec_expression(ops, fresh),
{
    Box::new(TfMultiply)
}

/// The `TfRange` component, boxed; it coerces to a `Box<dyn Component>` where components
/// are gathered.
pub fn tf_range() -> (c: Box<TfRange>)
    ensures
        c.spec_operand_arity() == 2,
        forall|ops: Seq<Grid<IntExpr>>, fresh: u64| c.spec_expression(ops, fresh) == TfRange.spec_expression(ops, fresh),
{
    Box::new(TfRange)
}

/// The `TfSequenceMask` component, boxed; it coerces to a `Box<dyn Component>` where components
/// are gathered.
pub fn tf_sequence_mask() -> (c: Box<TfSequenceMask>)
    ensures
        c.spec_operand_arity() == 1,
        forall|ops: Seq<Grid<IntExpr>>, fresh: u64| c.spec_expression(ops, fresh) == TfSequenceMask.spec_expression(ops, fresh),
{
    Box::new(TfSequenceMask)
}

/// The `TfSquare` component, boxed; it coerces to a `Box<dyn Component>` where components
/// are gathered.
pub fn tf_square() -> (c: Box<TfSquare>)
    ensures
        c.spec_operand_arity() == 1,
        forall|ops: Seq<Grid<IntExpr>>, fresh: u64| c.spec_expression(ops, fresh) == TfSquare.spec_expression(ops, fresh),
{
    Box::new(TfSquare)
}

/// The `TfSubtract` component, boxed; it coerces to a `Box<dyn Component>` where components
/// are gathered.
pub fn tf_subtract() -> (c: Box<TfSubtract>)
    ensures
        c.spec_operand_arity() == 2,
        forall|ops: Seq<Grid<IntExpr>>, fresh: u64| c.spec_expression(ops, fresh) == TfSubtract.spec_expression(ops, fresh),
{
    Box::new(TfSubtract)
}

/// The `TfTensordot` component, boxed; it coerces to a `Box<dyn Component>` where components
/// are gathered.
pub fn tf_tensordot() -> (c: Box<TfTensordot>)
    ensures
        c.spec_operand_arity() == 2,
        forall|ops: Seq<Grid<IntExpr>>, fresh: u64| c.spec_expression(ops, fresh) == TfTensordot.spec_expression(ops, fresh),
{
    Box::new(TfTensordot)
}

/// The `TfTranspose` component, boxed; it coerces to a `Box<dyn Component>` where components
/// are gathered.
pub fn tf_transpose() -> (c: Box<TfTranspose>)
    ensures
        c.spec_operand_arity() == 1,
        forall|ops: Seq<Grid<IntExpr>>, fresh: u64| c.spec_expression(ops, fresh) == TfTranspose.spec_expression(ops, fresh),
{
    Box::new(TfTranspose)
}

/// The `TfWhere1` component, boxed; it coerces to a `Box<dyn Component>` where components
/// are gathered.
pub fn tf_where1() -> (c: Box<TfWhere1>)
    ensures
        c.spec_operand_arity() == 1,
        forall|ops: Seq<Grid<IntExpr>>, fresh: u64| c.spec_expression(ops, fresh) == TfWhere1.spec_expression(ops, fresh),
{
    Box::new(TfWhere1)
}

/// The `TfWhere3` component, boxed; it coerces to a `Box<dyn Component>` where components
/// are gathered.
pub fn tf_where3() -> (c: Box<TfWhere3>)
    ensures
        c.spec_operand_arity() == 3,
        forall|ops: Seq<Grid<IntExpr>>, fresh: u64| c.spec_expression(ops, fresh) == TfWhere3.spec_expression(ops, fresh),
{
    Box::new(TfWhere3)
}

/// The `TfEye` component, boxed; it coerces to a `Box<dyn Component>` where components
/// are gathered.
pub fn tf_eye() -> (c: Box<TfEye>)
    ensures
        c.spec_operand_arity() == 2,
        forall|ops: Seq<Grid<IntExpr>>, fresh: u64| c.spec_expression(ops, fresh) == TfEye.spec_expression(ops, fresh),
{
    Box::new(TfEye)
}

/// The `TfFill` component, boxed; it coerces to a `Box<dyn Component>` where components
/// are gathered.
pub fn tf_fill() -> (c: Box<TfFill>)
    ensures
        c.spec_operand_arity() == 2,
        forall|ops: Seq<Grid<IntExpr>>, fresh: u64| c.spec_expression(ops, fresh) == TfFill.spec_expression(ops, fresh),
{
    Box::new(TfFill)
}

/// The `TfMatmul` component, boxed; it coerces to a `Box<dyn Component>` where components
/// are gathered.
pub fn tf_matmul() -> (c: Box<TfMatmul>)
    ensures
        c.spec_operand_arity() == 2,
        forall|ops: Seq<Grid<IntExpr>>, fresh: u64| c.spec_expression(ops, fresh) == TfMatmul.spec_expression(ops, fresh),
{
    Box::new(TfMatmul)
}

/// The `TfMaximum` component, boxed; it coerces to a `Box<dyn Component>` where components
/// are gathered.
pub fn tf_maximum() -> (c: Box<TfMaximum>)
    ensures
        c.spec_operand_arity() == 2,
        forall|ops: Seq<Grid<IntExpr>>, fresh: u64| c.spec_expression(ops, fresh) == TfMaximum.spec_expression(ops, fresh),
{
    Box::new(TfMaximum)
}

/// The `TfMinimum` component, boxed; it coerces to a `Box<dyn Component>` where components
/// are gathered.
pub fn tf_minimum() -> (c: Box<TfMinimum>)
    ensures
        c.spec_operand_arity() == 2,
        forall|ops: Seq<Grid<IntExpr>>, fresh: u64| c.spec_expression(ops, fresh) == TfMinimum.spec_expression(ops, fresh),
{
    Box::new(TfMinimum)
}

/// The `TfNotEqual` component, boxed; it coerces to a `Box<dyn Component>` where components
/// are gathered.
pub fn tf_not_equal() -> (c: Box<TfNotEqual>)
    ensures
        c.spec_operand_arity() == 2,
        forall|ops: Seq<Grid<IntExpr>>, fresh: u64| c.spec_expression(ops, fresh) == TfNotEqual.spec_expression(ops, fresh),
{
    Box::new(TfNotEqual)
}

/// The `TfOnes` component, boxed; it coerces to a `Box<dyn Component>` where components
/// are gathered.
pub fn tf_ones() -> (c: Box<TfOnes>)
    ensures
        c.spec_operand_arity() == 1,
        forall|ops: Seq<Grid<IntExpr>>, fresh: u64| c.spec_expression(ops, fresh) == TfOnes.spec_expression(ops, fresh),
{
    Box::new(TfOnes)
}

/// The `TfReduceAny0` component, boxed; it coerces to a `Box<dyn Component>` where components
/// are gathered.
pub fn tf_reduce_any0() -> (c: Box<TfReduceAny0>)
    ensures
        c.spec_operand_arity() == 1,
        forall|ops: Seq<Grid<IntExpr>>, fresh: u64| c.spec_expression(ops, fresh) == TfReduceAny0.spec_expression(ops, fresh),
{
    Box::new(TfReduceAny0)
}

/// The `TfReduceAny1` component, boxed; it coerces to a `Box<dyn Component>` where components
/// are gathered.
pub fn tf_reduce_any1() -> (c: Box<TfReduceAny1>)
    ensures
        c.spec_operand_arity() == 1,
        forall|ops: Seq<Grid<IntExpr>>, fresh: u64| c.spec_expression(ops, fresh) == TfReduceAny1.spec_expression(ops, fresh),
{
    Box::new(TfReduceAny1)
}

/// The `TfReduceMean` component, boxed; it coerces to a `Box<dyn Component>` where components
/// are gathered.
pub fn tf_reduce_mean() -> (c: Box<TfReduceMean>)
    ensures
        c.spec_operand_arity() == 1,
        forall|ops: Seq<Grid<IntExpr>>, fresh: u64| c.spec_expression(ops, fresh) == TfReduceMean.spec_expression(ops, fresh),
{
    Box::new(TfReduceMean)
}

/// The `TfReduceProd` component, boxed; it coerces to a `Box<dyn Component>` where components
/// are gathered.
pub fn tf_reduce_prod() -> (c: Box<TfReduceProd>)
    ensures
        c.spec_operand_arity() == 1,
        forall|ops: Seq<Grid<IntExpr>>, fresh: u64| c.spec_expression(ops, fresh) == TfReduceProd.spec_expression(ops, fresh),
{
    Box::new(TfReduceProd)
}

/// The `TfRoll` component, boxed; it coerces to a `Box<dyn Component>` where components
/// are gathered.
pub fn tf_roll() -> (c: Box<TfRoll>)
    ensures
        c.spec_operand_arity() == 1,
        forall|ops: Seq<Grid<IntExpr>>, fresh: u64| c.spec_expression(ops, fresh) == TfRoll.spec_expression(ops, fresh),
{
    Box::new(TfRoll)
}

/// The `TfZeros` component, boxed; it coerces to a `Box<dyn Component>` where components
/// are gathered.
pub fn tf_zeros() -> (c: Box<TfZeros>)
    ensures
        c.spec_operand_arity() == 1,
        forall|ops: Seq<Grid<IntExpr>>, fresh: u64| c.spec_expression(ops, fresh) == TfZeros.spec_expression(ops, fresh),
{
    Box::new(TfZeros)
}

/// The `TfOneHot` component, boxed; it coerces to a `Box<dyn Component>` where components
/// are gathered.
pub fn tf_one_hot() -> (c: Box<TfOneHot>)
    ensures
        c.spec_operand_arity() == 2,
        forall|ops: Seq<Grid<IntExpr>>, fresh: u64| c.spec_expression(ops, fresh) == TfOneHot.spec_expression(ops, fresh),
{
    Box::new(TfOneHot)
}

/// The `TfReduceMax` component, boxed; it coerces to a `Box<dyn Component>` where components
/// are gathered.
pub fn tf_reduce_max() -> (c: Box<TfReduceMax>)
    ensures
        c.spec_operand_arity() == 1,
        forall|ops: Seq<Grid<IntExpr>>, fresh: u64| c.spec_expression(ops, fresh) == TfReduceMax.spec_expression(ops, fresh),
{
    Box::new(TfReduceMax)
}

/// The `TfReduceMax0` component, boxed; it coerces to a `Box<dyn Component>` where components
/// are gathered.
pub fn tf_reduce_max0() -> (c: Box<TfReduceMax0>)
    ensures
        c.spec_operand_arity() == 1,
        forall|ops: Seq<Grid<IntExpr>>, fresh: u64| c.spec_expression(ops, fresh) == TfReduceMax0.spec_expression(ops, fresh),
{
    Box::new(TfReduceMax0)
}

/// The `TfReduceMax1` component, boxed; it coerces to a `Box<dyn Component>` where components
/// are gathered.
pub fn tf_reduce_max1() -> (c: Box<TfReduceMax1>)
    ensures
        c.spec_operand_arity() == 1,
        forall|ops: Seq<Grid<IntExpr>>, fresh: u64| c.spec_expression(ops, fresh) == TfReduceMax1.spec_expression(ops, fresh),
{
    Box::new(TfReduceMax1)
}

/// The `TfReduceSum` component, boxed; it coerces to a `Box<dyn Component>` where components
/// are gathered.
pub fn tf_reduce_sum() -> (c: Box<TfReduceSum>)
    ensures
        c.spec_operand_arity() == 1,
        forall|ops: Seq<Grid<IntExpr>>, fresh: u64| c.spec_expression(ops, fresh) == TfReduceSum.spec_expression(ops, fresh),
{
    Box::new(TfReduceSum)
}

/// The `TfReduceSum0` component, boxed; it coerces to a `Box<dyn Component>` where components
/// are gathered.
pub fn tf_reduce_sum0() -> (c: Box<TfReduceSum0>)
    ensures
        c.spec_operand_arity() == 1,
        forall|ops: Seq<Grid<IntExpr>>, fresh: u64| c.spec_expression(ops, fresh) == TfReduceSum0.spec_expression(ops, fresh),
{
    Box::new(TfReduceSum0)
}

/// The `TfReduceSum1` component, boxed; it coerces to a `Box<dyn Component>` where components
/// are gathered.
pub fn tf_reduce_sum1() -> (c: Box<TfReduceSum1>)
    ensures
        c.spec_operand_arity() == 1,
        forall|ops: Seq<Grid<IntExpr>>, fresh: u64| c.spec_expression(ops, fresh) == TfReduceSum1.spec_expression(ops, fresh),
{
    Box::new(TfReduceSum1)
}

/// The `TfSegmentMax` component, boxed; it coerces to a `Box<dyn Component>` where components
/// are gathered.
pub fn tf_segment_max() -> (c: Box<TfSegmentMax>)
    ensures
        c.spec_operand_arity() == 2,
        forall|ops: Seq<Grid<IntExpr>>, fresh: u64| c.spec_expression(ops, fresh) == TfSegmentMax.spec_expression(ops, fresh),
{
    Box::new(TfSegmentMax)
}

} // verus!
