//! The operators of a program: which operation an instruction applies and to which ids.

use vstd::prelude::*;

use crate::Id;

verus! {

/// An operation of a program, with the ids of its operands.
#[derive(Clone, Copy, Debug, PartialEq, Eq, Structural)]
pub enum Operator {
    /// Declare a new variable (an input of the program).
    Var,
    TfAdd(Id, Id),
    TfArgmax(Id),
    TfBooleanMask(Id, Id),
    TfBooleanMask_(Id, Id),
    TfCast(Id),
    TfConcat0(Id, Id),
    TfConcat1(Id, Id),
    TfConstant(Id),
    TfDivide(Id, Id),
    TfEqual(Id, Id),
    TfExpandDims(Id),
    TfGreater(Id, Id),
    TfBincount(Id),
    TfCumsum(Id, Id),
    TfMultiply(Id, Id),
    TfRange(Id, Id),
    TfSequenceMask(Id),
    TfSquare(Id),
    TfSubtract(Id, Id),
    TfTensordot(Id, Id),
    TfTranspose(Id),
    TfWhere1(Id),
    TfWhere3(Id, Id, Id),
    TfEye(Id, Id),
    TfFill(Id, Id),
    TfMatmul(Id, Id),
    TfMaximum(Id, Id),
    TfMinimum(Id, Id),
    TfNotEqual(Id, Id),
    TfOnes(Id),
    TfReduceAny0(Id),
    TfReduceAny1(Id),
    TfReduceMean(Id),
    TfReduceProd(Id),
    TfRoll(Id),
    TfZeros(Id),
    TfOneHot(Id, Id),
    TfReduceMax(Id),
    TfReduceMax0(Id),
    TfReduceMax1(Id),
    TfReduceSum(Id),
    TfReduceSum0(Id),
    TfReduceSum1(Id),
    TfSegmentMax(Id, Id),
}

impl Operator {
    /// The operand ids, in order.
    pub open spec fn operand_seq(self) -> Seq<Id> {
        match self {
            Operator::Var => Seq::empty(),
            Operator::TfAdd(a, b) => seq![a, b],
            Operator::TfArgmax(a) => seq![a],
            Operator::TfBooleanMask(a, b) => seq![a, b],
            Operator::TfBooleanMask_(a, b) => seq![a, b],
            Operator::TfCast(a) => seq![a],
            Operator::TfConcat0(a, b) => seq![a, b],
            Operator::TfConcat1(a, b) => seq![a, b],
            Operator::TfConstant(a) => seq![a],
            Operator::TfDivide(a, b) => seq![a, b],
            Operator::TfEqual(a, b) => seq![a, b],
            Operator::TfExpandDims(a) => seq![a],
            Operator::TfGreater(a, b) => seq![a, b],
            Operator::TfBincount(a) => seq![a],
            Operator::TfCumsum(a, b) => seq![a, b],
            Operator::TfMultiply(a, b) => seq![a, b],
            Operator::TfRange(a, b) => seq![a, b],
            Operator::TfSequenceMask(a) => seq![a],
            Operator::TfSquare(a) => seq![a],
            Operator::TfSubtract(a, b) => seq![a, b],
            Operator::TfTensordot(a, b) => seq![a, b],
            Operator::TfTranspose(a) => seq![a],
            Operator::TfWhere1(a) => seq![a],
            Operator::TfWhere3(a, b, c) => seq![a, b, c],
            Operator::TfEye(a, b) => seq![a, b],
            Operator::TfFill(a, b) => seq![a, b],
            Operator::TfMatmul(a, b) => seq![a, b],
            Operator::TfMaximum(a, b) => seq![a, b],
            Operator::TfMinimum(a, b) => seq![a, b],
            Operator::TfNotEqual(a, b) => seq![a, b],
            Operator::TfOnes(a) => seq![a],
            Operator::TfReduceAny0(a) => seq![a],
            Operator::TfReduceAny1(a) => seq![a],
            Operator::TfReduceMean(a) => seq![a],
            Operator::TfReduceProd(a) => seq![a],
            Operator::TfRoll(a) => seq![a],
            Operator::TfZeros(a) => seq![a],
            Operator::TfOneHot(a, b) => seq![a, b],
            Operator::TfReduceMax(a) => seq![a],
            Operator::TfReduceMax0(a) => seq![a],
            Operator::TfReduceMax1(a) => seq![a],
            Operator::TfReduceSum(a) => seq![a],
            Operator::TfReduceSum0(a) => seq![a],
            Operator::TfReduceSum1(a) => seq![a],
            Operator::TfSegmentMax(a, b) => seq![a, b],
        }
    }

    /// The same operation applied to the first `ids` (as many as it takes).
    pub open spec fn with_operands(self, ids: Seq<Id>) -> Operator {
        match self {
            Operator::Var => Operator::Var,
            Operator::TfAdd(_, _) => Operator::TfAdd(ids[0], ids[1]),
            Operator::TfArgmax(_) => Operator::TfArgmax(ids[0]),
            Operator::TfBooleanMask(_, _) => Operator::TfBooleanMask(ids[0], ids[1]),
            Operator::TfBooleanMask_(_, _) => Operator::TfBooleanMask_(ids[0], ids[1]),
            Operator::TfCast(_) => Operator::TfCast(ids[0]),
            Operator::TfConcat0(_, _) => Operator::TfConcat0(ids[0], ids[1]),
            Operator::TfConcat1(_, _) => Operator::TfConcat1(ids[0], ids[1]),
            Operator::TfConstant(_) => Operator::TfConstant(ids[0]),
            Operator::TfDivide(_, _) => Operator::TfDivide(ids[0], ids[1]),
            Operator::TfEqual(_, _) => Operator::TfEqual(ids[0], ids[1]),
            Operator::TfExpandDims(_) => Operator::TfExpandDims(ids[0]),
            Operator::TfGreater(_, _) => Operator::TfGreater(ids[0], ids[1]),
            Operator::TfBincount(_) => Operator::TfBincount(ids[0]),
            Operator::TfCumsum(_, _) => Operator::TfCumsum(ids[0], ids[1]),
            Operator::TfMultiply(_, _) => Operator::TfMultiply(ids[0], ids[1]),
            Operator::TfRange(_, _) => Operator::TfRange(ids[0], ids[1]),
            Operator::TfSequenceMask(_) => Operator::TfSequenceMask(ids[0]),
            Operator::TfSquare(_) => Operator::TfSquare(ids[0]),
            Operator::TfSubtract(_, _) => Operator::TfSubtract(ids[0], ids[1]),
            Operator::TfTensordot(_, _) => Operator::TfTensordot(ids[0], ids[1]),
            Operator::TfTranspose(_) => Operator::TfTranspose(ids[0]),
            Operator::TfWhere1(_) => Operator::TfWhere1(ids[0]),
            Operator::TfWhere3(_, _, _) => Operator::TfWhere3(ids[0], ids[1], ids[2]),
            Operator::TfEye(_, _) => Operator::TfEye(ids[0], ids[1]),
            Operator::TfFill(_, _) => Operator::TfFill(ids[0], ids[1]),
            Operator::TfMatmul(_, _) => Operator::TfMatmul(ids[0], ids[1]),
            Operator::TfMaximum(_, _) => Operator::TfMaximum(ids[0], ids[1]),
            Operator::TfMinimum(_, _) => Operator::TfMinimum(ids[0], ids[1]),
            Operator::TfNotEqual(_, _) => Operator::TfNotEqual(ids[0], ids[1]),
            Operator::TfOnes(_) => Operator::TfOnes(ids[0]),
            Operator::TfReduceAny0(_) => Operator::TfReduceAny0(ids[0]),
            Operator::TfReduceAny1(_) => Operator::TfReduceAny1(ids[0]),
            Operator::TfReduceMean(_) => Operator::TfReduceMean(ids[0]),
            Operator::TfReduceProd(_) => Operator::TfReduceProd(ids[0]),
            Operator::TfRoll(_) => Operator::TfRoll(ids[0]),
            Operator::TfZeros(_) => Operator::TfZeros(ids[0]),
            Operator::TfOneHot(_, _) => Operator::TfOneHot(ids[0], ids[1]),
            Operator::TfReduceMax(_) => Operator::TfReduceMax(ids[0]),
            Operator::TfReduceMax0(_) => Operator::TfReduceMax0(ids[0]),
            Operator::TfReduceMax1(_) => Operator::TfReduceMax1(ids[0]),
            Operator::TfReduceSum(_) => Operator::TfReduceSum(ids[0]),
            Operator::TfReduceSum0(_) => Operator::TfReduceSum0(ids[0]),
            Operator::TfReduceSum1(_) => Operator::TfReduceSum1(ids[0]),
            Operator::TfSegmentMax(_, _) => Operator::TfSegmentMax(ids[0], ids[1]),
        }
    }

    /// The text that precedes the operands when the operator is shown.
    pub open spec fn label(self) -> Seq<char> {
        match self {
            Operator::Var => "var: vec"@,
            Operator::TfAdd(_, _) => "TfAdd: "@,
            Operator::TfArgmax(_) => "TfArgmax: "@,
            Operator::TfBooleanMask(_, _) => "TfBooleanMask: "@,
            Operator::TfBooleanMask_(_, _) => "TfBooleanMask: "@,
            Operator::TfCast(_) => "TfCast: "@,
            Operator::TfConcat0(_, _) => "TfConcat: "@,
            Operator::TfConcat1(_, _) => "TfConcat: "@,
            Operator::TfConstant(_) => "TfConstant: "@,
            Operator::TfDivide(_, _) => "TfDivide: "@,
            Operator::TfEqual(_, _) => "TfEqual: "@,
            Operator::TfExpandDims(_) => "TfExpandDims: "@,
            Operator::TfGreater(_, _) => "TfGreater: "@,
            Operator::TfBincount(_) => "TfBincount: "@,
            Operator::TfCumsum(_, _) => "TfCumsum: "@,
            Operator::TfMultiply(_, _) => "TfMultiply: "@,
            Operator::TfRange(_, _) => "TfRange: "@,
            Operator::TfSequenceMask(_) => "TfSequenceMask: "@,
            Operator::TfSquare(_) => "TfSquare: "@,
            Operator::TfSubtract(_, _) => "TfSubtract: "@,
            Operator::TfTensordot(_, _) => "TfTensordot: "@,
            Operator::TfTranspose(_) => "TfTranspose: "@,
            Operator::TfWhere1(_) => "TfWhere: "@,
            Operator::TfWhere3(_, _, _) => "TfWhere: "@,
            Operator::TfEye(_, _) => "TfEye: "@,
            Operator::TfFill(_, _) => "TfFill: "@,
            Operator::TfMatmul(_, _) => "TfMatmul: "@,
            Operator::TfMaximum(_, _) => "TfMaximum: "@,
            Operator::TfMinimum(_, _) => "TfMinimum: "@,
            Operator::TfNotEqual(_, _) => "TfNotEqual: "@,
            Operator::TfOnes(_) => "TfOnes: "@,
            Operator::TfReduceAny0(_) => "TfReduceAny: "@,
            Operator::TfReduceAny1(_) => "TfReduceAny: "@,
            Operator::TfReduceMean(_) => "TfReduceMean: "@,
            Operator::TfReduceProd(_) => "TfReduceProd: "@,
            Operator::TfRoll(_) => "TfRoll: "@,
            Operator::TfZeros(_) => "TfZeros: "@,
            Operator::TfOneHot(_, _) => "TfOneHot: "@,
            Operator::TfReduceMax(_) => "TfReduceMax: "@,
            Operator::TfReduceMax0(_) => "TfReduceMax: "@,
            Operator::TfReduceMax1(_) => "TfReduceMax: "@,
            Operator::TfReduceSum(_) => "TfReduceSum: "@,
            Operator::TfReduceSum0(_) => "TfReduceSum: "@,
            Operator::TfReduceSum1(_) => "TfReduceSum: "@,
            Operator::TfSegmentMax(_, _) => "TfSegmentMax: "@,
        }
    }

    /// The text that follows the operands when the operator is shown.
    pub open spec fn suffix(self) -> Seq<char> {
        match self {
            Operator::Var => ""@,
            Operator::TfAdd(_, _) | Operator::TfBooleanMask(_, _) | Operator::TfBooleanMask_(_, _) | Operator::TfCast(_) | Operator::TfConstant(_) | Operator::TfDivide(_, _) | Operator::TfEqual(_, _) | Operator::TfGreater(_, _) | Operator::TfBincount(_) | Operator::TfCumsum(_, _) | Operator::TfMultiply(_, _) | Operator::TfRange(_, _) | Operator::TfSequenceMask(_) | Operator::TfSquare(_) | Operator::TfSubtract(_, _) | Operator::TfTensordot(_, _) | Operator::TfTranspose(_) | Operator::TfWhere1(_) | Operator::TfWhere3(_, _, _) | Operator::TfEye(_, _) | Operator::TfFill(_, _) | Operator::TfMatmul(_, _) | Operator::TfMaximum(_, _) | Operator::TfMinimum(_, _) | Operator::TfNotEqual(_, _) | Operator::TfOnes(_) | Operator::TfRoll(_) | Operator::TfZeros(_) | Operator::TfOneHot(_, _) | Operator::TfReduceMax(_) | Operator::TfReduceSum(_) | Operator::TfSegmentMax(_, _) => ""@,
            Operator::TfArgmax(_) | Operator::TfConcat1(_, _) | Operator::TfExpandDims(_) | Operator::TfReduceAny1(_) | Operator::TfReduceProd(_) | Operator::TfReduceMax1(_) | Operator::TfReduceSum1(_) => ", axis = 1"@,
            Operator::TfConcat0(_, _) | Operator::TfReduceAny0(_) | Operator::TfReduceMean(_) | Operator::TfReduceMax0(_) | Operator::TfReduceSum0(_) => ", axis = 0"@,
        }
    }

    /// How the operator is shown: its label, its operands separated by commas, its suffix.
    pub open spec fn text(self) -> Seq<char> {
        self.label() + ids_text(self.operand_seq()) + self.suffix()
    }

    /// The number of operands.
    pub fn arity(&self) -> (n: usize)
        ensures
            n == self.operand_seq().len(),
    {
        match self {
            Operator::Var => 0,
            Operator::TfArgmax(_)
            | Operator::TfCast(_)
            | Operator::TfConstant(_)
            | Operator::TfExpandDims(_)
            | Operator::TfBincount(_)
            | Operator::TfSequenceMask(_)
            | Operator::TfSquare(_)
            | Operator::TfTranspose(_)
            | Operator::TfWhere1(_)
            | Operator::TfOnes(_)
            | Operator::TfReduceAny0(_)
            | Operator::TfReduceAny1(_)
            | Operator::TfReduceMean(_)
            | Operator::TfReduceProd(_)
            | Operator::TfRoll(_)
            | Operator::TfZeros(_)
            | Operator::TfReduceMax(_)
            | Operator::TfReduceMax0(_)
            | Operator::TfReduceMax1(_)
            | Operator::TfReduceSum(_)
            | Operator::TfReduceSum0(_)
            | Operator::TfReduceSum1(_) => 1,
            Operator::TfAdd(_, _)
            | Operator::TfBooleanMask(_, _)
            | Operator::TfBooleanMask_(_, _)
            | Operator::TfConcat0(_, _)
            | Operator::TfConcat1(_, _)
            | Operator::TfDivide(_, _)
            | Operator::TfEqual(_, _)
            | Operator::TfGreater(_, _)
            | Operator::TfCumsum(_, _)
            | Operator::TfMultiply(_, _)
            | Operator::TfRange(_, _)
            | Operator::TfSubtract(_, _)
            | Operator::TfTensordot(_, _)
            | Operator::TfEye(_, _)
            | Operator::TfFill(_, _)
            | Operator::TfMatmul(_, _)
            | Operator::TfMaximum(_, _)
            | Operator::TfMinimum(_, _)
            | Operator::TfNotEqual(_, _)
            | Operator::TfOneHot(_, _)
            | Operator::TfSegmentMax(_, _) => 2,
            Operator::TfWhere3(_, _, _) => 3,
        }
    }

    /// The operand ids, in order.
    pub fn operand_ids(&self) -> (v: Vec<Id>)
        ensures
            v@ == self.operand_seq(),
    {
        match *self {
            Operator::Var => Vec::new(),
            Operator::TfAdd(a, b) => vec![a, b],
            Operator::TfArgmax(a) => vec![a],
            Operator::TfBooleanMask(a, b) => vec![a, b],
            Operator::TfBooleanMask_(a, b) => vec![a, b],
            Operator::TfCast(a) => vec![a],
            Operator::TfConcat0(a, b) => vec![a, b],
            Operator::TfConcat1(a, b) => vec![a, b],
            Operator::TfConstant(a) => vec![a],
            Operator::TfDivide(a, b) => vec![a, b],
            Operator::TfEqual(a, b) => vec![a, b],
            Operator::TfExpandDims(a) => vec![a],
            Operator::TfGreater(a, b) => vec![a, b],
            Operator::TfBincount(a) => vec![a],
            Operator::TfCumsum(a, b) => vec![a, b],
            Operator::TfMultiply(a, b) => vec![a, b],
            Operator::TfRange(a, b) => vec![a, b],
            Operator::TfSequenceMask(a) => vec![a],
            Operator::TfSquare(a) => vec![a],
            Operator::TfSubtract(a, b) => vec![a, b],
            Operator::TfTensordot(a, b) => vec![a, b],
            Operator::TfTranspose(a) => vec![a],
            Operator::TfWhere1(a) => vec![a],
            Operator::TfWhere3(a, b, c) => vec![a, b, c],
            Operator::TfEye(a, b) => vec![a, b],
            Operator::TfFill(a, b) => vec![a, b],
            Operator::TfMatmul(a, b) => vec![a, b],
            Operator::TfMaximum(a, b) => vec![a, b],
            Operator::TfMinimum(a, b) => vec![a, b],
            Operator::TfNotEqual(a, b) => vec![a, b],
            Operator::TfOnes(a) => vec![a],
            Operator::TfReduceAny0(a) => vec![a],
            Operator::TfReduceAny1(a) => vec![a],
            Operator::TfReduceMean(a) => vec![a],
            Operator::TfReduceProd(a) => vec![a],
            Operator::TfRoll(a) => vec![a],
            Operator::TfZeros(a) => vec![a],
            Operator::TfOneHot(a, b) => vec![a, b],
            Operator::TfReduceMax(a) => vec![a],
            Operator::TfReduceMax0(a) => vec![a],
            Operator::TfReduceMax1(a) => vec![a],
            Operator::TfReduceSum(a) => vec![a],
            Operator::TfReduceSum0(a) => vec![a],
            Operator::TfReduceSum1(a) => vec![a],
            Operator::TfSegmentMax(a, b) => vec![a, b],
        }
    }

    /// Calls `f` on each operand id, in order: every id of `operand_seq` is handed to `f`.
    pub fn operands<F: FnMut(Id)>(&self, mut f: F)
        requires
            forall|id: Id| f.requires((id,)),
        ensures
            forall|k: int| 0 <= k < self.operand_seq().len() ==> #[trigger] f.ensures((self.operand_seq()[k],), ()),
    {
        match *self {
            Operator::Var => {},
            Operator::TfArgmax(a)
            | Operator::TfCast(a)
            | Operator::TfConstant(a)
            | Operator::TfExpandDims(a)
            | Operator::TfBincount(a)
            | Operator::TfSequenceMask(a)
            | Operator::TfSquare(a)
            | Operator::TfTranspose(a)
            | Operator::TfWhere1(a)
            | Operator::TfOnes(a)
            | Operator::TfReduceAny0(a)
            | Operator::TfReduceAny1(a)
            | Operator::TfReduceMean(a)
            | Operator::TfReduceProd(a)
            | Operator::TfRoll(a)
            | Operator::TfZeros(a)
            | Operator::TfReduceMax(a)
            | Operator::TfReduceMax0(a)
            | Operator::TfReduceMax1(a)
            | Operator::TfReduceSum(a)
            | Operator::TfReduceSum0(a)
            | Operator::TfReduceSum1(a) => {
                f(a);
            },
            Operator::TfAdd(a, b)
            | Operator::TfBooleanMask(a, b)
            | Operator::TfBooleanMask_(a, b)
            | Operator::TfConcat0(a, b)
            | Operator::TfConcat1(a, b)
            | Operator::TfDivide(a, b)
            | Operator::TfEqual(a, b)
            | Operator::TfGreater(a, b)
            | Operator::TfCumsum(a, b)
            | Operator::TfMultiply(a, b)
            | Operator::TfRange(a, b)
            | Operator::TfSubtract(a, b)
            | Operator::TfTensordot(a, b)
            | Operator::TfEye(a, b)
            | Operator::TfFill(a, b)
            | Operator::TfMatmul(a, b)
            | Operator::TfMaximum(a, b)
            | Operator::TfMinimum(a, b)
            | Operator::TfNotEqual(a, b)
            | Operator::TfOneHot(a, b)
            | Operator::TfSegmentMax(a, b) => {
                f(a); f(b);
            },
            Operator::TfWhere3(a, b, c) => {
                f(a); f(b); f(c);
            },
        }
    }

    /// Calls `f` on each operand id in place, in order; the operation stays the same, and
    /// each operand becomes what a call of `f` left in the old one.
    pub fn operands_mut<F: FnMut(&mut Id)>(&mut self, mut f: F)
        requires
            forall|id: &mut Id| f.requires((id,)),
        ensures
            *final(self) == old(self).with_operands(final(self).operand_seq()),
            final(self).operand_seq().len() == old(self).operand_seq().len(),
            forall|k: int|
                #![trigger final(self).operand_seq()[k]]
                0 <= k < old(self).operand_seq().len() ==> exists|r: &mut Id|
                    *r == old(self).operand_seq()[k] && *final(r) == final(self).operand_seq()[k]
                        && #[trigger] f.ensures((r,), ()),
    {
        match self {
            Operator::Var => {},
            Operator::TfAdd(a, b) => { f(a); f(b); },
            Operator::TfArgmax(a) => { f(a); },
            Operator::TfBooleanMask(a, b) => { f(a); f(b); },
            Operator::TfBooleanMask_(a, b) => { f(a); f(b); },
            Operator::TfCast(a) => { f(a); },
            Operator::TfConcat0(a, b) => { f(a); f(b); },
            Operator::TfConcat1(a, b) => { f(a); f(b); },
            Operator::TfConstant(a) => { f(a); },
            Operator::TfDivide(a, b) => { f(a); f(b); },
            Operator::TfEqual(a, b) => { f(a); f(b); },
            Operator::TfExpandDims(a) => { f(a); },
            Operator::TfGreater(a, b) => { f(a); f(b); },
            Operator::TfBincount(a) => { f(a); },
            Operator::TfCumsum(a, b) => { f(a); f(b); },
            Operator::TfMultiply(a, b) => { f(a); f(b); },
            Operator::TfRange(a, b) => { f(a); f(b); },
            Operator::TfSequenceMask(a) => { f(a); },
            Operator::TfSquare(a) => { f(a); },
            Operator::TfSubtract(a, b) => { f(a); f(b); },
            Operator::TfTensordot(a, b) => { f(a); f(b); },
            Operator::TfTranspose(a) => { f(a); },
            Operator::TfWhere1(a) => { f(a); },
            Operator::TfWhere3(a, b, c) => { f(a); f(b); f(c); },
            Operator::TfEye(a, b) => { f(a); f(b); },
            Operator::TfFill(a, b) => { f(a); f(b); },
            Operator::TfMatmul(a, b) => { f(a); f(b); },
            Operator::TfMaximum(a, b) => { f(a); f(b); },
            Operator::TfMinimum(a, b) => { f(a); f(b); },
            Operator::TfNotEqual(a, b) => { f(a); f(b); },
            Operator::TfOnes(a) => { f(a); },
            Operator::TfReduceAny0(a) => { f(a); },
            Operator::TfReduceAny1(a) => { f(a); },
            Operator::TfReduceMean(a) => { f(a); },
            Operator::TfReduceProd(a) => { f(a); },
            Operator::TfRoll(a) => { f(a); },
            Operator::TfZeros(a) => { f(a); },
            Operator::TfOneHot(a, b) => { f(a); f(b); },
            Operator::TfReduceMax(a) => { f(a); },
            Operator::TfReduceMax0(a) => { f(a); },
            Operator::TfReduceMax1(a) => { f(a); },
            Operator::TfReduceSum(a) => { f(a); },
            Operator::TfReduceSum0(a) => { f(a); },
            Operator::TfReduceSum1(a) => { f(a); },
            Operator::TfSegmentMax(a, b) => { f(a); f(b); },
        }
    }

    /// The text that precedes the operands when the operator is shown.
    pub fn label_str(&self) -> (s: &'static str)
        ensures
            s@ == self.label(),
    {
        match self {
            Operator::Var => "var: vec",
            Operator::TfAdd(_, _) => "TfAdd: ",
            Operator::TfArgmax(_) => "TfArgmax: ",
            Operator::TfBooleanMask(_, _) => "TfBooleanMask: ",
            Operator::TfBooleanMask_(_, _) => "TfBooleanMask: ",
            Operator::TfCast(_) => "TfCast: ",
            Operator::TfConcat0(_, _) => "TfConcat: ",
            Operator::TfConcat1(_, _) => "TfConcat: ",
            Operator::TfConstant(_) => "TfConstant: ",
            Operator::TfDivide(_, _) => "TfDivide: ",
            Operator::TfEqual(_, _) => "TfEqual: ",
            Operator::TfExpandDims(_) => "TfExpandDims: ",
            Operator::TfGreater(_, _) => "TfGreater: ",
            Operator::TfBincount(_) => "TfBincount: ",
            Operator::TfCumsum(_, _) => "TfCumsum: ",
            Operator::TfMultiply(_, _) => "TfMultiply: ",
            Operator::TfRange(_, _) => "TfRange: ",
            Operator::TfSequenceMask(_) => "TfSequenceMask: ",
            Operator::TfSquare(_) => "TfSquare: ",
            Operator::TfSubtract(_, _) => "TfSubtract: ",
            Operator::TfTensordot(_, _) => "TfTensordot: ",
            Operator::TfTranspose(_) => "TfTranspose: ",
            Operator::TfWhere1(_) => "TfWhere: ",
            Operator::TfWhere3(_, _, _) => "TfWhere: ",
            Operator::TfEye(_, _) => "TfEye: ",
            Operator::TfFill(_, _) => "TfFill: ",
            Operator::TfMatmul(_, _) => "TfMatmul: ",
            Operator::TfMaximum(_, _) => "TfMaximum: ",
            Operator::TfMinimum(_, _) => "TfMinimum: ",
            Operator::TfNotEqual(_, _) => "TfNotEqual: ",
            Operator::TfOnes(_) => "TfOnes: ",
            Operator::TfReduceAny0(_) => "TfReduceAny: ",
            Operator::TfReduceAny1(_) => "TfReduceAny: ",
            Operator::TfReduceMean(_) => "TfReduceMean: ",
            Operator::TfReduceProd(_) => "TfReduceProd: ",
            Operator::TfRoll(_) => "TfRoll: ",
            Operator::TfZeros(_) => "TfZeros: ",
            Operator::TfOneHot(_, _) => "TfOneHot: ",
            Operator::TfReduceMax(_) => "TfReduceMax: ",
            Operator::TfReduceMax0(_) => "TfReduceMax: ",
            Operator::TfReduceMax1(_) => "TfReduceMax: ",
            Operator::TfReduceSum(_) => "TfReduceSum: ",
            Operator::TfReduceSum0(_) => "TfReduceSum: ",
            Operator::TfReduceSum1(_) => "TfReduceSum: ",
            Operator::TfSegmentMax(_, _) => "TfSegmentMax: ",
        }
    }

    /// The text that follows the operands when the operator is shown.
    pub fn suffix_str(&self) -> (s: &'static str)
        ensures
            s@ == self.suffix(),
    {
        match self {
            Operator::Var => "",
            Operator::TfAdd(_, _) | Operator::TfBooleanMask(_, _) | Operator::TfBooleanMask_(_, _) | Operator::TfCast(_) | Operator::TfConstant(_) | Operator::TfDivide(_, _) | Operator::TfEqual(_, _) | Operator::TfGreater(_, _) | Operator::TfBincount(_) | Operator::TfCumsum(_, _) | Operator::TfMultiply(_, _) | Operator::TfRange(_, _) | Operator::TfSequenceMask(_) | Operator::TfSquare(_) | Operator::TfSubtract(_, _) | Operator::TfTensordot(_, _) | Operator::TfTranspose(_) | Operator::TfWhere1(_) | Operator::TfWhere3(_, _, _) | Operator::TfEye(_, _) | Operator::TfFill(_, _) | Operator::TfMatmul(_, _) | Operator::TfMaximum(_, _) | Operator::TfMinimum(_, _) | Operator::TfNotEqual(_, _) | Operator::TfOnes(_) | Operator::TfRoll(_) | Operator::TfZeros(_) | Operator::TfOneHot(_, _) | Operator::TfReduceMax(_) | Operator::TfReduceSum(_) | Operator::TfSegmentMax(_, _) => "",
            Operator::TfArgmax(_) | Operator::TfConcat1(_, _) | Operator::TfExpandDims(_) | Operator::TfReduceAny1(_) | Operator::TfReduceProd(_) | Operator::TfReduceMax1(_) | Operator::TfReduceSum1(_) => ", axis = 1",
            Operator::TfConcat0(_, _) | Operator::TfReduceAny0(_) | Operator::TfReduceMean(_) | Operator::TfReduceMax0(_) | Operator::TfReduceSum0(_) => ", axis = 0",
        }
    }

    /// How the operator is shown, such as `TfAdd: 0, 1` or `TfArgmax: 2, axis = 1`.
    pub fn to_string(&self) -> (s: String)
        ensures
            s@ == self.text(),
    {
        let mut s = String::from_str(self.label_str());
        let ids = self.operand_ids();
        let joined = ids_string(&ids);
        s.append(joined.as_str());
        s.append(self.suffix_str());
        s
    }
}

/// The decimal digit `d` as a one-character text.
pub open spec fn digit_text(d: nat) -> Seq<char> {
    if d == 0 { "0"@ } else if d == 1 { "1"@ } else if d == 2 { "2"@ } else if d == 3 { "3"@ }
    else if d == 4 { "4"@ } else if d == 5 { "5"@ } else if d == 6 { "6"@ } else if d == 7 { "7"@ }
    else if d == 8 { "8"@ } else { "9"@ }
}

/// `n` written in decimal, without leading zeros.
pub open spec fn decimal(n: nat) -> Seq<char>
    decreases n,
{
    if n < 10 {
        digit_text(n)
    } else {
        decimal(n / 10) + digit_text(n % 10)
    }
}

/// The ids in decimal, separated by `", "`.
pub open spec fn ids_text(ids: Seq<Id>) -> Seq<char>
    decreases ids.len(),
{
    if ids.len() == 0 {
        Seq::empty()
    } else if ids.len() == 1 {
        decimal(ids[0].0 as nat)
    } else {
        ids_text(ids.drop_last()) + ", "@ + decimal(ids.last().0 as nat)
    }
}

fn digit_str(d: u32) -> (s: &'static str)
    requires
        d < 10,
    ensures
        s@ == digit_text(d as nat),
{
    if d == 0 { "0" } else if d == 1 { "1" } else if d == 2 { "2" } else if d == 3 { "3" }
    else if d == 4 { "4" } else if d == 5 { "5" } else if d == 6 { "6" } else if d == 7 { "7" }
    else if d == 8 { "8" } else { "9" }
}

/// `n` written in decimal.
pub fn decimal_string(n: u32) -> (s: String)
    ensures
        s@ == decimal(n as nat),
    decreases n,
{
    if n < 10 {
        String::from_str(digit_str(n))
    } else {
        let mut s = decimal_string(n / 10);
        s.append(digit_str(n % 10));
        s
    }
}

impl Id {
    /// The id in decimal.
    pub open spec fn text(self) -> Seq<char> {
        decimal(self.0 as nat)
    }

    /// The id in decimal.
    pub fn to_string(&self) -> (s: String)
        ensures
            s@ == self.text(),
    {
        decimal_string(self.0)
    }
}

/// The ids in decimal, separated by `", "`.
pub fn ids_string(ids: &Vec<Id>) -> (s: String)
    ensures
        s@ == ids_text(ids@),
{
    let mut s = String::new();
    let mut k: usize = 0;
    while k < ids.len()
        invariant
            k <= ids@.len(),
            s@ == ids_text(ids@.take(k as int)),
        decreases ids@.len() - k,
    {
        let ghost prev = ids@.take(k as int);
        assert(ids@.take(k + 1).drop_last() =~= prev);
        if k > 0 {
            s.append(", ");
        }
        let d = decimal_string(ids[k].0);
        s.append(d.as_str());
        k += 1;
    }
    assert(ids@.take(ids@.len() as int) =~= ids@);
    s
}

} // verus!
