//! The `Component` interface: what every operator of the synthesis library provides.

use vstd::prelude::*;

use crate::expr::{ExprContext, IntExpr};
use crate::operator::Operator;
use crate::{Grid, Id, Vecs};

verus! {

/// The abstract values of a list of tensors.
pub open spec fn grids(operands: Seq<Vecs<IntExpr>>) -> Seq<Grid<IntExpr>> {
    operands.map_values(|v: Vecs<IntExpr>| v@)
}

/// An operation that a synthesized program may use.
pub trait Component {
    /// The number of operands it takes.
    spec fn spec_operand_arity(&self) -> nat;

    /// The operator that applies it to the first operand ids.
    spec fn spec_operator(&self, operands: Seq<Id>) -> Operator;

    /// The tensor of terms that encodes its result on the given operand tensors,
    /// naming fresh arrays from `fresh` on.
    spec fn spec_expression(&self, operands: Seq<Grid<IntExpr>>, fresh: u64) -> Grid<IntExpr>;

    /// How many fresh arrays its encoding names.
    spec fn spec_fresh_count(&self) -> nat;

    /// Whether it stands for an operation (every operator but `Var` does).
    spec fn is_operation(&self) -> bool;

    /// The number of operands it takes.
    fn operand_arity(&self) -> (n: usize)
        ensures
            n == self.spec_operand_arity(),
    ;

    /// The operator applying it to `operands` (the immediates play no part).
    fn make_operator(&self, immediates: &Vec<Vecs<i64>>, operands: &[Id]) -> (op: Operator)
        requires
            self.is_operation(),
            operands@.len() >= self.spec_operand_arity(),
        ensures
            op == self.spec_operator(operands@),
    ;

    /// Encodes its result on `operands` as a tensor of terms.
    fn make_expression(
        &self,
        context: &mut ExprContext,
        immediates: &[Vecs<IntExpr>],
        operands: &[Vecs<IntExpr>],
        bit_width: u32,
    ) -> (r: Vecs<IntExpr>)
        requires
            self.is_operation(),
            operands@.len() >= self.spec_operand_arity(),
            forall|k: int| 0 <= k < self.spec_operand_arity() ==> (#[trigger] operands@[k])@.well_shaped(),
            old(context).next_fresh + self.spec_fresh_count() <= u64::MAX,
        ensures
            r@ == self.spec_expression(grids(operands@), old(context).next_fresh),
            r@.well_shaped(),
            final(context).next_fresh == old(context).next_fresh + self.spec_fresh_count(),
    ;

    /// How many immediates it takes: none.
    fn immediate_arity(&self) -> (n: usize)
        requires
            self.is_operation(),
        ensures
            n == 0,
    {
        0
    }
}

} // verus!
