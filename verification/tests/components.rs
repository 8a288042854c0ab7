use std::collections::HashMap;

use brahma_synth::components::arrays::{TfBooleanMask, TfConcat1, TfWhere1};
use brahma_synth::components::elementwise::TfAdd;
use brahma_synth::dispatch::{tf_add, tf_argmax, tf_where3};
use brahma_synth::{ArrayExpr, BoolExpr, Component, ExprContext, Id, IntExpr, Operator, TableExpr, Vecs, COLS, ROWS};

/// Evaluates terms with every variable and every fresh array cell read as 0,
/// remembering the value of each node already seen.
struct Evaluator {
    ints: HashMap<String, i128>,
    bools: HashMap<String, bool>,
}

impl Evaluator {
    fn new() -> Self {
        Evaluator { ints: HashMap::new(), bools: HashMap::new() }
    }

    fn value(&mut self, e: &IntExpr) -> i128 {
        let key = format!("{:p}", e);
        if let Some(v) = self.ints.get(&key) {
            return *v;
        }
        let v = match e {
            IntExpr::Const(n) => *n as i128,
            IntExpr::Var(_) => 0,
            IntExpr::Add(a, b) => self.value(a) + self.value(b),
            IntExpr::Sub(a, b) => self.value(a) - self.value(b),
            IntExpr::Mul(a, b) => self.value(a) * self.value(b),
            IntExpr::Div(a, b) => {
                let d = self.value(b);
                assert!(d != 0);
                self.value(a).div_euclid(d)
            }
            IntExpr::Ite(c, t, f) => {
                if self.boolean(c) {
                    self.value(t)
                } else {
                    self.value(f)
                }
            }
            IntExpr::Select(a, i) => {
                let x = self.value(i);
                self.select(a, x)
            }
        };
        self.ints.insert(key, v);
        v
    }

    fn boolean(&mut self, e: &BoolExpr) -> bool {
        let key = format!("{:p}", e);
        if let Some(v) = self.bools.get(&key) {
            return *v;
        }
        let v = match e {
            BoolExpr::Lit(b) => *b,
            BoolExpr::Eq(a, b) => self.value(a) == self.value(b),
            BoolExpr::Lt(a, b) => self.value(a) < self.value(b),
            BoolExpr::Gt(a, b) => self.value(a) > self.value(b),
            BoolExpr::And(a, b) => self.boolean(a) && self.boolean(b),
            BoolExpr::Or(a, b) => self.boolean(a) || self.boolean(b),
            BoolExpr::Ite(c, t, f) => {
                if self.boolean(c) {
                    self.boolean(t)
                } else {
                    self.boolean(f)
                }
            }
        };
        self.bools.insert(key, v);
        v
    }

    fn select(&mut self, a: &ArrayExpr, x: i128) -> i128 {
        match a {
            ArrayExpr::Fresh(_) => 0,
            ArrayExpr::Store(b, i, v) => {
                if self.value(i) == x {
                    self.value(v)
                } else {
                    self.select(b, x)
                }
            }
            ArrayExpr::Row(t, i) => {
                let r = self.value(i);
                self.row_select(t, r, x)
            }
        }
    }

    fn row_select(&mut self, t: &TableExpr, r: i128, x: i128) -> i128 {
        match t {
            TableExpr::Fresh(_) => 0,
            TableExpr::Store(b, i, a) => {
                if self.value(i) == r {
                    self.select(a, x)
                } else {
                    self.row_select(b, r, x)
                }
            }
        }
    }
}

/// A tensor holding `rows` (padded with 0 to the full grid), whose dimensions are the
/// number of rows and the length of the first row.
fn tensor(rows: &[&[i64]]) -> Vecs<IntExpr> {
    let mut vecs = Vec::new();
    for i in 0..ROWS {
        let mut row = Vec::new();
        for j in 0..COLS {
            let v = if i < rows.len() && j < rows[i].len() { rows[i][j] } else { 0 };
            row.push(IntExpr::Const(v));
        }
        vecs.push(row);
    }
    let d1 = if rows.is_empty() { 0 } else { rows[0].len() as i64 };
    Vecs { dims: (IntExpr::Const(rows.len() as i64), IntExpr::Const(d1)), vecs }
}

/// The dimensions and cells of an encoded result, by value.
fn values(r: &Vecs<IntExpr>) -> ((i128, i128), Vec<Vec<i128>>) {
    let mut ev = Evaluator::new();
    let dims = (ev.value(&r.dims.0), ev.value(&r.dims.1));
    let cells = r.vecs.iter().map(|row| row.iter().map(|c| ev.value(c)).collect()).collect();
    (dims, cells)
}

fn run(c: &dyn Component, operands: &[Vecs<IntExpr>]) -> ((i128, i128), Vec<Vec<i128>>) {
    let mut ctx = ExprContext::new();
    let r = c.make_expression(&mut ctx, &[], operands, 64);
    assert_eq!(r.vecs.len(), ROWS);
    values(&r)
}

fn run_op(op: Operator, operands: &[Vecs<IntExpr>]) -> ((i128, i128), Vec<Vec<i128>>) {
    run(&op, operands)
}

#[test]
fn add_sums_cells() {
    let a = tensor(&[&[1, 2, 3], &[4, 5, 6]]);
    let b = tensor(&[&[10, 20, 30], &[40, 50, 60]]);
    let (dims, cells) = run(&TfAdd, &[a, b]);
    assert_eq!(dims, (2, 3));
    assert_eq!(&cells[0][..3], &[11, 22, 33]);
    assert_eq!(&cells[1][..3], &[44, 55, 66]);
    assert_eq!(cells[2][0], 0);
}

#[test]
fn boxed_component_matches_operator() {
    let a = tensor(&[&[7, 8]]);
    let b = tensor(&[&[1, 1]]);
    let boxed = tf_add();
    assert_eq!(boxed.operand_arity(), 2);
    assert_eq!(boxed.immediate_arity(), 0);
    let via_box = run(boxed.as_ref(), &[tensor(&[&[7, 8]]), tensor(&[&[1, 1]])]);
    let via_op = run_op(Operator::TfAdd(Id(0), Id(1)), &[a, b]);
    assert_eq!(via_box, via_op);
    assert_eq!(tf_argmax().operand_arity(), 1);
    assert_eq!(tf_where3().operand_arity(), 3);
}

#[test]
fn make_operator_takes_first_ids() {
    let op = Operator::TfAdd(Id(0), Id(0)).make_operator(&vec![], &[Id(5), Id(6), Id(7)]);
    assert_eq!(op, Operator::TfAdd(Id(5), Id(6)));
    let op = TfBooleanMask.make_operator(&vec![], &[Id(2), Id(3)]);
    assert_eq!(op, Operator::TfBooleanMask(Id(2), Id(3)));
    let op = Operator::TfWhere3(Id(0), Id(0), Id(0)).make_operator(&vec![], &[Id(1), Id(2), Id(3)]);
    assert_eq!(op, Operator::TfWhere3(Id(1), Id(2), Id(3)));
    assert_eq!(Operator::TfRoll(Id(3)).operand_arity(), 1);
}

#[test]
fn argmax_picks_first_largest_column() {
    let a = tensor(&[&[3, 7, 7, 1], &[5, 2, 9, 0], &[-4, -4, -4, -4], &[0, 0, 0, 1]]);
    let (dims, cells) = run_op(Operator::TfArgmax(Id(0)), &[a]);
    assert_eq!(dims, (1, 4));
    // the cells past column 4 are 0 and count in the maximum
    assert_eq!(&cells[0][..4], &[1, 2, 4, 3]);
    assert_eq!(cells[1][0], 0);
}

#[test]
fn boolean_mask_packs_kept_cells() {
    let a = tensor(&[&[1, 2, 3], &[4, 5, 6]]);
    let m = tensor(&[&[1, 0, 1], &[0, 1, 1]]);
    let (dims, cells) = run_op(Operator::TfBooleanMask(Id(0), Id(1)), &[a, m]);
    assert_eq!(dims, (2, 2));
    assert_eq!(&cells[0][..2], &[1, 3]);
    assert_eq!(&cells[1][..2], &[5, 6]);
}

#[test]
fn boolean_mask_rows_keeps_marked_rows() {
    let a = tensor(&[&[1, 2], &[3, 4], &[5, 6]]);
    let m = tensor(&[&[0, 1, 1]]);
    let (dims, cells) = run_op(Operator::TfBooleanMask_(Id(0), Id(1)), &[a, m]);
    assert_eq!(dims.0, 2);
    assert_eq!(&cells[0][..2], &[3, 4]);
    assert_eq!(&cells[1][..2], &[5, 6]);
}

#[test]
fn matmul_multiplies_blocks() {
    let a = tensor(&[&[1, 2], &[3, 4]]);
    let b = tensor(&[&[5, 6], &[7, 8]]);
    let (dims, cells) = run_op(Operator::TfMatmul(Id(0), Id(1)), &[a, b]);
    assert_eq!(dims, (2, 2));
    assert_eq!(&cells[0][..2], &[19, 22]);
    assert_eq!(&cells[1][..2], &[43, 50]);
}

#[test]
fn range_counts_from_start_to_limit() {
    let (dims, cells) = run_op(Operator::TfRange(Id(0), Id(1)), &[tensor(&[&[2]]), tensor(&[&[5]])]);
    assert_eq!(dims, (1, 3));
    assert_eq!(&cells[0][..5], &[2, 3, 4, 0, 0]);
}

#[test]
fn concat1_places_second_after_first() {
    let a = tensor(&[&[1, 2], &[3, 4]]);
    let b = tensor(&[&[5, 6], &[7, 8]]);
    let mut ctx = ExprContext::new();
    let r = TfConcat1.make_expression(&mut ctx, &[], &[a, b], 64);
    assert_eq!(ctx.next_fresh, ROWS as u64);
    let (dims, cells) = values(&r);
    assert_eq!(dims, (2, 4));
    assert_eq!(&cells[0][..4], &[1, 2, 5, 6]);
    assert_eq!(&cells[1][..4], &[3, 4, 7, 8]);
}

#[test]
fn fresh_names_advance_by_count() {
    let a = tensor(&[&[1, 0], &[0, 2]]);
    let mut ctx = ExprContext { next_fresh: 10 };
    let _ = TfWhere1.make_expression(&mut ctx, &[], &[a], 64);
    assert_eq!(ctx.next_fresh, 10 + 1 + (ROWS * COLS) as u64);
    let mut ctx = ExprContext::new();
    let _ = TfAdd.make_expression(&mut ctx, &[], &[tensor(&[&[1]]), tensor(&[&[1]])], 64);
    assert_eq!(ctx.next_fresh, 0);
}

#[test]
fn reductions_over_rows_and_columns() {
    let a = tensor(&[&[1, 2, 3], &[4, 5, 6]]);
    let (dims, cells) = run_op(Operator::TfReduceSum1(Id(0)), &[tensor(&[&[1, 2, 3], &[4, 5, 6]])]);
    assert_eq!(dims, (1, 2));
    assert_eq!(&cells[0][..2], &[6, 15]);
    let (dims, cells) = run_op(Operator::TfReduceSum0(Id(0)), &[tensor(&[&[1, 2, 3], &[4, 5, 6]])]);
    assert_eq!(dims, (1, 3));
    assert_eq!(&cells[0][..3], &[5, 7, 9]);
    let (_, cells) = run_op(Operator::TfReduceMax1(Id(0)), &[tensor(&[&[1, 9, 3], &[4, 5, 6]])]);
    assert_eq!(&cells[0][..2], &[9, 6]);
    let (_, cells) = run_op(Operator::TfReduceMax(Id(0)), &[a]);
    assert_eq!(cells[0][0], 6);
    let (_, cells) = run_op(Operator::TfReduceMean(Id(0)), &[tensor(&[&[2, 4], &[4, 8]])]);
    assert_eq!(&cells[0][..2], &[3, 6]);
    let (_, cells) = run_op(Operator::TfReduceProd(Id(0)), &[tensor(&[&[2, 3], &[4, 5]])]);
    assert_eq!(&cells[0][..2], &[6, 20]);
    let (_, cells) = run_op(Operator::TfReduceAny1(Id(0)), &[tensor(&[&[0, 0], &[0, 5]])]);
    assert_eq!(&cells[0][..2], &[0, 1]);
    let (_, cells) = run_op(Operator::TfReduceAny0(Id(0)), &[tensor(&[&[0, 0], &[0, 5]])]);
    assert_eq!(&cells[0][..2], &[0, 1]);
    let (_, cells) = run_op(Operator::TfReduceSum(Id(0)), &[tensor(&[&[1, 2], &[3, 4]])]);
    assert_eq!(cells[0][0], 10);
}

#[test]
fn bincount_counts_values() {
    let (dims, cells) = run_op(Operator::TfBincount(Id(0)), &[tensor(&[&[1, 1, 3, 0]])]);
    assert_eq!(dims.1, 3);
    // the padding zeros of the row are counted too
    assert_eq!(&cells[0][..4], &[7, 2, 0, 1]);
}

#[test]
fn eye_fill_ones_zeros() {
    let (dims, cells) = run_op(Operator::TfEye(Id(0), Id(1)), &[tensor(&[&[3]]), tensor(&[&[3]])]);
    assert_eq!(dims, (3, 3));
    assert_eq!(&cells[1][..4], &[0, 1, 0, 0]);
    assert_eq!(cells[3][3], 0);
    let (dims, cells) = run_op(Operator::TfFill(Id(0), Id(1)), &[tensor(&[&[2, 3]]), tensor(&[&[9]])]);
    assert_eq!(dims, (2, 3));
    assert_eq!(&cells[1][..4], &[9, 9, 9, 0]);
    let (_, cells) = run_op(Operator::TfOnes(Id(0)), &[tensor(&[&[1, 2]])]);
    assert_eq!(&cells[0][..3], &[1, 1, 0]);
    // the operand is a shape: 2 rows of 3 columns
    let (dims, cells) = run_op(Operator::TfZeros(Id(0)), &[tensor(&[&[2, 3]])]);
    assert_eq!(dims, (2, 3));
    assert!(cells.iter().all(|row| row.iter().all(|v| *v == 0)));
}

#[test]
fn comparisons_inside_bounds() {
    let a = || tensor(&[&[1, 5, 3]]);
    let b = || tensor(&[&[1, 2, 7]]);
    let (_, c) = run_op(Operator::TfEqual(Id(0), Id(1)), &[a(), b()]);
    assert_eq!(&c[0][..4], &[1, 0, 0, 0]);
    let (_, c) = run_op(Operator::TfGreater(Id(0), Id(1)), &[a(), b()]);
    assert_eq!(&c[0][..3], &[0, 1, 0]);
    let (_, c) = run_op(Operator::TfNotEqual(Id(0), Id(1)), &[a(), b()]);
    assert_eq!(&c[0][..4], &[0, 1, 1, 0]);
    let (_, c) = run_op(Operator::TfMaximum(Id(0), Id(1)), &[a(), b()]);
    assert_eq!(&c[0][..3], &[1, 5, 7]);
    let (_, c) = run_op(Operator::TfMinimum(Id(0), Id(1)), &[a(), b()]);
    assert_eq!(&c[0][..3], &[1, 2, 3]);
    let (_, c) = run_op(Operator::TfDivide(Id(0), Id(1)), &[tensor(&[&[7, 9]]), tensor(&[&[2, 0]])]);
    assert_eq!(&c[0][..2], &[3, 9]);
    let (_, c) = run_op(Operator::TfSubtract(Id(0), Id(1)), &[a(), b()]);
    assert_eq!(&c[0][..3], &[0, 3, -4]);
    let (_, c) = run_op(Operator::TfMultiply(Id(0), Id(1)), &[a(), b()]);
    assert_eq!(&c[0][..3], &[1, 10, 21]);
    let (_, c) = run_op(Operator::TfSquare(Id(0)), &[a()]);
    assert_eq!(&c[0][..3], &[1, 25, 9]);
}

#[test]
fn where3_and_sequence_mask() {
    let (_, c) = run_op(
        Operator::TfWhere3(Id(0), Id(1), Id(2)),
        &[tensor(&[&[1, 0]]), tensor(&[&[5, 6]]), tensor(&[&[7, 8]])],
    );
    assert_eq!(&c[0][..2], &[5, 8]);
    let (dims, c) = run_op(Operator::TfSequenceMask(Id(0)), &[tensor(&[&[1, 3, 2]])]);
    assert_eq!(dims, (3, 3));
    assert_eq!(&c[0][..3], &[1, 0, 0]);
    assert_eq!(&c[1][..4], &[1, 1, 1, 0]);
    assert_eq!(&c[2][..3], &[1, 1, 0]);
    assert_eq!(&c[3][..3], &[0, 0, 0]);
}

#[test]
fn transpose_expand_dims_and_roll() {
    let (dims, c) = run_op(Operator::TfTranspose(Id(0)), &[tensor(&[&[1, 2, 3], &[4, 5, 6]])]);
    assert_eq!(dims, (3, 2));
    assert_eq!(&c[0][..2], &[1, 4]);
    assert_eq!(&c[2][..2], &[3, 6]);
    let (dims, c) = run_op(Operator::TfExpandDims(Id(0)), &[tensor(&[&[10, 20, 30]])]);
    assert_eq!(dims, (3, 1));
    assert_eq!((c[0][0], c[1][0], c[2][0]), (10, 20, 30));
    assert_eq!(c[0][1], 0);
    let (dims, c) = run_op(Operator::TfExpandDims(Id(0)), &[tensor(&[&[1, 2], &[3, 4], &[5, 6], &[7, 8]])]);
    assert_eq!(dims, (2, 1));
    assert_eq!((c[0][0], c[1][0]), (1, 2));
    // column 0 takes the last cell inside the column count
    let (_, c) = run_op(Operator::TfRoll(Id(0)), &[tensor(&[&[1, 2, 3]])]);
    assert_eq!(&c[0][..4], &[3, 1, 2, 0]);
    let x = tensor(&[&[1, 3, 2, -1, -1], &[4, 6, 5, -1, -1], &[8, 7, 9, -1, -1]]);
    let (dims, c) = run_op(Operator::TfRoll(Id(0)), &[x]);
    assert_eq!(dims, (3, 5));
    assert_eq!(&c[0][..6], &[-1, 1, 3, 2, -1, 0]);
    assert_eq!(&c[1][..6], &[-1, 4, 6, 5, -1, 0]);
    assert_eq!(&c[2][..6], &[-1, 8, 7, 9, -1, 0]);
    let (_, c) = run_op(Operator::TfRoll(Id(0)), &[tensor(&[&[1, 2, 3, 4, 5, 6, 7, 8, 9, 10]])]);
    assert_eq!(&c[0][..3], &[10, 1, 2]);
}

#[test]
fn cumsum_both_ways() {
    let (_, c) = run_op(Operator::TfCumsum(Id(0), Id(1)), &[tensor(&[&[1, 2, 3]]), tensor(&[&[1]])]);
    assert_eq!(c[0].len(), COLS + 1);
    assert_eq!(&c[0][..4], &[0, 1, 3, 0]);
    let (_, c) = run_op(Operator::TfCumsum(Id(0), Id(1)), &[tensor(&[&[1, 2, 3]]), tensor(&[&[0]])]);
    assert_eq!(&c[0][..4], &[1, 3, 6, 0]);
}

#[test]
fn concat0_segment_max_one_hot() {
    let (dims, c) = run_op(Operator::TfConcat0(Id(0), Id(1)), &[tensor(&[&[1, 2]]), tensor(&[&[3, 4]])]);
    assert_eq!(dims, (2, 2));
    assert_eq!(&c[0][..2], &[1, 2]);
    assert_eq!(&c[1][..2], &[3, 4]);
    let (dims, c) = run_op(Operator::TfSegmentMax(Id(0), Id(1)), &[tensor(&[&[0, 0, 1]]), tensor(&[&[5, 9, 2]])]);
    assert_eq!(dims.0, 1);
    assert_eq!(&c[0][..2], &[9, 2]);
    let (dims, c) = run_op(Operator::TfOneHot(Id(0), Id(1)), &[tensor(&[&[0, 2, 1]]), tensor(&[&[3]])]);
    assert_eq!(dims, (3, 3));
    assert_eq!(&c[0][..3], &[1, 0, 0]);
}

#[test]
fn concat0_stacks_rows() {
    let x = tensor(&[&[0, 1, 2, 3, 4]]);
    let y = tensor(&[&[1, 4, 2, 7, 6], &[20, 10, 50, 40, 30]]);
    let (dims, c) = run_op(Operator::TfConcat0(Id(0), Id(1)), &[x, y]);
    assert_eq!(dims, (3, 5));
    assert_eq!(&c[0][..5], &[0, 1, 2, 3, 4]);
    assert_eq!(&c[1][..5], &[1, 4, 2, 7, 6]);
    assert_eq!(&c[2][..5], &[20, 10, 50, 40, 30]);
}

#[test]
fn where1_lists_nonzero_coordinates() {
    let (dims, c) = run_op(Operator::TfWhere1(Id(0)), &[tensor(&[&[0, 5, 0], &[7, 0, 0]])]);
    assert_eq!(dims, (2, 2));
    assert_eq!(&c[0][..3], &[0, 1, 0]);
    assert_eq!(&c[1][..3], &[1, 0, 0]);
    // more cells than rows: the row count stops at the capacity
    let (dims, c) = run_op(Operator::TfWhere1(Id(0)), &[tensor(&[&[1, 1, 1], &[0, 1, 1]])]);
    assert_eq!(dims, (ROWS as i128, 2));
    assert_eq!(&c[3][..2], &[1, 1]);
    let (dims, _) = run_op(Operator::TfWhere1(Id(0)), &[tensor(&[&[0, 0]])]);
    assert_eq!(dims, (0, 2));
}

/// The names of the fresh arrays and tables that a term reads.
fn fresh_names(e: &IntExpr, out: &mut Vec<u64>) {
    match e {
        IntExpr::Const(_) | IntExpr::Var(_) => {}
        IntExpr::Add(a, b) | IntExpr::Sub(a, b) | IntExpr::Mul(a, b) | IntExpr::Div(a, b) => {
            fresh_names(a, out);
            fresh_names(b, out);
        }
        IntExpr::Ite(c, t, f) => {
            fresh_names_bool(c, out);
            fresh_names(t, out);
            fresh_names(f, out);
        }
        IntExpr::Select(a, i) => {
            fresh_names_array(a, out);
            fresh_names(i, out);
        }
    }
}

fn fresh_names_bool(e: &BoolExpr, out: &mut Vec<u64>) {
    match e {
        BoolExpr::Lit(_) => {}
        BoolExpr::Eq(a, b) | BoolExpr::Lt(a, b) | BoolExpr::Gt(a, b) => {
            fresh_names(a, out);
            fresh_names(b, out);
        }
        BoolExpr::And(a, b) | BoolExpr::Or(a, b) => {
            fresh_names_bool(a, out);
            fresh_names_bool(b, out);
        }
        BoolExpr::Ite(c, t, f) => {
            fresh_names_bool(c, out);
            fresh_names_bool(t, out);
            fresh_names_bool(f, out);
        }
    }
}

fn fresh_names_array(a: &ArrayExpr, out: &mut Vec<u64>) {
    match a {
        ArrayExpr::Fresh(k) => out.push(*k),
        ArrayExpr::Store(b, i, v) => {
            fresh_names_array(b, out);
            fresh_names(i, out);
            fresh_names(v, out);
        }
        ArrayExpr::Row(t, i) => {
            fresh_names_table(t, out);
            fresh_names(i, out);
        }
    }
}

fn fresh_names_table(t: &TableExpr, out: &mut Vec<u64>) {
    match t {
        TableExpr::Fresh(k) => out.push(*k),
        TableExpr::Store(b, i, a) => {
            fresh_names_table(b, out);
            fresh_names(i, out);
            fresh_names_array(a, out);
        }
    }
}

#[test]
fn composed_encodings_use_their_own_fresh_names() {
    let mut ctx = ExprContext::new();
    let first = TfConcat1.make_expression(&mut ctx, &[], &[tensor(&[&[1, 2]]), tensor(&[&[3, 4]])], 64);
    assert_eq!(ctx.next_fresh, ROWS as u64);
    let second = TfConcat1.make_expression(&mut ctx, &[], &[tensor(&[&[5]]), tensor(&[&[6]])], 64);
    assert_eq!(ctx.next_fresh, 2 * ROWS as u64);
    let mut a = Vec::new();
    let mut b = Vec::new();
    for row in &first.vecs {
        for c in row {
            fresh_names(c, &mut a);
        }
    }
    for row in &second.vecs {
        for c in row {
            fresh_names(c, &mut b);
        }
    }
    assert!(!a.is_empty() && a.iter().all(|k| *k < ROWS as u64));
    assert!(!b.is_empty() && b.iter().all(|k| *k >= ROWS as u64 && *k < 2 * ROWS as u64));
}

#[test]
fn operator_rebuilt_from_its_own_operands() {
    let ops = vec![
        Operator::TfAdd(Id(3), Id(4)),
        Operator::TfArgmax(Id(1)),
        Operator::TfWhere3(Id(2), Id(0), Id(1)),
        Operator::TfSegmentMax(Id(9), Id(8)),
    ];
    for op in ops {
        let ids = op.operand_ids();
        assert_eq!(ids.len(), op.arity());
        assert_eq!(op.make_operator(&vec![], &ids), op);
    }
}
