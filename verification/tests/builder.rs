use brahma_synth::{Id, Instruction, Operator, ProgramBuilder};

#[test]
fn builder_starts_empty() {
    let builder = ProgramBuilder::new();
    let program = builder.finish();
    assert!(program.instructions.is_empty());
    assert!(program.inputs.is_empty());
}

#[test]
fn builder_add_of_two_inputs() {
    let mut builder = ProgramBuilder::new();
    let in1 = builder.var(vec![vec![10]]);
    let in2 = builder.var(vec![vec![20]]);
    let sum = builder.tf_add(in1, in2);
    assert_eq!(in1, Id(0));
    assert_eq!(in2, Id(1));
    assert_eq!(sum, Id(2));
    let program = builder.finish();
    assert_eq!(
        program.instructions,
        vec![
            Instruction { result: Id(0), operator: Operator::Var },
            Instruction { result: Id(1), operator: Operator::Var },
            Instruction { result: Id(2), operator: Operator::TfAdd(Id(0), Id(1)) },
        ]
    );
    assert_eq!(program.inputs, vec![vec![vec![10]], vec![vec![20]]]);
}

#[test]
fn builder_ids_follow_positions() {
    let mut builder = ProgramBuilder::new();
    let in1 = builder.var(vec![vec![3, 4, 5]]);
    let in2 = builder.var(vec![vec![10, 20, 30]]);
    let o1 = builder.tf_expand_dims(in2);
    let o2 = builder.tf_add(in1, o1);
    let o3 = builder.tf_where3(o2, in1, in2);
    let o4 = builder.tf_boolean_mask_(o3, in1);
    let program = builder.finish();
    assert_eq!(program.instructions.len(), 6);
    for (k, inst) in program.instructions.iter().enumerate() {
        assert_eq!(inst.result, Id(k as u32));
    }
    assert_eq!(program.instructions[2].operator, Operator::TfExpandDims(Id(1)));
    assert_eq!(program.instructions[3].operator, Operator::TfAdd(in1, o1));
    assert_eq!(program.instructions[4].operator, Operator::TfWhere3(o2, in1, in2));
    assert_eq!(program.instructions[5].operator, Operator::TfBooleanMask_(o3, in1));
    assert_eq!(o4, Id(5));
    assert_eq!(program.inputs.len(), 2);
}

#[test]
fn builder_every_operator_method() {
    let mut b = ProgramBuilder::new();
    let x = b.var(vec![vec![1, 2]]);
    let y = b.var(vec![vec![3, 4]]);
    let made = vec![
        (b.tf_add(x, y), Operator::TfAdd(x, y)),
        (b.tf_argmax(x), Operator::TfArgmax(x)),
        (b.tf_boolean_mask(x, y), Operator::TfBooleanMask(x, y)),
        (b.tf_boolean_mask_(x, y), Operator::TfBooleanMask_(x, y)),
        (b.tf_cast(x), Operator::TfCast(x)),
        (b.tf_concat0(x, y), Operator::TfConcat0(x, y)),
        (b.tf_concat1(x, y), Operator::TfConcat1(x, y)),
        (b.tf_constant(x), Operator::TfConstant(x)),
        (b.tf_divide(x, y), Operator::TfDivide(x, y)),
        (b.tf_equal(x, y), Operator::TfEqual(x, y)),
        (b.tf_expand_dims(x), Operator::TfExpandDims(x)),
        (b.tf_greater(x, y), Operator::TfGreater(x, y)),
        (b.tf_bincount(x), Operator::TfBincount(x)),
        (b.tf_cumsum(x, y), Operator::TfCumsum(x, y)),
        (b.tf_multiply(x, y), Operator::TfMultiply(x, y)),
        (b.tf_range(x, y), Operator::TfRange(x, y)),
        (b.tf_sequence_mask(x), Operator::TfSequenceMask(x)),
        (b.tf_square(x), Operator::TfSquare(x)),
        (b.tf_subtract(x, y), Operator::TfSubtract(x, y)),
        (b.tf_tensordot(x, y), Operator::TfTensordot(x, y)),
        (b.tf_transpose(x), Operator::TfTranspose(x)),
        (b.tf_where1(x), Operator::TfWhere1(x)),
        (b.tf_where3(x, y, x), Operator::TfWhere3(x, y, x)),
        (b.tf_eye(x, y), Operator::TfEye(x, y)),
        (b.tf_fill(x, y), Operator::TfFill(x, y)),
        (b.tf_matmul(x, y), Operator::TfMatmul(x, y)),
        (b.tf_maximum(x, y), Operator::TfMaximum(x, y)),
        (b.tf_minimum(x, y), Operator::TfMinimum(x, y)),
        (b.tf_not_equal(x, y), Operator::TfNotEqual(x, y)),
        (b.tf_ones(x), Operator::TfOnes(x)),
        (b.tf_reduce_any0(x), Operator::TfReduceAny0(x)),
        (b.tf_reduce_any1(x), Operator::TfReduceAny1(x)),
        (b.tf_reduce_mean(x), Operator::TfReduceMean(x)),
        (b.tf_reduce_prod(x), Operator::TfReduceProd(x)),
        (b.tf_roll(x), Operator::TfRoll(x)),
        (b.tf_zeros(x), Operator::TfZeros(x)),
    ];
    let program = b.finish();
    for (k, (id, op)) in made.iter().enumerate() {
        assert_eq!(*id, Id(k as u32 + 2));
        assert_eq!(program.instructions[k + 2].operator, *op);
        assert_eq!(program.instructions[k + 2].result, *id);
    }
    assert_eq!(program.inputs.len(), 2);
}
