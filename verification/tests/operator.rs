use brahma_synth::{Id, Operator};

#[test]
fn operator_arity_counts_operands() {
    assert_eq!(Operator::Var.arity(), 0);
    assert_eq!(Operator::TfArgmax(Id(0)).arity(), 1);
    assert_eq!(Operator::TfAdd(Id(0), Id(1)).arity(), 2);
    assert_eq!(Operator::TfWhere3(Id(0), Id(1), Id(2)).arity(), 3);
    assert_eq!(Operator::TfSegmentMax(Id(4), Id(5)).arity(), 2);
}

#[test]
fn operator_operands_in_order() {
    let mut seen = Vec::new();
    Operator::TfWhere3(Id(7), Id(3), Id(9)).operands(|id| seen.push(id));
    assert_eq!(seen, vec![Id(7), Id(3), Id(9)]);
    let mut none = Vec::new();
    Operator::Var.operands(|id| none.push(id));
    assert!(none.is_empty());
    assert_eq!(Operator::TfConcat1(Id(1), Id(2)).operand_ids(), vec![Id(1), Id(2)]);
}

#[test]
fn operator_operands_mut_renames_in_place() {
    let mut op = Operator::TfMatmul(Id(1), Id(2));
    op.operands_mut(|id| id.0 += 10);
    assert_eq!(op, Operator::TfMatmul(Id(11), Id(12)));
    let mut var = Operator::Var;
    var.operands_mut(|id| id.0 = 0);
    assert_eq!(var, Operator::Var);
}

#[test]
fn operator_operands_mut_reading_keeps() {
    let mut op = Operator::TfWhere3(Id(4), Id(8), Id(15));
    let mut seen = Vec::new();
    op.operands_mut(|id| seen.push(id.0));
    assert_eq!(op, Operator::TfWhere3(Id(4), Id(8), Id(15)));
    assert_eq!(seen, vec![4, 8, 15]);
}

#[test]
fn operator_text() {
    assert_eq!(Operator::Var.to_string(), "var: vec");
    assert_eq!(Operator::TfAdd(Id(0), Id(1)).to_string(), "TfAdd: 0, 1");
    assert_eq!(Operator::TfArgmax(Id(12)).to_string(), "TfArgmax: 12, axis = 1");
    assert_eq!(Operator::TfConcat0(Id(3), Id(40)).to_string(), "TfConcat: 3, 40, axis = 0");
    assert_eq!(Operator::TfWhere3(Id(1), Id(2), Id(3)).to_string(), "TfWhere: 1, 2, 3");
    assert_eq!(Operator::TfBooleanMask_(Id(5), Id(6)).to_string(), "TfBooleanMask: 5, 6");
    assert_eq!(Operator::TfReduceMean(Id(100)).to_string(), "TfReduceMean: 100, axis = 0");
    assert_eq!(Id(4294967295).to_string(), "4294967295");
}
