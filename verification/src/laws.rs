//! What holds of every call of the evaluator, and of the registry beside it.

use crate::cell::{Cell, CellView};
use crate::formula::{operation_on, ExprView, Operation};
use crate::number::{zero, Comparison, ZERO_BITS};
use crate::primitive::{error_row, one, Primitive};
use crate::text::text_order;
use crate::value::{number_of, numbers_of, value_order, value_order_mirrors, ValueView};
use vstd::prelude::*;

verus! {

/// Dividing a number by a number that is not zero yields one row that holds
/// the quotient, and reports nothing. Dividing by zero, of either sign,
/// yields no row and appends exactly one row to the error sink.
pub proof fn division(
    a: ValueView,
    b: ValueView,
    x: u64,
    y: u64,
    source: Seq<char>,
    before: Seq<Vec<Cell>>,
    after: Seq<Vec<Cell>>,
    rows: Vec<Vec<Cell>>,
)
    requires
        number_of(a) == Some(x),
        number_of(b) == Some(y),
        Primitive::Divide.evaluated(seq![a, b], source, before, after, rows),
    ensures
        !zero(y) ==> rows.deep_view() == one(
            CellView::Number(operation_on(Operation::Divide, x, y)),
        ) && after == before,
        zero(y) ==> rows@.len() == 0 && after.len() == before.len() + 1 && after.drop_last()
            == before,
{
}

/// Whether a value of the call does not read as what the operator computes
/// with: for an operator on a column, the column as a list of numbers; for
/// an operator on numbers, one of them as a number.
pub open spec fn unreadable(op: Primitive, values: Seq<ValueView>) -> bool {
    if op.is_aggregate() {
        numbers_of(values[0]) is None
    } else {
        (op.is_arithmetic() || op == Primitive::AsNumber) && exists|i: int|
            0 <= i < values.len() && number_of(#[trigger] values[i]) is None
    }
}

/// An operator that computes with numbers, called on a value that does not
/// read as one, yields no row and appends exactly one row to the error
/// sink, which starts with the source that the call was given.
pub proof fn unreadable_operand_is_reported(
    op: Primitive,
    values: Seq<ValueView>,
    source: Seq<char>,
    before: Seq<Vec<Cell>>,
    after: Seq<Vec<Cell>>,
    rows: Vec<Vec<Cell>>,
)
    requires
        values.len() == op.arity(),
        unreadable(op, values),
        op.evaluated(values, source, before, after, rows),
    ensures
        rows@.len() == 0,
        after.len() == before.len() + 1,
        after.drop_last() == before,
        after.last().deep_view() == error_row(source, op, values),
        after.last().deep_view().len() == 2,
        after.last().deep_view()[0] == CellView::Text(source),
{
}

/// The sum, the mean and the standard deviation of a column without items
/// are each one row that holds zero.
pub proof fn aggregate_of_nothing_is_zero(op: Primitive)
    requires
        op.is_aggregate(),
    ensures
        op.outcome(seq![ValueView::Column(Seq::empty())]) == Some(
            one(CellView::Number(ExprView::Number(ZERO_BITS))),
        ),
{
    let column = ValueView::Column(Seq::empty());
    assert(numbers_of(column)->0 =~= Seq::<u64>::empty());
}

/// A call with another number of values than the registry declares input
/// fields for the operator is a type error.
pub proof fn undeclared_arity_is_type_error(op: Primitive, values: Seq<ValueView>)
    requires
        values.len() != op.scalar_inputs().len() + op.vector_inputs().len(),
    ensures
        op.outcome(values) is None,
{
}

/// Every row that an operator yields has one cell for each output field
/// that the registry declares for it.
pub proof fn rows_have_declared_width(op: Primitive, values: Seq<ValueView>, i: int)
    requires
        op.outcome(values) is Some,
        0 <= i < op.outcome(values)->0.len(),
    ensures
        op.outcome(values)->0[i].len() == op.outputs().len(),
{
}

/// The input fields of every operator are declared in alphabetical order,
/// which is the order in which the values are bound.
pub proof fn inputs_are_alphabetical(op: Primitive, i: int, j: int)
    requires
        0 <= i < j < (op.scalar_inputs() + op.vector_inputs()).len(),
    ensures
        text_order(
            (op.scalar_inputs() + op.vector_inputs())[i],
            (op.scalar_inputs() + op.vector_inputs())[j],
        ) == Comparison::Less,
{
    reveal_strlit("A");
    reveal_strlit("B");
    reveal_strlit("inner");
    reveal_strlit("outer");
    reveal_strlit("delimiter");
    reveal_strlit("text");
    assert("A"@.len() == 1 && "A"@[0] == 'A');
    assert("B"@.len() == 1 && "B"@[0] == 'B');
    assert("inner"@.len() == 5 && "inner"@[0] == 'i');
    assert("outer"@.len() == 5 && "outer"@[0] == 'o');
    assert("delimiter"@.len() == 9 && "delimiter"@[0] == 'd');
    assert("text"@.len() == 4 && "text"@[0] == 't');
}

/// The comparisons agree with each other: what is less is also less or
/// equal and not equal, and is not less from the other side; what is less
/// or equal from both sides is equal; and values are not equal exactly
/// where the test for equality says `false`.
pub proof fn comparisons_agree(a: ValueView, b: ValueView)
    ensures
        Primitive::LT.admits(a, b) ==> Primitive::LTE.admits(a, b) && Primitive::NEQ.admits(a, b),
        Primitive::LT.admits(a, b) ==> !Primitive::LTE.admits(b, a),
        Primitive::LTE.admits(a, b) && Primitive::LTE.admits(b, a) ==> value_order(a, b)
            == Comparison::Equal,
        Primitive::NEQ.admits(a, b) == Primitive::NEQ.admits(b, a),
        Primitive::NEQ.admits(a, b) <==> Primitive::EQ.outcome(seq![a, b]) == Some(
            one(CellView::Bool(false)),
        ),
{
    value_order_mirrors(a, b);
    let rows = Primitive::EQ.outcome(seq![a, b])->0;
    assert(rows[0][0] == CellView::Bool(value_order(a, b) == Comparison::Equal));
    if Primitive::NEQ.admits(a, b) {
        assert(rows == one(CellView::Bool(false)));
    } else {
        assert(one(CellView::Bool(false))[0][0] == CellView::Bool(false));
    }
}

/// Evaluation is a function of the operator and the values: two calls on
/// the same values yield the same rows, and both report or neither does.
pub proof fn evaluation_is_deterministic(
    op: Primitive,
    values: Seq<ValueView>,
    source: Seq<char>,
    before: Seq<Vec<Cell>>,
    after: Seq<Vec<Cell>>,
    rows: Vec<Vec<Cell>>,
    other_before: Seq<Vec<Cell>>,
    other_after: Seq<Vec<Cell>>,
    other_rows: Vec<Vec<Cell>>,
)
    requires
        op.evaluated(values, source, before, after, rows),
        op.evaluated(values, source, other_before, other_after, other_rows),
    ensures
        rows.deep_view() == other_rows.deep_view(),
        after.len() - before.len() == other_after.len() - other_before.len(),
        after.len() > before.len() ==> after.last().deep_view() == other_after.last().deep_view(),
{
    assert(rows.deep_view() =~= other_rows.deep_view());
}

} // verus!
