//! The built-in operators and their evaluation.

use crate::cell::{bare_row, no_rows, single, Cell, CellView};
use crate::formula::{
    deviation_of, mean_of, operation_on, rounded, total_of, Expr, ExprView, Operation,
};
use crate::number::{is_zero, zero, Comparison};
use crate::text::{contains_ignoring_case, lowercased, occurs, split, split_text, text_equal};
use crate::value::{
    column_view, joined, joined_push, listing, number_of, numbers_of, rendering, value_order,
    Value, ValueView,
};
use vstd::prelude::*;
use vstd::string::StringExecFns;

verus! {

/// A built-in operator.
#[derive(Clone, Copy, Debug, PartialEq, Eq, Structural)]
pub enum Primitive {
    LT,
    LTE,
    NEQ,
    EQ,
    Add,
    Subtract,
    Multiply,
    Divide,
    Remainder,
    Round,
    Split,
    Concat,
    AsNumber,
    AsText,
    Count,
    Contains,
    Sum,
    Mean,
    StandardDeviation,
}

/// The values that the bindings pick from the store, in the bindings' order.
pub open spec fn bound_values(bindings: Seq<(usize, usize)>, store: Seq<ValueView>) -> Seq<
    ValueView,
> {
    Seq::new(bindings.len(), |i: int| store[bindings[i].1 as int])
}

/// Whether the bindings name the fields 0, 1, 2, ... in this order, and
/// each a place that the store has.
pub open spec fn well_bound(bindings: Seq<(usize, usize)>, store_size: nat) -> bool {
    forall|i: int|
        0 <= i < bindings.len() ==> (#[trigger] bindings[i]).0 == i && bindings[i].1 < store_size
}

/// The result that is one row of one cell.
pub open spec fn one(cell: CellView) -> Seq<Seq<CellView>> {
    seq![seq![cell]]
}

/// The result of a filter: one row without cells where the condition
/// holds, no row where it does not.
pub open spec fn presence(holds: bool) -> Seq<Seq<CellView>> {
    if holds {
        seq![Seq::<CellView>::empty()]
    } else {
        Seq::<Seq<CellView>>::empty()
    }
}

/// One row for each segment: its number, counted from 1, and its text.
pub open spec fn numbered(segments: Seq<Seq<char>>) -> Seq<Seq<CellView>> {
    Seq::new(
        segments.len(),
        |i: int|
            seq![CellView::Number(ExprView::Whole((i + 1) as usize)), CellView::Text(segments[i])],
    )
}

/// What a type error says: the operator as it is written in the
/// enumeration, and the values that it was called on.
pub open spec fn type_error_message(op: Primitive, values: Seq<ValueView>) -> Seq<char> {
    "Type error while calling: "@ + op.label() + " "@ + listing(values)
}

/// The row that reports a type error: where it happened, and what.
pub open spec fn error_row(source: Seq<char>, op: Primitive, values: Seq<ValueView>) -> Seq<
    CellView,
> {
    seq![CellView::Text(source), CellView::Text(type_error_message(op, values))]
}

impl Primitive {
    /// The token by which queries call the operator.
    pub open spec fn token(self) -> Seq<char> {
        match self {
            Primitive::LT => "<"@,
            Primitive::LTE => "<="@,
            Primitive::NEQ => "!="@,
            Primitive::EQ => "=="@,
            Primitive::Add => "+"@,
            Primitive::Subtract => "-"@,
            Primitive::Multiply => "*"@,
            Primitive::Divide => "/"@,
            Primitive::Remainder => "remainder"@,
            Primitive::Round => "round"@,
            Primitive::Contains => "contains"@,
            Primitive::Split => "split"@,
            Primitive::Concat => "concat"@,
            Primitive::AsNumber => "as number"@,
            Primitive::AsText => "as text"@,
            Primitive::Count => "count"@,
            Primitive::Sum => "sum"@,
            Primitive::Mean => "mean"@,
            Primitive::StandardDeviation => "standard deviation"@,
        }
    }

    /// The operator that a token calls, if it calls one.
    pub open spec fn named(token: Seq<char>) -> Option<Primitive> {
        if token == "<"@ {
            Some(Primitive::LT)
        } else if token == "<="@ {
            Some(Primitive::LTE)
        } else if token == "!="@ {
            Some(Primitive::NEQ)
        } else if token == "=="@ {
            Some(Primitive::EQ)
        } else if token == "+"@ {
            Some(Primitive::Add)
        } else if token == "-"@ {
            Some(Primitive::Subtract)
        } else if token == "*"@ {
            Some(Primitive::Multiply)
        } else if token == "/"@ {
            Some(Primitive::Divide)
        } else if token == "remainder"@ {
            Some(Primitive::Remainder)
        } else if token == "round"@ {
            Some(Primitive::Round)
        } else if token == "contains"@ {
            Some(Primitive::Contains)
        } else if token == "split"@ {
            Some(Primitive::Split)
        } else if token == "concat"@ {
            Some(Primitive::Concat)
        } else if token == "as number"@ {
            Some(Primitive::AsNumber)
        } else if token == "as text"@ {
            Some(Primitive::AsText)
        } else if token == "count"@ {
            Some(Primitive::Count)
        } else if token == "sum"@ {
            Some(Primitive::Sum)
        } else if token == "mean"@ {
            Some(Primitive::Mean)
        } else if token == "standard deviation"@ {
            Some(Primitive::StandardDeviation)
        } else {
            None
        }
    }

    /// The operator as it is written in the enumeration.
    pub open spec fn label(self) -> Seq<char> {
        match self {
            Primitive::LT => "LT"@,
            Primitive::LTE => "LTE"@,
            Primitive::NEQ => "NEQ"@,
            Primitive::EQ => "EQ"@,
            Primitive::Add => "Add"@,
            Primitive::Subtract => "Subtract"@,
            Primitive::Multiply => "Multiply"@,
            Primitive::Divide => "Divide"@,
            Primitive::Remainder => "Remainder"@,
            Primitive::Round => "Round"@,
            Primitive::Split => "Split"@,
            Primitive::Concat => "Concat"@,
            Primitive::AsNumber => "AsNumber"@,
            Primitive::AsText => "AsText"@,
            Primitive::Count => "Count"@,
            Primitive::Contains => "Contains"@,
            Primitive::Sum => "Sum"@,
            Primitive::Mean => "Mean"@,
            Primitive::StandardDeviation => "StandardDeviation"@,
        }
    }

    /// The number of values that the operator takes.
    pub open spec fn arity(self) -> nat {
        match self {
            Primitive::AsNumber
            | Primitive::AsText
            | Primitive::Count
            | Primitive::Sum
            | Primitive::Mean
            | Primitive::StandardDeviation => 1,
            _ => 2,
        }
    }

    /// The number of cells in each row that the operator yields.
    pub open spec fn width(self) -> nat {
        match self {
            Primitive::LT | Primitive::LTE | Primitive::NEQ => 0,
            Primitive::Split => 2,
            _ => 1,
        }
    }

    /// Whether the operator is one of the three filters, which yield rows
    /// without cells.
    pub open spec fn is_filter(self) -> bool {
        self == Primitive::LT || self == Primitive::LTE || self == Primitive::NEQ
    }

    /// Whether the operator computes with two numbers.
    pub open spec fn is_arithmetic(self) -> bool {
        self == Primitive::Add || self == Primitive::Subtract || self == Primitive::Multiply
            || self == Primitive::Divide || self == Primitive::Remainder || self
            == Primitive::Round
    }

    /// Whether the operator computes with the numbers of a column.
    pub open spec fn is_aggregate(self) -> bool {
        self == Primitive::Sum || self == Primitive::Mean || self == Primitive::StandardDeviation
    }

    /// Whether a filter lets a pair of values through.
    pub open spec fn admits(self, a: ValueView, b: ValueView) -> bool {
        let order = value_order(a, b);
        match self {
            Primitive::LT => order == Comparison::Less,
            Primitive::LTE => order == Comparison::Less || order == Comparison::Equal,
            Primitive::NEQ => order != Comparison::Equal,
            _ => false,
        }
    }

    /// The arithmetic that an operator on two numbers asks for; none where
    /// the call is a type error, as a division by zero is.
    pub open spec fn arithmetic(self, x: u64, y: u64) -> Option<ExprView> {
        match self {
            Primitive::Add => Some(operation_on(Operation::Add, x, y)),
            Primitive::Subtract => Some(operation_on(Operation::Subtract, x, y)),
            Primitive::Multiply => Some(operation_on(Operation::Multiply, x, y)),
            Primitive::Divide => if zero(y) {
                None
            } else {
                Some(operation_on(Operation::Divide, x, y))
            },
            Primitive::Remainder => Some(operation_on(Operation::Remainder, x, y)),
            Primitive::Round => Some(rounded(x, y)),
            _ => None,
        }
    }

    /// The arithmetic that an operator on a list of numbers asks for.
    pub open spec fn aggregate(self, terms: Seq<u64>) -> ExprView {
        match self {
            Primitive::Mean => mean_of(terms),
            Primitive::StandardDeviation => deviation_of(terms),
            _ => total_of(terms),
        }
    }

    /// The rows that the operator yields on the given values; none where the
    /// call is a type error.
    pub open spec fn outcome(self, values: Seq<ValueView>) -> Option<Seq<Seq<CellView>>> {
        if values.len() != self.arity() {
            None
        } else {
            match self {
                Primitive::LT | Primitive::LTE | Primitive::NEQ => Some(
                    presence(self.admits(values[0], values[1])),
                ),
                Primitive::EQ => Some(
                    one(CellView::Bool(value_order(values[0], values[1]) == Comparison::Equal)),
                ),
                Primitive::Add
                | Primitive::Subtract
                | Primitive::Multiply
                | Primitive::Divide
                | Primitive::Remainder
                | Primitive::Round => match (number_of(values[0]), number_of(values[1])) {
                    (Some(x), Some(y)) => match self.arithmetic(x, y) {
                        Some(e) => Some(one(CellView::Number(e))),
                        None => None,
                    },
                    _ => None,
                },
                Primitive::Contains => Some(
                    one(
                        CellView::Bool(
                            occurs(
                                lowercased(rendering(values[1])),
                                lowercased(rendering(values[0])),
                            ),
                        ),
                    ),
                ),
                Primitive::Split => Some(
                    numbered(split(rendering(values[1]), rendering(values[0]))),
                ),
                Primitive::Concat => Some(
                    one(CellView::Text(rendering(values[0]) + rendering(values[1]))),
                ),
                Primitive::AsNumber => match number_of(values[0]) {
                    Some(x) => Some(one(CellView::Number(ExprView::Number(x)))),
                    None => None,
                },
                Primitive::AsText => Some(one(CellView::Text(rendering(values[0])))),
                Primitive::Count => match values[0] {
                    ValueView::Column(items) => Some(
                        one(CellView::Number(ExprView::Whole(items.len() as usize))),
                    ),
                    _ => None,
                },
                Primitive::Sum | Primitive::Mean | Primitive::StandardDeviation => match numbers_of(
                    values[0],
                ) {
                    Some(terms) => Some(one(CellView::Number(self.aggregate(terms)))),
                    None => None,
                },
            }
        }
    }

    /// What a call on the given values leaves behind. Where the operator
    /// yields rows, these are the result and the error sink is as it was.
    /// Where the call is a type error, the result has no row and the error
    /// sink has gained one row: the source, and what went wrong.
    pub open spec fn evaluated(
        self,
        values: Seq<ValueView>,
        source: Seq<char>,
        before: Seq<Vec<Cell>>,
        after: Seq<Vec<Cell>>,
        rows: Vec<Vec<Cell>>,
    ) -> bool {
        match self.outcome(values) {
            Some(expected) => rows.deep_view() == expected && after == before,
            None => rows@.len() == 0 && reported(before, after, error_row(source, self, values)),
        }
    }

    /// The operator that a token calls, if it calls one.
    pub fn lookup(string: &str) -> (found: Option<Primitive>)
        ensures
            found == Primitive::named(string@),
    {
        if text_equal(string, "<") {
            Some(Primitive::LT)
        } else if text_equal(string, "<=") {
            Some(Primitive::LTE)
        } else if text_equal(string, "!=") {
            Some(Primitive::NEQ)
        } else if text_equal(string, "==") {
            Some(Primitive::EQ)
        } else if text_equal(string, "+") {
            Some(Primitive::Add)
        } else if text_equal(string, "-") {
            Some(Primitive::Subtract)
        } else if text_equal(string, "*") {
            Some(Primitive::Multiply)
        } else if text_equal(string, "/") {
            Some(Primitive::Divide)
        } else if text_equal(string, "remainder") {
            Some(Primitive::Remainder)
        } else if text_equal(string, "round") {
            Some(Primitive::Round)
        } else if text_equal(string, "contains") {
            Some(Primitive::Contains)
        } else if text_equal(string, "split") {
            Some(Primitive::Split)
        } else if text_equal(string, "concat") {
            Some(Primitive::Concat)
        } else if text_equal(string, "as number") {
            Some(Primitive::AsNumber)
        } else if text_equal(string, "as text") {
            Some(Primitive::AsText)
        } else if text_equal(string, "count") {
            Some(Primitive::Count)
        } else if text_equal(string, "sum") {
            Some(Primitive::Sum)
        } else if text_equal(string, "mean") {
            Some(Primitive::Mean)
        } else if text_equal(string, "standard deviation") {
            Some(Primitive::StandardDeviation)
        } else {
            None
        }
    }

    /// The operator that a token calls. The token has to call one.
    pub fn from_str(string: &str) -> (op: Primitive)
        requires
            Primitive::named(string@) is Some,
        ensures
            Primitive::named(string@) == Some(op),
    {
        Primitive::lookup(string).unwrap()
    }

    /// The token by which queries call the operator.
    pub fn name(&self) -> (text: &'static str)
        ensures
            text@ == self.token(),
    {
        match self {
            Primitive::LT => "<",
            Primitive::LTE => "<=",
            Primitive::NEQ => "!=",
            Primitive::EQ => "==",
            Primitive::Add => "+",
            Primitive::Subtract => "-",
            Primitive::Multiply => "*",
            Primitive::Divide => "/",
            Primitive::Remainder => "remainder",
            Primitive::Round => "round",
            Primitive::Contains => "contains",
            Primitive::Split => "split",
            Primitive::Concat => "concat",
            Primitive::AsNumber => "as number",
            Primitive::AsText => "as text",
            Primitive::Count => "count",
            Primitive::Sum => "sum",
            Primitive::Mean => "mean",
            Primitive::StandardDeviation => "standard deviation",
        }
    }

    /// The operator as it is written in the enumeration.
    pub fn label_text(&self) -> (text: &'static str)
        ensures
            text@ == self.label(),
    {
        match self {
            Primitive::LT => "LT",
            Primitive::LTE => "LTE",
            Primitive::NEQ => "NEQ",
            Primitive::EQ => "EQ",
            Primitive::Add => "Add",
            Primitive::Subtract => "Subtract",
            Primitive::Multiply => "Multiply",
            Primitive::Divide => "Divide",
            Primitive::Remainder => "Remainder",
            Primitive::Round => "Round",
            Primitive::Split => "Split",
            Primitive::Concat => "Concat",
            Primitive::AsNumber => "AsNumber",
            Primitive::AsText => "AsText",
            Primitive::Count => "Count",
            Primitive::Contains => "Contains",
            Primitive::Sum => "Sum",
            Primitive::Mean => "Mean",
            Primitive::StandardDeviation => "StandardDeviation",
        }
    }

    /// The number of values that the operator takes.
    pub fn operands(&self) -> (count: usize)
        ensures
            count == self.arity(),
    {
        match self {
            Primitive::AsNumber
            | Primitive::AsText
            | Primitive::Count
            | Primitive::Sum
            | Primitive::Mean
            | Primitive::StandardDeviation => 1,
            _ => 2,
        }
    }
}

/// Whether the error sink has gained the given row, and nothing else.
pub open spec fn reported(before: Seq<Vec<Cell>>, after: Seq<Vec<Cell>>, row: Seq<CellView>) -> bool {
    &&& after.len() == before.len() + 1
    &&& after.drop_last() == before
    &&& after.last().deep_view() == row
}

/// Whether the bindings name the fields 0, 1, 2, ... in this order, and
/// each a place in a store of the given size: what `eval` asks of them.
pub fn bindings_fit(bindings: &[(usize, usize)], store_size: usize) -> (fit: bool)
    ensures
        fit == well_bound(bindings@, store_size as nat),
{
    let mut i: usize = 0;
    while i < bindings.len()
        invariant
            i <= bindings.len(),
            forall|j: int|
                0 <= j < i ==> (#[trigger] bindings@[j]).0 == j && bindings@[j].1 < store_size,
        decreases bindings.len() - i,
    {
        if bindings[i].0 != i || bindings[i].1 >= store_size {
            return false;
        }
        i += 1;
    }
    true
}

/// The value that the binding at `i` picks from the store.
fn operand<'a>(bindings: &[(usize, usize)], inputs: &'a [Value], i: usize) -> (value: &'a Value)
    requires
        well_bound(bindings@, inputs@.len()),
        i < bindings@.len(),
    ensures
        value.deep_view() == bound_values(bindings@, inputs.deep_view())[i as int],
{
    &inputs[bindings[i].1]
}

/// The renderings of the bound values, separated and in square brackets.
fn render_bound(bindings: &[(usize, usize)], inputs: &[Value]) -> (text: String)
    requires
        well_bound(bindings@, inputs@.len()),
    ensures
        text@ == listing(bound_values(bindings@, inputs.deep_view())),
{
    let ghost values = bound_values(bindings@, inputs.deep_view());
    let mut out = String::from_str("[");
    let mut i: usize = 0;
    proof {
        assert(values.take(0) == Seq::<ValueView>::empty());
        assert(out@ == "["@ + joined(values.take(0)));
    }
    while i < bindings.len()
        invariant
            well_bound(bindings@, inputs@.len()),
            values == bound_values(bindings@, inputs.deep_view()),
            i <= bindings.len(),
            out@ == "["@ + joined(values.take(i as int)),
        decreases bindings.len() - i,
    {
        let piece = operand(bindings, inputs, i).render();
        if i > 0 {
            out.append(", ");
        }
        out.append(piece.as_str());
        proof {
            assert(values.take(i + 1) == values.take(i as int).push(values[i as int]));
            joined_push(values.take(i as int), values[i as int]);
            assert(out@ == "["@ + joined(values.take(i + 1)));
        }
        i += 1;
    }
    proof {
        assert(values.take(bindings.len() as int) == values);
    }
    out.append("]");
    out
}

/// One row for each segment: its number, counted from 1, and its text.
pub fn number_segments(segments: Vec<String>) -> (rows: Vec<Vec<Cell>>)
    ensures
        rows.deep_view() == numbered(segments.deep_view()),
{
    let mut rows: Vec<Vec<Cell>> = Vec::new();
    let mut i: usize = 0;
    while i < segments.len()
        invariant
            i <= segments.len(),
            rows.len() == i,
            forall|j: int|
                0 <= j < i ==> (#[trigger] rows@[j]).deep_view() == numbered(
                    segments.deep_view(),
                )[j],
        decreases segments.len() - i,
    {
        let mut row: Vec<Cell> = Vec::new();
        row.push(Cell::Number(Expr::Whole(i + 1)));
        row.push(Cell::Text(segments[i].clone()));
        proof {
            assert(row.deep_view() == numbered(segments.deep_view())[i as int]);
        }
        rows.push(row);
        i += 1;
    }
    proof {
        assert(rows.deep_view() == numbered(segments.deep_view()));
    }
    rows
}

impl Primitive {
    /// Reports a type error: appends the error row and yields no row.
    fn type_error(
        &self,
        bindings: &[(usize, usize)],
        inputs: &[Value],
        source: &str,
        errors: &mut Vec<Vec<Cell>>,
    ) -> (rows: Vec<Vec<Cell>>)
        requires
            well_bound(bindings@, inputs@.len()),
        ensures
            rows@.len() == 0,
            reported(
                old(errors)@,
                final(errors)@,
                error_row(source@, *self, bound_values(bindings@, inputs.deep_view())),
            ),
    {
        let mut message = String::from_str("Type error while calling: ");
        message.append(self.label_text());
        message.append(" ");
        let list = render_bound(bindings, inputs);
        message.append(list.as_str());
        let mut row: Vec<Cell> = Vec::new();
        row.push(Cell::Text(String::from_str(source)));
        row.push(Cell::Text(message));
        proof {
            assert(row.deep_view() == error_row(
                source@,
                *self,
                bound_values(bindings@, inputs.deep_view()),
            ));
        }
        errors.push(row);
        proof {
            assert(errors@.drop_last() == old(errors)@);
        }
        no_rows()
    }

    /// The arithmetic that an operator on two numbers asks for.
    fn compute(&self, x: u64, y: u64) -> (e: Option<Expr>)
        ensures
            match e {
                Some(e) => self.arithmetic(x, y) == Some(e.deep_view()),
                None => self.arithmetic(x, y) is None,
            },
    {
        match self {
            Primitive::Add => Some(Expr::operation(Operation::Add, x, y)),
            Primitive::Subtract => Some(Expr::operation(Operation::Subtract, x, y)),
            Primitive::Multiply => Some(Expr::operation(Operation::Multiply, x, y)),
            Primitive::Divide => if is_zero(y) {
                None
            } else {
                Some(Expr::operation(Operation::Divide, x, y))
            },
            Primitive::Remainder => Some(Expr::operation(Operation::Remainder, x, y)),
            Primitive::Round => Some(Expr::rounded(x, y)),
            _ => None,
        }
    }

    /// The arithmetic that an operator on a list of numbers asks for.
    fn combine(&self, terms: Vec<u64>) -> (e: Expr)
        ensures
            e.deep_view() == self.aggregate(terms@),
    {
        match self {
            Primitive::Mean => Expr::mean(terms),
            Primitive::StandardDeviation => Expr::deviation(terms),
            _ => Expr::total(terms),
        }
    }

    /// Applies the operator to the values that the bindings pick from the
    /// store.
    ///
    /// The bindings have to name the fields 0, 1, 2, ... in this order, and
    /// each a place that the store has. Where the call is a type error, no
    /// row comes back and one row is appended to `errors`: `source`, and what
    /// went wrong. Otherwise `errors` is left as it was.
    pub fn eval(
        &self,
        input_bindings: &[(usize, usize)],
        inputs: &[Value],
        source: &str,
        errors: &mut Vec<Vec<Cell>>,
    ) -> (rows: Vec<Vec<Cell>>)
        requires
            well_bound(input_bindings@, inputs@.len()),
        ensures
            self.evaluated(
                bound_values(input_bindings@, inputs.deep_view()),
                source@,
                old(errors)@,
                final(errors)@,
                rows,
            ),
    {
        let ghost values = bound_values(input_bindings@, inputs.deep_view());
        if input_bindings.len() != self.operands() {
            return self.type_error(input_bindings, inputs, source, errors);
        }
        let first = operand(input_bindings, inputs, 0);
        match self {
            Primitive::LT | Primitive::LTE | Primitive::NEQ => {
                let order = first.compare(operand(input_bindings, inputs, 1));
                let holds = match self {
                    Primitive::LT => order == Comparison::Less,
                    Primitive::LTE => order == Comparison::Less || order == Comparison::Equal,
                    _ => order != Comparison::Equal,
                };
                if holds {
                    bare_row()
                } else {
                    no_rows()
                }
            },
            Primitive::EQ => {
                let order = first.compare(operand(input_bindings, inputs, 1));
                single(Cell::Bool(order == Comparison::Equal))
            },
            Primitive::Add
            | Primitive::Subtract
            | Primitive::Multiply
            | Primitive::Divide
            | Primitive::Remainder
            | Primitive::Round => {
                let second = operand(input_bindings, inputs, 1);
                match (first.parse_as_number(), second.parse_as_number()) {
                    (Some(x), Some(y)) => match self.compute(x, y) {
                        Some(e) => single(Cell::Number(e)),
                        None => self.type_error(input_bindings, inputs, source, errors),
                    },
                    _ => self.type_error(input_bindings, inputs, source, errors),
                }
            },
            Primitive::Contains => {
                let inner = first.render();
                let outer = operand(input_bindings, inputs, 1).render();
                single(Cell::Bool(contains_ignoring_case(outer.as_str(), inner.as_str())))
            },
            Primitive::Split => {
                let delimiter = first.render();
                let text = operand(input_bindings, inputs, 1).render();
                number_segments(split_text(text.as_str(), delimiter.as_str()))
            },
            Primitive::Concat => {
                let tail = operand(input_bindings, inputs, 1).render();
                single(Cell::Text(first.render().concat(tail.as_str())))
            },
            Primitive::AsNumber => match first.parse_as_number() {
                Some(x) => single(Cell::Number(Expr::Number(x))),
                None => self.type_error(input_bindings, inputs, source, errors),
            },
            Primitive::AsText => single(Cell::Text(first.render())),
            Primitive::Count => match first {
                Value::Column(items) => {
                    proof {
                        column_view(*items);
                    }
                    single(Cell::Number(Expr::Whole(items.len())))
                },
                _ => self.type_error(input_bindings, inputs, source, errors),
            },
            Primitive::Sum | Primitive::Mean | Primitive::StandardDeviation => {
                match first.parse_as_numbers() {
                    Some(terms) => single(Cell::Number(self.combine(terms))),
                    None => self.type_error(input_bindings, inputs, source, errors),
                }
            },
        }
    }
}

} // verus!
