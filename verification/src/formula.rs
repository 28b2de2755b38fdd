//! Numeric results as arithmetic still to be carried out.
//!
//! An operator that yields a number yields an [`Expr`]: the arithmetic over
//! its operands, node by node. The host evaluates it in floating point.

use crate::number::{TEN_BITS, ZERO_BITS};
use vstd::prelude::*;

verus! {

/// An operation on two numbers.
#[derive(Clone, Copy, Debug, PartialEq, Eq, Structural)]
pub enum Operation {
    /// The sum of the two.
    Add,
    /// The first less the second.
    Subtract,
    /// The product of the two.
    Multiply,
    /// The first divided by the second.
    Divide,
    /// What is left of the first after division by the second, with the
    /// sign of the first.
    Remainder,
    /// The first raised to the second.
    Power,
}

/// A function of one number.
#[derive(Clone, Copy, Debug, PartialEq, Eq, Structural)]
pub enum Function {
    /// The nearest whole number, half-way cases away from zero.
    Round,
    /// The square root.
    SquareRoot,
    /// The number times itself.
    Square,
}

/// Arithmetic over doubles, to be carried out by the host.
#[derive(Debug, PartialEq)]
pub enum Expr {
    /// A double, by its bits.
    Number(u64),
    /// A count, to be taken as the nearest double.
    Whole(usize),
    /// The terms added up one after the other, from zero on.
    Sum(Vec<u64>),
    /// The squares of the terms added up one after the other, from zero on.
    SumOfSquares(Vec<u64>),
    Unary(Function, Box<Expr>),
    Binary(Operation, Box<Expr>, Box<Expr>),
}

/// The mathematical model of an [`Expr`].
pub enum ExprView {
    Number(u64),
    Whole(usize),
    Sum(Seq<u64>),
    SumOfSquares(Seq<u64>),
    Unary(Function, Box<ExprView>),
    Binary(Operation, Box<ExprView>, Box<ExprView>),
}

/// The model of an expression.
pub open spec fn expr_view(e: Expr) -> ExprView
    decreases e,
{
    match e {
        Expr::Number(bits) => ExprView::Number(bits),
        Expr::Whole(count) => ExprView::Whole(count),
        Expr::Sum(terms) => ExprView::Sum(terms@),
        Expr::SumOfSquares(terms) => ExprView::SumOfSquares(terms@),
        Expr::Unary(function, of) => ExprView::Unary(function, Box::new(expr_view(*of))),
        Expr::Binary(operation, left, right) => ExprView::Binary(
            operation,
            Box::new(expr_view(*left)),
            Box::new(expr_view(*right)),
        ),
    }
}

impl DeepView for Expr {
    type V = ExprView;

    open spec fn deep_view(&self) -> ExprView {
        expr_view(*self)
    }
}

/// One operation on two given numbers.
pub open spec fn operation_on(operation: Operation, a: u64, b: u64) -> ExprView {
    ExprView::Binary(operation, Box::new(ExprView::Number(a)), Box::new(ExprView::Number(b)))
}

/// Ten raised to `places`.
pub open spec fn power_of_ten(places: u64) -> ExprView {
    operation_on(Operation::Power, TEN_BITS, places)
}

/// `value` rounded to `places` decimal places: `value` times ten to the
/// `places`, rounded to the nearest whole number, divided by ten to the
/// `places` again.
pub open spec fn rounded(value: u64, places: u64) -> ExprView {
    ExprView::Binary(
        Operation::Divide,
        Box::new(
            ExprView::Unary(
                Function::Round,
                Box::new(
                    ExprView::Binary(
                        Operation::Multiply,
                        Box::new(ExprView::Number(value)),
                        Box::new(power_of_ten(places)),
                    ),
                ),
            ),
        ),
        Box::new(power_of_ten(places)),
    )
}

/// The sum of the terms; zero where there are none.
pub open spec fn total_of(terms: Seq<u64>) -> ExprView {
    if terms.len() == 0 {
        ExprView::Number(ZERO_BITS)
    } else {
        ExprView::Sum(terms)
    }
}

/// The sum of the terms divided by their count.
pub open spec fn average(terms: Seq<u64>) -> ExprView {
    ExprView::Binary(
        Operation::Divide,
        Box::new(ExprView::Sum(terms)),
        Box::new(ExprView::Whole(terms.len() as usize)),
    )
}

/// The mean of the terms; zero where there are none.
pub open spec fn mean_of(terms: Seq<u64>) -> ExprView {
    if terms.len() == 0 {
        ExprView::Number(ZERO_BITS)
    } else {
        average(terms)
    }
}

/// The population standard deviation of the terms, as the square root of
/// the mean of their squares less the square of their mean; zero where
/// there are none.
pub open spec fn deviation_of(terms: Seq<u64>) -> ExprView {
    if terms.len() == 0 {
        ExprView::Number(ZERO_BITS)
    } else {
        ExprView::Unary(
            Function::SquareRoot,
            Box::new(
                ExprView::Binary(
                    Operation::Subtract,
                    Box::new(
                        ExprView::Binary(
                            Operation::Divide,
                            Box::new(ExprView::SumOfSquares(terms)),
                            Box::new(ExprView::Whole(terms.len() as usize)),
                        ),
                    ),
                    Box::new(ExprView::Unary(Function::Square, Box::new(average(terms)))),
                ),
            ),
        )
    }
}

/// A copy of the terms.
fn copy_of(terms: &Vec<u64>) -> (copy: Vec<u64>)
    ensures
        copy@ == terms@,
{
    let mut copy: Vec<u64> = Vec::new();
    let mut i: usize = 0;
    while i < terms.len()
        invariant
            i <= terms.len(),
            copy@ == terms@.take(i as int),
        decreases terms.len() - i,
    {
        copy.push(terms[i]);
        proof {
            assert(terms@.take(i + 1) == terms@.take(i as int).push(terms@[i as int]));
        }
        i += 1;
    }
    proof {
        assert(terms@.take(terms.len() as int) == terms@);
    }
    copy
}

impl Clone for Expr {
    /// A copy that models the same expression.
    fn clone(&self) -> (copy: Expr)
        ensures
            copy.deep_view() == self.deep_view(),
        decreases self,
    {
        match self {
            Expr::Number(bits) => Expr::Number(*bits),
            Expr::Whole(count) => Expr::Whole(*count),
            Expr::Sum(terms) => Expr::Sum(copy_of(terms)),
            Expr::SumOfSquares(terms) => Expr::SumOfSquares(copy_of(terms)),
            Expr::Unary(function, of) => {
                let of_copy = (**of).clone();
                Expr::Unary(*function, Box::new(of_copy))
            },
            Expr::Binary(operation, left, right) => {
                let left_copy = (**left).clone();
                let right_copy = (**right).clone();
                Expr::Binary(*operation, Box::new(left_copy), Box::new(right_copy))
            },
        }
    }
}

impl Expr {
    /// One operation on two expressions.
    pub fn binary(operation: Operation, left: Expr, right: Expr) -> (e: Expr)
        ensures
            e.deep_view() == ExprView::Binary(
                operation,
                Box::new(left.deep_view()),
                Box::new(right.deep_view()),
            ),
    {
        Expr::Binary(operation, Box::new(left), Box::new(right))
    }

    /// One function of an expression.
    pub fn unary(function: Function, of: Expr) -> (e: Expr)
        ensures
            e.deep_view() == ExprView::Unary(function, Box::new(of.deep_view())),
    {
        Expr::Unary(function, Box::new(of))
    }

    /// One operation on two given numbers.
    pub fn operation(operation: Operation, a: u64, b: u64) -> (e: Expr)
        ensures
            e.deep_view() == operation_on(operation, a, b),
    {
        Expr::binary(operation, Expr::Number(a), Expr::Number(b))
    }

    /// `value` rounded to `places` decimal places.
    pub fn rounded(value: u64, places: u64) -> (e: Expr)
        ensures
            e.deep_view() == rounded(value, places),
    {
        let scaled = Expr::binary(
            Operation::Multiply,
            Expr::Number(value),
            Expr::operation(Operation::Power, TEN_BITS, places),
        );
        Expr::binary(
            Operation::Divide,
            Expr::unary(Function::Round, scaled),
            Expr::operation(Operation::Power, TEN_BITS, places),
        )
    }

    /// The sum of the terms.
    pub fn total(terms: Vec<u64>) -> (e: Expr)
        ensures
            e.deep_view() == total_of(terms@),
    {
        if terms.len() == 0 {
            Expr::Number(ZERO_BITS)
        } else {
            Expr::Sum(terms)
        }
    }

    fn average(terms: Vec<u64>) -> (e: Expr)
        ensures
            e.deep_view() == average(terms@),
    {
        let count = terms.len();
        Expr::binary(Operation::Divide, Expr::Sum(terms), Expr::Whole(count))
    }

    /// The mean of the terms.
    pub fn mean(terms: Vec<u64>) -> (e: Expr)
        ensures
            e.deep_view() == mean_of(terms@),
    {
        if terms.len() == 0 {
            Expr::Number(ZERO_BITS)
        } else {
            Expr::average(terms)
        }
    }

    /// The population standard deviation of the terms.
    pub fn deviation(terms: Vec<u64>) -> (e: Expr)
        ensures
            e.deep_view() == deviation_of(terms@),
    {
        if terms.len() == 0 {
            Expr::Number(ZERO_BITS)
        } else {
            let count = terms.len();
            let squares = Expr::SumOfSquares(copy_of(&terms));
            let mean = Expr::average(terms);
            Expr::unary(
                Function::SquareRoot,
                Expr::binary(
                    Operation::Subtract,
                    Expr::binary(Operation::Divide, squares, Expr::Whole(count)),
                    Expr::unary(Function::Square, mean),
                ),
            )
        }
    }
}

} // verus!
