//! What a row of a result holds.

use crate::formula::{Expr, ExprView};
use vstd::prelude::*;

verus! {

/// One field of an output row.
#[derive(Debug, PartialEq)]
pub enum Cell {
    Bool(bool),
    Text(String),
    /// A number, as the arithmetic that yields it.
    Number(Expr),
}

/// The mathematical model of a [`Cell`].
pub enum CellView {
    Bool(bool),
    Text(Seq<char>),
    Number(ExprView),
}

impl DeepView for Cell {
    type V = CellView;

    open spec fn deep_view(&self) -> CellView {
        match self {
            Cell::Bool(b) => CellView::Bool(*b),
            Cell::Text(text) => CellView::Text(text@),
            Cell::Number(e) => CellView::Number(e.deep_view()),
        }
    }
}

impl Clone for Cell {
    /// A copy that models the same cell.
    fn clone(&self) -> (copy: Cell)
        ensures
            copy.deep_view() == self.deep_view(),
    {
        match self {
            Cell::Bool(b) => Cell::Bool(*b),
            Cell::Text(text) => Cell::Text(text.clone()),
            Cell::Number(e) => Cell::Number(e.clone()),
        }
    }
}

/// The result that is one row of one cell.
pub fn single(cell: Cell) -> (rows: Vec<Vec<Cell>>)
    ensures
        rows.deep_view() == seq![seq![cell.deep_view()]],
{
    let mut row: Vec<Cell> = Vec::new();
    row.push(cell);
    let mut rows: Vec<Vec<Cell>> = Vec::new();
    proof {
        assert(row.deep_view() == seq![cell.deep_view()]);
    }
    rows.push(row);
    proof {
        assert(rows.deep_view() == seq![row.deep_view()]);
    }
    rows
}

/// The result that is one row without cells.
pub fn bare_row() -> (rows: Vec<Vec<Cell>>)
    ensures
        rows.deep_view() == seq![Seq::<CellView>::empty()],
{
    let row: Vec<Cell> = Vec::new();
    let mut rows: Vec<Vec<Cell>> = Vec::new();
    proof {
        assert(row.deep_view() == Seq::<CellView>::empty());
    }
    rows.push(row);
    proof {
        assert(rows.deep_view() == seq![row.deep_view()]);
    }
    rows
}

/// The result without rows.
pub fn no_rows() -> (rows: Vec<Vec<Cell>>)
    ensures
        rows@.len() == 0,
        rows.deep_view() == Seq::<Seq<CellView>>::empty(),
{
    let rows: Vec<Vec<Cell>> = Vec::new();
    proof {
        assert(rows.deep_view() == Seq::<Seq<CellView>>::empty());
    }
    rows
}

} // verus!
