//! The values that operators are applied to: how they render, what numbers
//! they read as, and how they are ordered.

use crate::number::{compare_numbers, mirrored, number_order, number_order_mirrors, Comparison};
use crate::text::{compare_texts, text_order, text_order_mirrors};
use vstd::prelude::*;
use vstd::string::StringExecFns;

verus! {

/// A value bound to an operator's input.
///
/// The host hands over with each value what only floating point can tell of
/// it: with a number its canonical rendering, with a text the number that it
/// reads as, if it reads as one.
#[derive(Debug, PartialEq)]
pub enum Value {
    Bool(bool),
    /// A number, as the bits of its double, and its canonical rendering.
    Float { bits: u64, text: String },
    /// A text, and the bits of the number that it parses as.
    Text { text: String, number: Option<u64> },
    /// Several values grouped under one field.
    Column(Vec<Value>),
}

/// The mathematical model of a [`Value`].
pub enum ValueView {
    Bool(bool),
    Float { bits: u64, text: Seq<char> },
    Text { text: Seq<char>, number: Option<u64> },
    Column(Seq<ValueView>),
}

impl DeepView for Value {
    type V = ValueView;

    open spec fn deep_view(&self) -> ValueView {
        view_of(*self)
    }
}

/// The model of a value.
pub open spec fn view_of(v: Value) -> ValueView
    decreases v,
{
    match v {
        Value::Bool(b) => ValueView::Bool(b),
        Value::Float { bits, text } => ValueView::Float { bits, text: text@ },
        Value::Text { text, number } => ValueView::Text { text: text@, number },
        Value::Column(items) => ValueView::Column(views_of(items@)),
    }
}

/// The models of the values, in their order.
pub open spec fn views_of(items: Seq<Value>) -> Seq<ValueView>
    decreases items,
{
    if items.len() == 0 {
        Seq::empty()
    } else {
        views_of(items.drop_last()).push(view_of(items.last()))
    }
}

/// `views_of` keeps the length and models item by item.
pub proof fn views_of_index(items: Seq<Value>)
    ensures
        views_of(items).len() == items.len(),
        forall|i: int| 0 <= i < items.len() ==> (#[trigger] views_of(items)[i]) == view_of(items[i]),
    decreases items.len(),
{
    if items.len() > 0 {
        views_of_index(items.drop_last());
    }
}

/// The model of a column is the column of its items' models.
pub proof fn column_view(items: Vec<Value>)
    ensures
        Value::Column(items).deep_view() == ValueView::Column(items.deep_view()),
{
    views_of_index(items@);
    assert(views_of(items@) =~= items.deep_view());
}

/// The canonical rendering of a value as text. A column renders as its
/// items' renderings, separated by a comma and a space, in square brackets.
pub open spec fn rendering(v: ValueView) -> Seq<char>
    decreases v,
{
    match v {
        ValueView::Bool(b) => if b {
            "true"@
        } else {
            "false"@
        },
        ValueView::Float { text, .. } => text,
        ValueView::Text { text, .. } => text,
        ValueView::Column(items) => "["@ + joined(items) + "]"@,
    }
}

/// The renderings of the items, separated by a comma and a space.
pub open spec fn joined(items: Seq<ValueView>) -> Seq<char>
    decreases items,
{
    if items.len() == 0 {
        Seq::empty()
    } else if items.len() == 1 {
        rendering(items[0])
    } else {
        joined(items.drop_last()) + ", "@ + rendering(items.last())
    }
}

/// The renderings of the items, separated and in square brackets.
pub open spec fn listing(items: Seq<ValueView>) -> Seq<char> {
    "["@ + joined(items) + "]"@
}

/// The number that a value reads as: a number reads as itself, a text as
/// the number that it parses as; nothing else reads as a number.
pub open spec fn number_of(v: ValueView) -> Option<u64> {
    match v {
        ValueView::Float { bits, .. } => Some(bits),
        ValueView::Text { number, .. } => number,
        _ => None,
    }
}

/// The numbers that a value reads as: those of the items of a column, if
/// every one of them reads as a number.
pub open spec fn numbers_of(v: ValueView) -> Option<Seq<u64>> {
    match v {
        ValueView::Column(items) => if forall|i: int|
            0 <= i < items.len() ==> number_of(#[trigger] items[i]) is Some {
            Some(Seq::new(items.len(), |i: int| number_of(items[i])->0))
        } else {
            None
        },
        _ => None,
    }
}

/// The place of a value's kind among the kinds: truth values come before
/// numbers, numbers before texts, texts before columns.
pub open spec fn kind_rank(v: ValueView) -> int {
    match v {
        ValueView::Bool(_) => 0,
        ValueView::Float { .. } => 1,
        ValueView::Text { .. } => 2,
        ValueView::Column(_) => 3,
    }
}

/// How two values stand to each other. Values of one kind are ordered by
/// what they hold (`false` before `true`, numbers as IEEE 754 orders them,
/// texts by code points, columns item by item); values of two kinds by kind.
pub open spec fn value_order(a: ValueView, b: ValueView) -> Comparison
    decreases a,
{
    match (a, b) {
        (ValueView::Bool(x), ValueView::Bool(y)) => if x == y {
            Comparison::Equal
        } else if y {
            Comparison::Less
        } else {
            Comparison::Greater
        },
        (ValueView::Float { bits: x, .. }, ValueView::Float { bits: y, .. }) => number_order(
            x,
            y,
        ),
        (ValueView::Text { text: x, .. }, ValueView::Text { text: y, .. }) => text_order(x, y),
        (ValueView::Column(x), ValueView::Column(y)) => column_order(x, y),
        _ => if kind_rank(a) < kind_rank(b) {
            Comparison::Less
        } else {
            Comparison::Greater
        },
    }
}

/// The order of two columns: that of the first pair of items that are not
/// equal, and a proper prefix before the longer column.
pub open spec fn column_order(a: Seq<ValueView>, b: Seq<ValueView>) -> Comparison
    decreases a,
{
    if a.len() == 0 && b.len() == 0 {
        Comparison::Equal
    } else if a.len() == 0 {
        Comparison::Less
    } else if b.len() == 0 {
        Comparison::Greater
    } else {
        match value_order(a[0], b[0]) {
            Comparison::Equal => column_order(a.drop_first(), b.drop_first()),
            c => c,
        }
    }
}

/// Swapping two values mirrors their order: where one is less, the other is
/// greater, and equal or unordered values are so from both sides.
pub proof fn value_order_mirrors(a: ValueView, b: ValueView)
    ensures
        value_order(b, a) == mirrored(value_order(a, b)),
    decreases a,
{
    match (a, b) {
        (ValueView::Float { bits: x, .. }, ValueView::Float { bits: y, .. }) => {
            number_order_mirrors(x, y);
        },
        (ValueView::Text { text: x, .. }, ValueView::Text { text: y, .. }) => {
            text_order_mirrors(x, y);
        },
        (ValueView::Column(x), ValueView::Column(y)) => {
            column_order_mirrors(x, y);
        },
        _ => {},
    }
}

/// Swapping two columns mirrors their order.
pub proof fn column_order_mirrors(a: Seq<ValueView>, b: Seq<ValueView>)
    ensures
        column_order(b, a) == mirrored(column_order(a, b)),
    decreases a,
{
    if a.len() > 0 && b.len() > 0 {
        value_order_mirrors(a[0], b[0]);
        column_order_mirrors(a.drop_first(), b.drop_first());
    }
}

/// Joining one more rendering to those of the items before it.
pub proof fn joined_push(items: Seq<ValueView>, next: ValueView)
    ensures
        joined(items.push(next)) == if items.len() == 0 {
            rendering(next)
        } else {
            joined(items) + ", "@ + rendering(next)
        },
{
    let all = items.push(next);
    assert(all.drop_last() == items);
    assert(all.last() == next);
    if items.len() == 0 {
        assert(all[0] == next);
    }
}

impl Clone for Value {
    /// A copy that models the same value.
    fn clone(&self) -> (copy: Value)
        ensures
            copy.deep_view() == self.deep_view(),
        decreases self,
    {
        match self {
            Value::Bool(b) => Value::Bool(*b),
            Value::Float { bits, text } => Value::Float { bits: *bits, text: text.clone() },
            Value::Text { text, number } => Value::Text { text: text.clone(), number: *number },
            Value::Column(items) => {
                let mut copies: Vec<Value> = Vec::new();
                let mut i: usize = 0;
                while i < items.len()
                    invariant
                        i <= items.len(),
                        copies.len() == i,
                        self == Value::Column(*items),
                        forall|j: int|
                            0 <= j < i ==> (#[trigger] copies@[j]).deep_view()
                                == items@[j].deep_view(),
                    decreases items.len() - i,
                {
                    proof {
                        assert(self->Column_0 == *items);
                        assert(decreases_to!(*items => items[i as int]));
                    }
                    copies.push(items[i].clone());
                    i += 1;
                }
                proof {
                    column_view(*items);
                    column_view(copies);
                    assert(copies.deep_view() == items.deep_view());
                }
                Value::Column(copies)
            },
        }
    }
}

impl Value {
    /// Renders the value as text.
    pub fn render(&self) -> (text: String)
        ensures
            text@ == rendering(self.deep_view()),
        decreases self,
    {
        match self {
            Value::Bool(b) => if *b {
                String::from_str("true")
            } else {
                String::from_str("false")
            },
            Value::Float { text, .. } => text.clone(),
            Value::Text { text, .. } => text.clone(),
            Value::Column(items) => {
                let mut out = String::from_str("[");
                let mut i: usize = 0;
                proof {
                    column_view(*items);
                    assert(items.deep_view().take(0) == Seq::<ValueView>::empty());
                    assert(out@ == "["@ + joined(items.deep_view().take(0)));
                }
                while i < items.len()
                    invariant
                        i <= items.len(),
                        out@ == "["@ + joined(items.deep_view().take(i as int)),
                        self == Value::Column(*items),
                    decreases items.len() - i,
                {
                    proof {
                        assert(self->Column_0 == *items);
                        assert(decreases_to!(*items => items[i as int]));
                    }
                    let piece = items[i].render();
                    if i > 0 {
                        out.append(", ");
                    }
                    out.append(piece.as_str());
                    proof {
                        let done = items.deep_view().take(i as int);
                        assert(items.deep_view().take(i + 1) == done.push(
                            items@[i as int].deep_view(),
                        ));
                        joined_push(done, items@[i as int].deep_view());
                        assert(out@ == "["@ + joined(items.deep_view().take(i + 1)));
                    }
                    i += 1;
                }
                proof {
                    assert(items.deep_view().take(items.len() as int) == items.deep_view());
                }
                out.append("]");
                out
            },
        }
    }

    /// The number that the value reads as, if it reads as one.
    pub fn parse_as_number(&self) -> (number: Option<u64>)
        ensures
            number == number_of(self.deep_view()),
    {
        match self {
            Value::Float { bits, .. } => Some(*bits),
            Value::Text { number, .. } => *number,
            _ => None,
        }
    }

    /// The numbers that the items of a column read as, if the value is a
    /// column and every item reads as a number.
    pub fn parse_as_numbers(&self) -> (numbers: Option<Vec<u64>>)
        ensures
            match numbers {
                Some(list) => numbers_of(self.deep_view()) == Some(list@),
                None => numbers_of(self.deep_view()) is None,
            },
    {
        match self {
            Value::Column(items) => {
                proof {
                    column_view(*items);
                }
                let mut list: Vec<u64> = Vec::new();
                let mut i: usize = 0;
                while i < items.len()
                    invariant
                        i <= items.len(),
                        list.len() == i,
                        self.deep_view() == ValueView::Column(items.deep_view()),
                        forall|j: int|
                            0 <= j < i ==> number_of(#[trigger] items.deep_view()[j]) == Some(
                                list@[j],
                            ),
                    decreases items.len() - i,
                {
                    match items[i].parse_as_number() {
                        Some(number) => {
                            list.push(number);
                        },
                        None => {
                            assert(number_of(items.deep_view()[i as int]) is None);
                            return None;
                        },
                    }
                    i += 1;
                }
                proof {
                    assert(list@ == numbers_of(self.deep_view())->0);
                }
                Some(list)
            },
            _ => None,
        }
    }

    /// How the value stands to another.
    pub fn compare(&self, other: &Value) -> (c: Comparison)
        ensures
            c == value_order(self.deep_view(), other.deep_view()),
        decreases self,
    {
        match (self, other) {
            (Value::Bool(x), Value::Bool(y)) => if *x == *y {
                Comparison::Equal
            } else if *y {
                Comparison::Less
            } else {
                Comparison::Greater
            },
            (Value::Float { bits: x, .. }, Value::Float { bits: y, .. }) => compare_numbers(
                *x,
                *y,
            ),
            (Value::Text { text: x, .. }, Value::Text { text: y, .. }) => compare_texts(
                x.as_str(),
                y.as_str(),
            ),
            (Value::Column(x), Value::Column(y)) => {
                proof {
                    column_view(*x);
                    column_view(*y);
                    assert(x.deep_view().skip(0) == x.deep_view());
                    assert(y.deep_view().skip(0) == y.deep_view());
                }
                let mut i: usize = 0;
                while i < x.len() && i < y.len()
                    invariant
                        i <= x.len(),
                        i <= y.len(),
                        self == Value::Column(*x),
                        self.deep_view() == ValueView::Column(x.deep_view()),
                        other.deep_view() == ValueView::Column(y.deep_view()),
                        column_order(x.deep_view(), y.deep_view()) == column_order(
                            x.deep_view().skip(i as int),
                            y.deep_view().skip(i as int),
                        ),
                    decreases x.len() - i,
                {
                    proof {
                        assert(decreases_to!(*x => x[i as int]));
                    }
                    let c = x[i].compare(&y[i]);
                    proof {
                        assert(x.deep_view().skip(i as int).drop_first() == x.deep_view().skip(
                            i + 1,
                        ));
                        assert(y.deep_view().skip(i as int).drop_first() == y.deep_view().skip(
                            i + 1,
                        ));
                    }
                    match c {
                        Comparison::Equal => {},
                        _ => {
                            return c;
                        },
                    }
                    i += 1;
                }
                if i < y.len() {
                    Comparison::Less
                } else if i < x.len() {
                    Comparison::Greater
                } else {
                    Comparison::Equal
                }
            },
            _ => if self.kind() < other.kind() {
                Comparison::Less
            } else {
                Comparison::Greater
            },
        }
    }

    fn kind(&self) -> (rank: u8)
        ensures
            rank == kind_rank(self.deep_view()),
    {
        match self {
            Value::Bool(_) => 0,
            Value::Float { .. } => 1,
            Value::Text { .. } => 2,
            Value::Column(_) => 3,
        }
    }
}

} // verus!
