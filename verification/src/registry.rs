//! What the operators declare to the rest of the engine: their names, their
//! input and output fields, and how a call reads.

use crate::primitive::Primitive;
use vstd::prelude::*;

verus! {

/// What the registry declares of one operator.
pub struct Declaration {
    /// The token by which queries call the operator.
    pub name: Seq<char>,
    /// The fields that take one value each, in the order of their binding.
    pub scalar_inputs: Seq<Seq<char>>,
    /// The fields that take a column each.
    pub vector_inputs: Seq<Seq<char>>,
    /// The fields of each row that the operator yields.
    pub outputs: Seq<Seq<char>>,
    /// How a call reads, with a question mark for every field.
    pub template: Seq<char>,
}

/// One line of the registry as it is handed out.
pub type Entry = (
    &'static str,
    Vec<&'static str>,
    Vec<&'static str>,
    Vec<&'static str>,
    &'static str,
);

/// The declaration that a line of the registry makes.
pub open spec fn entry_view(entry: Entry) -> Declaration {
    Declaration {
        name: entry.0@,
        scalar_inputs: entry.1.deep_view(),
        vector_inputs: entry.2.deep_view(),
        outputs: entry.3.deep_view(),
        template: entry.4@,
    }
}

/// The operators in the order of the registry.
pub open spec fn listed() -> Seq<Primitive> {
    seq![
        Primitive::LT,
        Primitive::LTE,
        Primitive::NEQ,
        Primitive::EQ,
        Primitive::Add,
        Primitive::Subtract,
        Primitive::Multiply,
        Primitive::Divide,
        Primitive::Remainder,
        Primitive::Round,
        Primitive::Contains,
        Primitive::Split,
        Primitive::Concat,
        Primitive::AsNumber,
        Primitive::AsText,
        Primitive::Count,
        Primitive::Sum,
        Primitive::Mean,
        Primitive::StandardDeviation,
    ]
}

impl Primitive {
    /// The fields that take one value each.
    pub open spec fn scalar_inputs(self) -> Seq<Seq<char>> {
        match self {
            Primitive::Contains => seq!["inner"@, "outer"@],
            Primitive::Split => seq!["delimiter"@, "text"@],
            Primitive::AsNumber | Primitive::AsText => seq!["A"@],
            Primitive::Count
            | Primitive::Sum
            | Primitive::Mean
            | Primitive::StandardDeviation => Seq::empty(),
            _ => seq!["A"@, "B"@],
        }
    }

    /// The fields that take a column each.
    pub open spec fn vector_inputs(self) -> Seq<Seq<char>> {
        match self {
            Primitive::Count
            | Primitive::Sum
            | Primitive::Mean
            | Primitive::StandardDeviation => seq!["A"@],
            _ => Seq::empty(),
        }
    }

    /// The fields of each row that the operator yields.
    pub open spec fn outputs(self) -> Seq<Seq<char>> {
        match self {
            Primitive::LT | Primitive::LTE | Primitive::NEQ => Seq::empty(),
            Primitive::Split => seq!["ix"@, "segment"@],
            _ => seq!["result"@],
        }
    }

    /// How a call reads, with a question mark for every field.
    pub open spec fn template(self) -> Seq<char> {
        match self {
            Primitive::LT => "? < ?"@,
            Primitive::LTE => "? <= ?"@,
            Primitive::NEQ => "? != ?"@,
            Primitive::EQ => "? == ? = ?"@,
            Primitive::Add => "? + ? = ?"@,
            Primitive::Subtract => "? - ? = ?"@,
            Primitive::Multiply => "? * ? = ?"@,
            Primitive::Divide => "? / ? = ?"@,
            Primitive::Remainder => "remainder ? / ? = ?"@,
            Primitive::Round => "round ? to ? places = ?"@,
            Primitive::Contains => "the text ? is contained in ? = ?"@,
            Primitive::Split => "using ? split text ? = index ? and text ?"@,
            Primitive::Concat => "concating ? with ? = ?"@,
            Primitive::AsNumber => "take ? as a number ?"@,
            Primitive::AsText => "take ? as text ?"@,
            Primitive::Count => "count ? = ?"@,
            Primitive::Sum => "sum ? = ?"@,
            Primitive::Mean => "mean ? = ?"@,
            Primitive::StandardDeviation => "standard deviation of ? = ?"@,
        }
    }

    /// What the registry declares of the operator.
    pub open spec fn declaration(self) -> Declaration {
        Declaration {
            name: self.token(),
            scalar_inputs: self.scalar_inputs(),
            vector_inputs: self.vector_inputs(),
            outputs: self.outputs(),
            template: self.template(),
        }
    }

    /// How a call reads, with a question mark for every field.
    pub fn madlib(&self) -> (text: &'static str)
        ensures
            text@ == self.template(),
    {
        match self {
            Primitive::LT => "? < ?",
            Primitive::LTE => "? <= ?",
            Primitive::NEQ => "? != ?",
            Primitive::EQ => "? == ? = ?",
            Primitive::Add => "? + ? = ?",
            Primitive::Subtract => "? - ? = ?",
            Primitive::Multiply => "? * ? = ?",
            Primitive::Divide => "? / ? = ?",
            Primitive::Remainder => "remainder ? / ? = ?",
            Primitive::Round => "round ? to ? places = ?",
            Primitive::Contains => "the text ? is contained in ? = ?",
            Primitive::Split => "using ? split text ? = index ? and text ?",
            Primitive::Concat => "concating ? with ? = ?",
            Primitive::AsNumber => "take ? as a number ?",
            Primitive::AsText => "take ? as text ?",
            Primitive::Count => "count ? = ?",
            Primitive::Sum => "sum ? = ?",
            Primitive::Mean => "mean ? = ?",
            Primitive::StandardDeviation => "standard deviation of ? = ?",
        }
    }

    /// The line of the registry that declares the operator.
    pub fn declare(&self) -> (entry: Entry)
        ensures
            entry_view(entry) == self.declaration(),
    {
        let scalar_inputs = match self {
            Primitive::Contains => two("inner", "outer"),
            Primitive::Split => two("delimiter", "text"),
            Primitive::AsNumber | Primitive::AsText => only("A"),
            Primitive::Count
            | Primitive::Sum
            | Primitive::Mean
            | Primitive::StandardDeviation => none(),
            _ => two("A", "B"),
        };
        let vector_inputs = match self {
            Primitive::Count
            | Primitive::Sum
            | Primitive::Mean
            | Primitive::StandardDeviation => only("A"),
            _ => none(),
        };
        let outputs = match self {
            Primitive::LT | Primitive::LTE | Primitive::NEQ => none(),
            Primitive::Split => two("ix", "segment"),
            _ => only("result"),
        };
        (self.name(), scalar_inputs, vector_inputs, outputs, self.madlib())
    }
}

fn none() -> (names: Vec<&'static str>)
    ensures
        names.deep_view() == Seq::<Seq<char>>::empty(),
{
    let names: Vec<&'static str> = Vec::new();
    proof {
        assert(names.deep_view() == Seq::<Seq<char>>::empty());
    }
    names
}

fn only(a: &'static str) -> (names: Vec<&'static str>)
    ensures
        names.deep_view() == seq![a@],
{
    let mut names: Vec<&'static str> = Vec::new();
    names.push(a);
    proof {
        assert(names.deep_view() == seq![a@]);
    }
    names
}

fn two(a: &'static str, b: &'static str) -> (names: Vec<&'static str>)
    ensures
        names.deep_view() == seq![a@, b@],
{
    let mut names: Vec<&'static str> = Vec::new();
    names.push(a);
    names.push(b);
    proof {
        assert(names.deep_view() == seq![a@, b@]);
    }
    names
}

/// The operators in the order of the registry.
pub fn operators() -> (all: Vec<Primitive>)
    ensures
        all@ == listed(),
{
    let mut all: Vec<Primitive> = Vec::new();
    all.push(Primitive::LT);
    all.push(Primitive::LTE);
    all.push(Primitive::NEQ);
    all.push(Primitive::EQ);
    all.push(Primitive::Add);
    all.push(Primitive::Subtract);
    all.push(Primitive::Multiply);
    all.push(Primitive::Divide);
    all.push(Primitive::Remainder);
    all.push(Primitive::Round);
    all.push(Primitive::Contains);
    all.push(Primitive::Split);
    all.push(Primitive::Concat);
    all.push(Primitive::AsNumber);
    all.push(Primitive::AsText);
    all.push(Primitive::Count);
    all.push(Primitive::Sum);
    all.push(Primitive::Mean);
    all.push(Primitive::StandardDeviation);
    proof {
        assert(all@ == listed());
    }
    all
}

/// The registry: one line for every operator, made of its name, its scalar
/// input fields, its vector input fields, its output fields and its
/// template.
pub fn primitives() -> (table: Vec<Entry>)
    ensures
        table@.len() == listed().len(),
        forall|i: int|
            0 <= i < table@.len() ==> entry_view(#[trigger] table@[i]) == listed()[i].declaration(),
{
    let all = operators();
    let mut table: Vec<Entry> = Vec::new();
    let mut i: usize = 0;
    while i < all.len()
        invariant
            all@ == listed(),
            i <= all.len(),
            table@.len() == i,
            forall|j: int|
                0 <= j < i ==> entry_view(#[trigger] table@[j]) == listed()[j].declaration(),
        decreases all.len() - i,
    {
        table.push(all[i].declare());
        i += 1;
    }
    table
}

/// Every operator stands in the registry, and once.
pub proof fn registry_lists_every_operator(op: Primitive)
    ensures
        exists|i: int| 0 <= i < listed().len() && listed()[i] == op,
        forall|i: int, j: int|
            0 <= i < listed().len() && 0 <= j < listed().len() && listed()[i] == listed()[j] ==> i
                == j,
{
    let at: int = match op {
        Primitive::LT => 0,
        Primitive::LTE => 1,
        Primitive::NEQ => 2,
        Primitive::EQ => 3,
        Primitive::Add => 4,
        Primitive::Subtract => 5,
        Primitive::Multiply => 6,
        Primitive::Divide => 7,
        Primitive::Remainder => 8,
        Primitive::Round => 9,
        Primitive::Contains => 10,
        Primitive::Split => 11,
        Primitive::Concat => 12,
        Primitive::AsNumber => 13,
        Primitive::AsText => 14,
        Primitive::Count => 15,
        Primitive::Sum => 16,
        Primitive::Mean => 17,
        Primitive::StandardDeviation => 18,
    };
    assert(listed()[at] == op);
}

/// The registry and the evaluator agree on every operator: it declares as
/// many input fields as the evaluator takes values, and as many output
/// fields as each row of a result has cells.
pub proof fn declaration_matches_evaluator(op: Primitive)
    ensures
        op.scalar_inputs().len() + op.vector_inputs().len() == op.arity(),
        op.outputs().len() == op.width(),
{
}

/// A token names the operator whose registry line carries it: looking up a
/// declared name gives the operator back, so no two operators share a name.
pub proof fn declared_name_finds_operator(op: Primitive)
    ensures
        Primitive::named(op.declaration().name) == Some(op),
{
    reveal_strlit("<");
    reveal_strlit("<=");
    reveal_strlit("!=");
    reveal_strlit("==");
    reveal_strlit("+");
    reveal_strlit("-");
    reveal_strlit("*");
    reveal_strlit("/");
    reveal_strlit("remainder");
    reveal_strlit("round");
    reveal_strlit("contains");
    reveal_strlit("split");
    reveal_strlit("concat");
    reveal_strlit("as number");
    reveal_strlit("as text");
    reveal_strlit("count");
    reveal_strlit("sum");
    reveal_strlit("mean");
    reveal_strlit("standard deviation");
    assert("<"@.len() == 1 && "<"@[0] == '<');
    assert("<="@.len() == 2 && "<="@[0] == '<');
    assert("!="@.len() == 2 && "!="@[0] == '!');
    assert("=="@.len() == 2 && "=="@[0] == '=');
    assert("+"@.len() == 1 && "+"@[0] == '+');
    assert("-"@.len() == 1 && "-"@[0] == '-');
    assert("*"@.len() == 1 && "*"@[0] == '*');
    assert("/"@.len() == 1 && "/"@[0] == '/');
    assert("remainder"@.len() == 9 && "remainder"@[0] == 'r');
    assert("round"@.len() == 5 && "round"@[0] == 'r');
    assert("contains"@.len() == 8 && "contains"@[0] == 'c');
    assert("split"@.len() == 5 && "split"@[0] == 's');
    assert("concat"@.len() == 6 && "concat"@[0] == 'c');
    assert("as number"@.len() == 9 && "as number"@[0] == 'a');
    assert("as text"@.len() == 7 && "as text"@[0] == 'a');
    assert("count"@.len() == 5 && "count"@[0] == 'c');
    assert("sum"@.len() == 3 && "sum"@[0] == 's');
    assert("mean"@.len() == 4 && "mean"@[0] == 'm');
    assert("standard deviation"@.len() == 18 && "standard deviation"@[0] == 's');
}

} // verus!
