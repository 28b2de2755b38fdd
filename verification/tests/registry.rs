use primitive::cell::Cell;
use primitive::primitive::Primitive;
use primitive::registry::{operators, primitives};
use primitive::value::Value;

const TOKENS: [(&str, Primitive); 19] = [
    ("<", Primitive::LT),
    ("<=", Primitive::LTE),
    ("!=", Primitive::NEQ),
    ("==", Primitive::EQ),
    ("+", Primitive::Add),
    ("-", Primitive::Subtract),
    ("*", Primitive::Multiply),
    ("/", Primitive::Divide),
    ("remainder", Primitive::Remainder),
    ("round", Primitive::Round),
    ("contains", Primitive::Contains),
    ("split", Primitive::Split),
    ("concat", Primitive::Concat),
    ("as number", Primitive::AsNumber),
    ("as text", Primitive::AsText),
    ("count", Primitive::Count),
    ("sum", Primitive::Sum),
    ("mean", Primitive::Mean),
    ("standard deviation", Primitive::StandardDeviation),
];

#[test]
fn tokens_name_the_operators() {
    for (token, op) in TOKENS {
        assert_eq!(Primitive::from_str(token), op);
        assert_eq!(Primitive::lookup(token), Some(op));
        assert_eq!(op.name(), token);
    }
}

#[test]
fn unknown_tokens_name_nothing() {
    for token in ["", "<<", "=", "Add", "add", "sum ", " sum", "standard  deviation", "as  text", "÷"] {
        assert_eq!(Primitive::lookup(token), None);
    }
}

#[test]
fn labels_are_the_variants_as_written() {
    for (_, op) in TOKENS {
        assert_eq!(op.label_text(), format!("{:?}", op));
    }
}

#[test]
fn registry_holds_every_operator_in_order() {
    let table = primitives();
    assert_eq!(table.len(), 19);
    let all = operators();
    assert_eq!(all.len(), 19);
    for i in 0..19 {
        assert_eq!(table[i].0, TOKENS[i].0);
        assert_eq!(all[i], TOKENS[i].1);
        assert_eq!(table[i], all[i].declare());
        assert_eq!(table[i].4, all[i].madlib());
    }
}

#[test]
fn registry_lines_read_as_declared() {
    let table = primitives();
    assert_eq!(table[0], ("<", vec!["A", "B"], vec![], vec![], "? < ?"));
    assert_eq!(table[1], ("<=", vec!["A", "B"], vec![], vec![], "? <= ?"));
    assert_eq!(table[2], ("!=", vec!["A", "B"], vec![], vec![], "? != ?"));
    assert_eq!(table[3], ("==", vec!["A", "B"], vec![], vec!["result"], "? == ? = ?"));
    assert_eq!(table[4], ("+", vec!["A", "B"], vec![], vec!["result"], "? + ? = ?"));
    assert_eq!(table[5], ("-", vec!["A", "B"], vec![], vec!["result"], "? - ? = ?"));
    assert_eq!(table[6], ("*", vec!["A", "B"], vec![], vec!["result"], "? * ? = ?"));
    assert_eq!(table[7], ("/", vec!["A", "B"], vec![], vec!["result"], "? / ? = ?"));
    assert_eq!(
        table[8],
        ("remainder", vec!["A", "B"], vec![], vec!["result"], "remainder ? / ? = ?")
    );
    assert_eq!(
        table[9],
        ("round", vec!["A", "B"], vec![], vec!["result"], "round ? to ? places = ?")
    );
    assert_eq!(
        table[10],
        (
            "contains",
            vec!["inner", "outer"],
            vec![],
            vec!["result"],
            "the text ? is contained in ? = ?"
        )
    );
    assert_eq!(
        table[11],
        (
            "split",
            vec!["delimiter", "text"],
            vec![],
            vec!["ix", "segment"],
            "using ? split text ? = index ? and text ?"
        )
    );
    assert_eq!(
        table[12],
        ("concat", vec!["A", "B"], vec![], vec!["result"], "concating ? with ? = ?")
    );
    assert_eq!(
        table[13],
        ("as number", vec!["A"], vec![], vec!["result"], "take ? as a number ?")
    );
    assert_eq!(table[14], ("as text", vec!["A"], vec![], vec!["result"], "take ? as text ?"));
    assert_eq!(table[15], ("count", vec![], vec!["A"], vec!["result"], "count ? = ?"));
    assert_eq!(table[16], ("sum", vec![], vec!["A"], vec!["result"], "sum ? = ?"));
    assert_eq!(table[17], ("mean", vec![], vec!["A"], vec!["result"], "mean ? = ?"));
    assert_eq!(
        table[18],
        (
            "standard deviation",
            vec![],
            vec!["A"],
            vec!["result"],
            "standard deviation of ? = ?"
        )
    );
}

fn sample(vector: bool) -> Value {
    if vector {
        Value::Column(vec![Value::Float { bits: 1f64.to_bits(), text: "1".to_string() }])
    } else {
        Value::Float { bits: 2f64.to_bits(), text: "2".to_string() }
    }
}

#[test]
fn registry_matches_the_evaluator() {
    for (name, scalars, vectors, outputs, template) in primitives() {
        let op = Primitive::from_str(name);
        let declared = scalars.len() + vectors.len();
        assert_eq!(op.operands(), declared);
        let fields = template.chars().filter(|c| *c == '?').count();
        assert_eq!(fields, declared + outputs.len());
        let mut inputs: Vec<&str> = scalars.clone();
        inputs.extend(vectors.iter());
        let mut sorted = inputs.clone();
        sorted.sort();
        sorted.dedup();
        assert_eq!(inputs, sorted);
        for given in 0..4 {
            let values: Vec<Value> = (0..given).map(|_| sample(!vectors.is_empty())).collect();
            let bindings: Vec<(usize, usize)> = (0..given).map(|i| (i, i)).collect();
            let mut errors: Vec<Vec<Cell>> = Vec::new();
            let rows = op.eval(&bindings, &values, "registry", &mut errors);
            if given == declared {
                assert!(errors.is_empty());
                assert_eq!(rows.is_empty(), outputs.is_empty() && name != "<=");
                for row in rows.iter() {
                    assert_eq!(row.len(), outputs.len());
                }
            } else {
                assert!(rows.is_empty());
                assert_eq!(errors.len(), 1);
            }
        }
    }
}
