use my_sql_parser::Grammar;
use my_sql_parser::Rule;

fn span_of(rule: Rule, input: &str) -> (usize, usize) {
    let pair = Grammar::parse(rule, input)
        .expect("parsing failed")
        .next()
        .expect("no pair");
    (pair.as_span().start(), pair.as_span().end())
}

#[test]
fn test_number() {
    let pair = Grammar::parse(Rule::Number, "42")
        .expect("parsing failed")
        .next()
        .expect("no pair");
    assert_eq!(pair.as_str(), "42");
}

#[test]
fn test_number_incorrect_letters() {
    assert!(Grammar::parse(Rule::Number, "abc").is_err());
}

#[test]
fn test_string() {
    let pair = Grammar::parse(Rule::StringLiteral, "'Hello'")
        .expect("parsing failed")
        .next()
        .expect("no pair");
    assert_eq!(pair.as_str(), "'Hello'");
}

#[test]
fn test_string_incorrect_unclosed() {
    assert!(Grammar::parse(Rule::StringLiteral, "'Hello").is_err());
}

#[test]
fn test_comparison_operator() {
    let operators = [">=", "<=", "!=", "=", "<", ">"];
    for op in operators {
        let pair = Grammar::parse(Rule::ComparisonOperator, op)
            .expect("parsing failed")
            .next()
            .expect("no pair");
        assert_eq!(pair.as_str(), op);
    }
}

#[test]
fn test_comparison_operator_greedy() {
    // ">=" is one token: the span covers both characters, not just ">".
    assert_eq!(span_of(Rule::ComparisonOperator, ">="), (0, 2));
    assert_eq!(span_of(Rule::ComparisonOperator, ">= 18"), (0, 2));
    assert_eq!(span_of(Rule::ComparisonOperator, "<="), (0, 2));
    assert_eq!(span_of(Rule::ComparisonOperator, "!="), (0, 2));
    // A bare ">" not followed by "=" is the one-character operator.
    assert_eq!(span_of(Rule::ComparisonOperator, "> 18"), (0, 1));
}

#[test]
fn test_condition() {
    let pair = Grammar::parse(Rule::Condition, "age >= 18")
        .expect("parsing failed")
        .next()
        .expect("no pair");
    assert_eq!(pair.as_str(), "age >= 18");

    let pair2 = Grammar::parse(Rule::Condition, "name != 'John'")
        .expect("parsing failed")
        .next()
        .expect("no pair");
    assert_eq!(pair2.as_str(), "name != 'John'");
}

#[test]
fn test_condition_incorrect_missing_value() {
    assert!(Grammar::parse(Rule::Condition, "age >").is_err());
}

#[test]
fn test_condition_children() {
    let pair = Grammar::parse(Rule::Condition, "age >= 18")
        .expect("parsing failed")
        .next()
        .expect("no pair");
    let kinds: Vec<(Rule, usize, usize)> = pair
        .children
        .iter()
        .map(|sp| (sp.rule, sp.start, sp.end))
        .collect();
    assert_eq!(
        kinds,
        vec![
            (Rule::Ident, 0, 3),
            (Rule::ComparisonOperator, 4, 6),
            (Rule::Number, 7, 9),
        ]
    );
}

#[test]
fn test_multiple_conditions() {
    let sql = "age > 18 AND name != 'John'";
    let pair = Grammar::parse(Rule::MultipleConditions, sql)
        .expect("parsing failed")
        .next()
        .expect("no pair");
    assert_eq!(pair.as_str(), sql);
    // Two condition children, ordered and non-overlapping.
    assert_eq!(pair.children.len(), 2);
    assert_eq!(pair.children[0].rule, Rule::Condition);
    assert_eq!(pair.children[1].rule, Rule::Condition);
    assert_eq!((pair.children[0].start, pair.children[0].end), (0, 8));
    assert_eq!((pair.children[1].start, pair.children[1].end), (13, 27));
}

#[test]
fn test_multiple_conditions_incorrect_missing_operator() {
    assert!(Grammar::parse(Rule::MultipleConditions, "AND age > 18").is_err());
}

#[test]
fn test_order_by() {
    let pair = Grammar::parse(Rule::OrderBy, "ORDER BY age DESC")
        .expect("parsing failed")
        .next()
        .expect("no pair");
    assert_eq!(pair.as_str(), "ORDER BY age DESC");

    let pair2 = Grammar::parse(Rule::OrderBy, "ORDER BY name ASC")
        .expect("parsing failed")
        .next()
        .expect("no pair");
    assert_eq!(pair2.as_str(), "ORDER BY name ASC");
}

#[test]
fn test_order_by_incorrect_missing_column() {
    assert!(Grammar::parse(Rule::OrderBy, "ORDER BY").is_err());
}

#[test]
fn test_insert_incorrect_missing_values() {
    // A well-formed column list does not save a statement without VALUES(...).
    assert!(Grammar::parse(Rule::Insert, "INSERT INTO users(name, age);").is_err());
}

#[test]
fn test_insert_incorrect_empty_columns() {
    assert!(Grammar::parse(Rule::Insert, "INSERT INTO users() VALUES('Bob');").is_err());
}

#[test]
fn test_insert_incorrect_empty_values() {
    assert!(Grammar::parse(Rule::Insert, "INSERT INTO users(name) VALUES();").is_err());
}

#[test]
fn test_insert_children() {
    let sql = "INSERT INTO users(name, age) VALUES('Bob', 18);";
    let pair = Grammar::parse(Rule::Insert, sql)
        .expect("parsing failed")
        .next()
        .expect("no pair");
    let kinds: Vec<(Rule, usize, usize)> = pair
        .children
        .iter()
        .map(|sp| (sp.rule, sp.start, sp.end))
        .collect();
    assert_eq!(
        kinds,
        vec![
            (Rule::Ident, 12, 17),          // users
            (Rule::Ident, 18, 22),          // name
            (Rule::Ident, 24, 27),          // age
            (Rule::StringLiteral, 36, 41),  // 'Bob'
            (Rule::Number, 43, 45),         // 18
        ]
    );
}

#[test]
fn test_query_incorrect_empty() {
    assert!(Grammar::parse(Rule::Query, "").is_err());
}

#[test]
fn test_query_incorrect_missing_ident() {
    assert!(Grammar::parse(Rule::Query, "SELECT;").is_err());
}

#[test]
fn test_empty_fails_every_rule() {
    for rule in [
        Rule::Query,
        Rule::Insert,
        Rule::Condition,
        Rule::MultipleConditions,
        Rule::OrderBy,
    ] {
        assert!(Grammar::parse(rule, "").is_err());
    }
    assert!(Grammar::dispatch("").is_err());
}

#[test]
fn test_query_children() {
    let sql = "SELECT name FROM users WHERE age >= 18 ORDER BY age DESC;";
    let pair = Grammar::parse(Rule::Query, sql)
        .expect("parsing failed")
        .next()
        .expect("no pair");
    let kinds: Vec<(Rule, usize, usize)> = pair
        .children
        .iter()
        .map(|sp| (sp.rule, sp.start, sp.end))
        .collect();
    assert_eq!(
        kinds,
        vec![
            (Rule::Ident, 7, 11),                // name
            (Rule::Ident, 17, 22),               // users
            (Rule::MultipleConditions, 29, 38),  // age >= 18
            (Rule::OrderBy, 39, 56),             // ORDER BY age DESC
        ]
    );
}

#[test]
fn test_dispatch_priority_and_fragments() {
    // A full statement dispatches as a query.
    let pair = Grammar::dispatch("SELECT name FROM users;")
        .expect("parsing failed")
        .next()
        .expect("no pair");
    assert_eq!(pair.as_rule(), Rule::Query);

    // A bare fragment is accepted under the first fragment rule that matches.
    let pair2 = Grammar::dispatch("age >= 18")
        .expect("parsing failed")
        .next()
        .expect("no pair");
    assert_eq!(pair2.as_rule(), Rule::Condition);

    let pair3 = Grammar::dispatch("ORDER BY age")
        .expect("parsing failed")
        .next()
        .expect("no pair");
    assert_eq!(pair3.as_rule(), Rule::OrderBy);

    // Input no rule matches is reported as unparseable.
    assert!(Grammar::dispatch("???").is_err());
}
