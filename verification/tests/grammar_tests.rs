use my_sql_parser::Grammar;
use my_sql_parser::Rule;

#[test]
fn test_ident() {
    let pair = Grammar::parse(Rule::Ident, "username")
        .expect("parsing failed")
        .next()
        .expect("no pair");

    assert_eq!(pair.as_str(), "username");
}

#[test]
fn test_mini_select() {
    let sql = "SELECT name FROM users;";
    let pair = Grammar::parse(Rule::Query, sql)
        .expect("parsing failed")
        .next()
        .expect("no pair");
    assert_eq!(pair.as_str(), sql);
    assert_eq!(pair.as_span().start(), 0);
    assert_eq!(pair.as_span().end(), sql.len());
}

#[test]
fn test_full_select() {
    let sql = "SELECT name FROM users WHERE age >= 18 AND name != 'John' ORDER BY age DESC;";
    let pair = Grammar::parse(Rule::Query, sql)
        .expect("parsing failed")
        .next()
        .expect("no pair");
    assert_eq!(pair.as_str(), sql);
    assert_eq!(pair.as_span().start(), 0);
    assert_eq!(pair.as_span().end(), sql.len());
}

#[test]
fn test_full_insert() {
    let sql = "INSERT INTO users(name, age) VALUES('Bob', 18);";
    let pair = Grammar::parse(Rule::Insert, sql)
        .expect("parsing failed")
        .next()
        .expect("no pair");
    assert_eq!(pair.as_str(), sql);
    assert_eq!(pair.as_span().start(), 0);
    assert_eq!(pair.as_span().end(), sql.len());
}
