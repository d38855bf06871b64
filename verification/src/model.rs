//! Mathematical model of the grammar.
//!
//! Each grammar rule is modelled by a spec function that, given the input as a
//! sequence of characters and a starting position, returns the position just
//! past the text the rule matches there, or `None` when the rule does not
//! match.  The functions follow ordered-choice semantics: alternatives are
//! tried in a fixed order and the first success wins, repetitions are greedy,
//! and a failed alternative leaves the position unchanged.
use vstd::prelude::*;

use crate::Rule;

verus! {

/// Character classes used by the lexical rules.
#[derive(Clone, Copy)]
pub enum CharClass {
    /// Letters, decimal digits and `_`: the characters an identifier is made of.
    Word,
    /// Decimal digits.
    Digit,
    /// Space and horizontal tab.
    Blank,
}

pub open spec fn is_word_char(c: char) -> bool {
    (97 <= c as u32 && c as u32 <= 122)  // 'a'..='z'
    || (65 <= c as u32 && c as u32 <= 90)  // 'A'..='Z'
    || (48 <= c as u32 && c as u32 <= 57)  // '0'..='9'
    || c as u32 == 95  // '_'
}

pub open spec fn is_digit_char(c: char) -> bool {
    48 <= c as u32 && c as u32 <= 57
}

pub open spec fn is_blank_char(c: char) -> bool {
    c as u32 == 32 || c as u32 == 9
}

pub open spec fn class_holds(cc: CharClass, c: char) -> bool {
    match cc {
        CharClass::Word => is_word_char(c),
        CharClass::Digit => is_digit_char(c),
        CharClass::Blank => is_blank_char(c),
    }
}

/// Position just past the longest run of characters of class `cc` starting at `pos`.
pub open spec fn run_end(s: Seq<char>, pos: int, cc: CharClass) -> int
    decreases s.len() - pos,
{
    if 0 <= pos && pos < s.len() && class_holds(cc, s[pos]) {
        run_end(s, pos + 1, cc)
    } else {
        pos
    }
}

/// A run never moves backwards and never runs past the end of the input.
pub proof fn lemma_run_end_bounds(s: Seq<char>, pos: int, cc: CharClass)
    requires
        0 <= pos <= s.len(),
    ensures
        pos <= run_end(s, pos, cc) <= s.len(),
    decreases s.len() - pos,
{
    if pos < s.len() && class_holds(cc, s[pos]) {
        lemma_run_end_bounds(s, pos + 1, cc);
    }
}

/// `ident`: one or more word characters, matched greedily.
pub open spec fn ident_end(s: Seq<char>, pos: int) -> Option<int> {
    if 0 <= pos && pos < s.len() && is_word_char(s[pos]) {
        Some(run_end(s, pos, CharClass::Word))
    } else {
        None
    }
}

/// `number`: one or more decimal digits, matched greedily.
pub open spec fn number_end(s: Seq<char>, pos: int) -> Option<int> {
    if 0 <= pos && pos < s.len() && is_digit_char(s[pos]) {
        Some(run_end(s, pos, CharClass::Digit))
    } else {
        None
    }
}

/// Mandatory whitespace: one or more blanks, matched greedily.
pub open spec fn blanks_end(s: Seq<char>, pos: int) -> Option<int> {
    if 0 <= pos && pos < s.len() && is_blank_char(s[pos]) {
        Some(run_end(s, pos, CharClass::Blank))
    } else {
        None
    }
}

/// Optional whitespace: like `blanks_end` but never fails.
pub open spec fn opt_blanks_end(s: Seq<char>, pos: int) -> int {
    match blanks_end(s, pos) {
        Some(e) => e,
        None => pos,
    }
}

/// Position just past the closing quote, scanning from `pos` (the first
/// position after the opening quote).
pub open spec fn close_quote_end(s: Seq<char>, pos: int) -> Option<int>
    decreases s.len() - pos,
{
    if 0 <= pos && pos < s.len() {
        if s[pos] as u32 == 39 {  // '\''
            Some(pos + 1)
        } else {
            close_quote_end(s, pos + 1)
        }
    } else {
        None
    }
}

/// `string`: a `'`-delimited literal; an unterminated literal does not match.
pub open spec fn string_end(s: Seq<char>, pos: int) -> Option<int> {
    if 0 <= pos && pos < s.len() && s[pos] as u32 == 39 {
        close_quote_end(s, pos + 1)
    } else {
        None
    }
}

/// `comparison_operator`: ordered choice `>=` | `<=` | `!=` | `=` | `<` | `>`.
/// The two-character operators come first, so `>=` is one token.
pub open spec fn operator_end(s: Seq<char>, pos: int) -> Option<int> {
    if 0 <= pos && pos + 2 <= s.len() && (s[pos] == '>' || s[pos] == '<' || s[pos] == '!')
        && s[pos + 1] == '=' {
        Some(pos + 2)
    } else if 0 <= pos && pos < s.len() && (s[pos] == '=' || s[pos] == '<' || s[pos] == '>') {
        Some(pos + 1)
    } else {
        None
    }
}

/// The literal `lit` occurs in `s` at position `pos`.
pub open spec fn lit_at(s: Seq<char>, pos: int, lit: Seq<char>) -> bool {
    0 <= pos && pos + lit.len() <= s.len() && s.subrange(pos, pos + lit.len()) == lit
}

pub open spec fn lit_end(s: Seq<char>, pos: int, lit: Seq<char>) -> Option<int> {
    if lit_at(s, pos, lit) {
        Some(pos + lit.len())
    } else {
        None
    }
}

/// A value: a `number` or a `string`, tried in that order.
pub open spec fn value_end(s: Seq<char>, pos: int) -> Option<int> {
    match number_end(s, pos) {
        Some(e) => Some(e),
        None => string_end(s, pos),
    }
}

/// `condition`: `ident`, whitespace, `comparison_operator`, whitespace, value.
pub open spec fn condition_end(s: Seq<char>, pos: int) -> Option<int> {
    match ident_end(s, pos) {
        None => None,
        Some(p1) => match blanks_end(s, p1) {
            None => None,
            Some(p2) => match operator_end(s, p2) {
                None => None,
                Some(p3) => match blanks_end(s, p3) {
                    None => None,
                    Some(p4) => value_end(s, p4),
                },
            },
        },
    }
}

/// One repetition step of `multiple_conditions`: whitespace, `AND`, whitespace, `condition`.
pub open spec fn and_condition_end(s: Seq<char>, pos: int) -> Option<int> {
    match blanks_end(s, pos) {
        None => None,
        Some(p1) => match lit_end(s, p1, "AND"@) {
            None => None,
            Some(p2) => match blanks_end(s, p2) {
                None => None,
                Some(p3) => condition_end(s, p3),
            },
        },
    }
}

/// Greedy repetition of `and_condition`; stops at the first step that fails.
pub open spec fn conditions_tail_end(s: Seq<char>, pos: int) -> int
    decreases s.len() - pos,
{
    match and_condition_end(s, pos) {
        Some(e) => if pos < e && e <= s.len() {
            conditions_tail_end(s, e)
        } else {
            e
        },
        None => pos,
    }
}

/// `multiple_conditions`: one `condition`, then zero or more `AND condition` steps.
pub open spec fn multiple_conditions_end(s: Seq<char>, pos: int) -> Option<int> {
    match condition_end(s, pos) {
        Some(e) => Some(conditions_tail_end(s, e)),
        None => None,
    }
}

/// Optional sort direction: whitespace then `ASC` or `DESC`; never fails.
pub open spec fn opt_direction_end(s: Seq<char>, pos: int) -> int {
    match blanks_end(s, pos) {
        Some(p1) => match lit_end(s, p1, "ASC"@) {
            Some(e) => e,
            None => match lit_end(s, p1, "DESC"@) {
                Some(e) => e,
                None => pos,
            },
        },
        None => pos,
    }
}

/// `order_by`: `ORDER BY`, whitespace, `ident` (the sort column), optional direction.
pub open spec fn order_by_end(s: Seq<char>, pos: int) -> Option<int> {
    match lit_end(s, pos, "ORDER BY"@) {
        None => None,
        Some(p1) => match blanks_end(s, p1) {
            None => None,
            Some(p2) => match ident_end(s, p2) {
                None => None,
                Some(p3) => Some(opt_direction_end(s, p3)),
            },
        },
    }
}

/// Optional `WHERE` clause of a query: whitespace, `WHERE`, whitespace,
/// `multiple_conditions`; never fails.
pub open spec fn opt_where_end(s: Seq<char>, pos: int) -> int {
    match blanks_end(s, pos) {
        None => pos,
        Some(p1) => match lit_end(s, p1, "WHERE"@) {
            None => pos,
            Some(p2) => match blanks_end(s, p2) {
                None => pos,
                Some(p3) => match multiple_conditions_end(s, p3) {
                    Some(e) => e,
                    None => pos,
                },
            },
        },
    }
}

/// Optional `ORDER BY` clause of a query: whitespace then `order_by`; never fails.
pub open spec fn opt_order_by_end(s: Seq<char>, pos: int) -> int {
    match blanks_end(s, pos) {
        None => pos,
        Some(p1) => match order_by_end(s, p1) {
            Some(e) => e,
            None => pos,
        },
    }
}

/// `query`: `SELECT`, column, `FROM`, table, optional `WHERE` clause,
/// optional `ORDER BY` clause, `;`.
pub open spec fn query_end(s: Seq<char>, pos: int) -> Option<int> {
    match lit_end(s, pos, "SELECT"@) {
        None => None,
        Some(p1) => match blanks_end(s, p1) {
            None => None,
            Some(p2) => match ident_end(s, p2) {
                None => None,
                Some(p3) => match blanks_end(s, p3) {
                    None => None,
                    Some(p4) => match lit_end(s, p4, "FROM"@) {
                        None => None,
                        Some(p5) => match blanks_end(s, p5) {
                            None => None,
                            Some(p6) => match ident_end(s, p6) {
                                None => None,
                                Some(p7) => {
                                    let p8: int = opt_where_end(s, p7);
                                    let p9: int = opt_order_by_end(s, p8);
                                    lit_end(s, p9, ";"@)
                                },
                            },
                        },
                    },
                },
            },
        },
    }
}

/// One repetition step of a comma-separated list of identifiers:
/// `,`, optional whitespace, `ident`.
pub open spec fn comma_ident_end(s: Seq<char>, pos: int) -> Option<int> {
    match lit_end(s, pos, ","@) {
        None => None,
        Some(p1) => ident_end(s, opt_blanks_end(s, p1)),
    }
}

pub open spec fn ident_list_tail_end(s: Seq<char>, pos: int) -> int
    decreases s.len() - pos,
{
    match comma_ident_end(s, pos) {
        Some(e) => if pos < e && e <= s.len() {
            ident_list_tail_end(s, e)
        } else {
            e
        },
        None => pos,
    }
}

/// A non-empty comma-separated list of identifiers (the column list).
pub open spec fn ident_list_end(s: Seq<char>, pos: int) -> Option<int> {
    match ident_end(s, pos) {
        Some(e) => Some(ident_list_tail_end(s, e)),
        None => None,
    }
}

/// One repetition step of a comma-separated list of values.
pub open spec fn comma_value_end(s: Seq<char>, pos: int) -> Option<int> {
    match lit_end(s, pos, ","@) {
        None => None,
        Some(p1) => value_end(s, opt_blanks_end(s, p1)),
    }
}

pub open spec fn value_list_tail_end(s: Seq<char>, pos: int) -> int
    decreases s.len() - pos,
{
    match comma_value_end(s, pos) {
        Some(e) => if pos < e && e <= s.len() {
            value_list_tail_end(s, e)
        } else {
            e
        },
        None => pos,
    }
}

/// A non-empty comma-separated list of values (the value list).
pub open spec fn value_list_end(s: Seq<char>, pos: int) -> Option<int> {
    match value_end(s, pos) {
        Some(e) => Some(value_list_tail_end(s, e)),
        None => None,
    }
}

/// `insert`: `INSERT INTO`, table, `(` column list `)`, `VALUES`,
/// `(` value list `)`, `;`.
pub open spec fn insert_end(s: Seq<char>, pos: int) -> Option<int> {
    match lit_end(s, pos, "INSERT INTO"@) {
        None => None,
        Some(p1) => match blanks_end(s, p1) {
            None => None,
            Some(p2) => match ident_end(s, p2) {
                None => None,
                Some(p3) => match lit_end(s, p3, "("@) {
                    None => None,
                    Some(p4) => match ident_list_end(s, p4) {
                        None => None,
                        Some(p5) => match lit_end(s, p5, ")"@) {
                            None => None,
                            Some(p6) => match blanks_end(s, p6) {
                                None => None,
                                Some(p7) => match lit_end(s, p7, "VALUES("@) {
                                    None => None,
                                    Some(p8) => match value_list_end(s, p8) {
                                        None => None,
                                        Some(p9) => match lit_end(s, p9, ")"@) {
                                            None => None,
                                            Some(p10) => lit_end(s, p10, ";"@),
                                        },
                                    },
                                },
                            },
                        },
                    },
                },
            },
        },
    }
}

/// Bounds of the positions the rules return: a successful match never moves
/// backwards (for most rules it consumes at least one character) and never
/// runs past the end of the input, and the optional parts never fail.  These
/// lemmas let proofs walk the rule definitions position by position.
pub proof fn lemma_ident_bounds(s: Seq<char>, pos: int)
    requires
        0 <= pos <= s.len(),
    ensures
        ident_end(s, pos) matches Some(e) ==> pos < e <= s.len(),
{
    if pos < s.len() && is_word_char(s[pos]) {
        lemma_run_end_bounds(s, pos + 1, CharClass::Word);
    }
}

pub proof fn lemma_number_bounds(s: Seq<char>, pos: int)
    requires
        0 <= pos <= s.len(),
    ensures
        number_end(s, pos) matches Some(e) ==> pos < e <= s.len(),
{
    if pos < s.len() && is_digit_char(s[pos]) {
        lemma_run_end_bounds(s, pos + 1, CharClass::Digit);
    }
}

pub proof fn lemma_blanks_bounds(s: Seq<char>, pos: int)
    requires
        0 <= pos <= s.len(),
    ensures
        blanks_end(s, pos) matches Some(e) ==> pos < e <= s.len(),
        pos <= opt_blanks_end(s, pos) <= s.len(),
{
    if pos < s.len() && is_blank_char(s[pos]) {
        lemma_run_end_bounds(s, pos + 1, CharClass::Blank);
    }
}

pub proof fn lemma_close_quote_bounds(s: Seq<char>, pos: int)
    requires
        0 <= pos <= s.len(),
    ensures
        close_quote_end(s, pos) matches Some(e) ==> pos < e <= s.len(),
    decreases s.len() - pos,
{
    if pos < s.len() && !(s[pos] as u32 == 39) {
        lemma_close_quote_bounds(s, pos + 1);
    }
}

pub proof fn lemma_value_bounds(s: Seq<char>, pos: int)
    requires
        0 <= pos <= s.len(),
    ensures
        value_end(s, pos) matches Some(e) ==> pos < e <= s.len(),
{
    lemma_number_bounds(s, pos);
    if pos < s.len() {
        lemma_close_quote_bounds(s, pos + 1);
    }
}

pub proof fn lemma_lit_bounds(s: Seq<char>, pos: int, lit: Seq<char>)
    ensures
        lit_end(s, pos, lit) matches Some(e) ==> pos <= e <= s.len(),
{
}

pub proof fn lemma_condition_bounds(s: Seq<char>, pos: int)
    requires
        0 <= pos <= s.len(),
    ensures
        condition_end(s, pos) matches Some(e) ==> pos < e <= s.len(),
{
    lemma_ident_bounds(s, pos);
    if ident_end(s, pos) is Some {
        let p1: int = ident_end(s, pos)->0;
        lemma_blanks_bounds(s, p1);
        if blanks_end(s, p1) is Some {
            let p2: int = blanks_end(s, p1)->0;
            if operator_end(s, p2) is Some {
                let p3: int = operator_end(s, p2)->0;
                lemma_blanks_bounds(s, p3);
                if blanks_end(s, p3) is Some {
                    let p4: int = blanks_end(s, p3)->0;
                    lemma_value_bounds(s, p4);
                }
            }
        }
    }
}

pub proof fn lemma_and_condition_bounds(s: Seq<char>, pos: int)
    requires
        0 <= pos <= s.len(),
    ensures
        and_condition_end(s, pos) matches Some(e) ==> pos < e <= s.len(),
{
    lemma_blanks_bounds(s, pos);
    if blanks_end(s, pos) is Some {
        let p1: int = blanks_end(s, pos)->0;
        lemma_lit_bounds(s, p1, "AND"@);
        if lit_end(s, p1, "AND"@) is Some {
            let p2: int = lit_end(s, p1, "AND"@)->0;
            lemma_blanks_bounds(s, p2);
            if blanks_end(s, p2) is Some {
                let p3: int = blanks_end(s, p2)->0;
                lemma_condition_bounds(s, p3);
            }
        }
    }
}

pub proof fn lemma_conditions_tail_bounds(s: Seq<char>, pos: int)
    requires
        0 <= pos <= s.len(),
    ensures
        pos <= conditions_tail_end(s, pos) <= s.len(),
    decreases s.len() - pos,
{
    lemma_and_condition_bounds(s, pos);
    if and_condition_end(s, pos) is Some {
        let e: int = and_condition_end(s, pos)->0;
        lemma_conditions_tail_bounds(s, e);
    }
}

pub proof fn lemma_multiple_conditions_bounds(s: Seq<char>, pos: int)
    requires
        0 <= pos <= s.len(),
    ensures
        multiple_conditions_end(s, pos) matches Some(e) ==> pos < e <= s.len(),
{
    lemma_condition_bounds(s, pos);
    if condition_end(s, pos) is Some {
        let p1: int = condition_end(s, pos)->0;
        lemma_conditions_tail_bounds(s, p1);
    }
}

pub proof fn lemma_opt_direction_bounds(s: Seq<char>, pos: int)
    requires
        0 <= pos <= s.len(),
    ensures
        pos <= opt_direction_end(s, pos) <= s.len(),
{
    lemma_blanks_bounds(s, pos);
    if blanks_end(s, pos) is Some {
        let p1: int = blanks_end(s, pos)->0;
        lemma_lit_bounds(s, p1, "ASC"@);
        lemma_lit_bounds(s, p1, "DESC"@);
    }
}

pub proof fn lemma_order_by_bounds(s: Seq<char>, pos: int)
    requires
        0 <= pos <= s.len(),
    ensures
        order_by_end(s, pos) matches Some(e) ==> pos <= e <= s.len(),
{
    lemma_lit_bounds(s, pos, "ORDER BY"@);
    if lit_end(s, pos, "ORDER BY"@) is Some {
        let p1: int = lit_end(s, pos, "ORDER BY"@)->0;
        lemma_blanks_bounds(s, p1);
        if blanks_end(s, p1) is Some {
            let p2: int = blanks_end(s, p1)->0;
            lemma_ident_bounds(s, p2);
            if ident_end(s, p2) is Some {
                let p3: int = ident_end(s, p2)->0;
                lemma_opt_direction_bounds(s, p3);
            }
        }
    }
}

pub proof fn lemma_opt_where_bounds(s: Seq<char>, pos: int)
    requires
        0 <= pos <= s.len(),
    ensures
        pos <= opt_where_end(s, pos) <= s.len(),
{
    lemma_blanks_bounds(s, pos);
    if blanks_end(s, pos) is Some {
        let p1: int = blanks_end(s, pos)->0;
        lemma_lit_bounds(s, p1, "WHERE"@);
        if lit_end(s, p1, "WHERE"@) is Some {
            let p2: int = lit_end(s, p1, "WHERE"@)->0;
            lemma_blanks_bounds(s, p2);
            if blanks_end(s, p2) is Some {
                let p3: int = blanks_end(s, p2)->0;
                lemma_multiple_conditions_bounds(s, p3);
            }
        }
    }
}

pub proof fn lemma_opt_order_by_bounds(s: Seq<char>, pos: int)
    requires
        0 <= pos <= s.len(),
    ensures
        pos <= opt_order_by_end(s, pos) <= s.len(),
{
    lemma_blanks_bounds(s, pos);
    if blanks_end(s, pos) is Some {
        let p1: int = blanks_end(s, pos)->0;
        lemma_order_by_bounds(s, p1);
    }
}

pub proof fn lemma_comma_ident_bounds(s: Seq<char>, pos: int)
    requires
        0 <= pos <= s.len(),
    ensures
        comma_ident_end(s, pos) matches Some(e) ==> pos < e <= s.len(),
{
    lemma_lit_bounds(s, pos, ","@);
    if lit_end(s, pos, ","@) is Some {
        let p1: int = lit_end(s, pos, ","@)->0;
        lemma_blanks_bounds(s, p1);
        lemma_ident_bounds(s, opt_blanks_end(s, p1));
    }
}

pub proof fn lemma_ident_list_tail_bounds(s: Seq<char>, pos: int)
    requires
        0 <= pos <= s.len(),
    ensures
        pos <= ident_list_tail_end(s, pos) <= s.len(),
    decreases s.len() - pos,
{
    lemma_comma_ident_bounds(s, pos);
    if comma_ident_end(s, pos) is Some {
        let e: int = comma_ident_end(s, pos)->0;
        lemma_ident_list_tail_bounds(s, e);
    }
}

pub proof fn lemma_ident_list_bounds(s: Seq<char>, pos: int)
    requires
        0 <= pos <= s.len(),
    ensures
        ident_list_end(s, pos) matches Some(e) ==> pos < e <= s.len(),
{
    lemma_ident_bounds(s, pos);
    if ident_end(s, pos) is Some {
        let p1: int = ident_end(s, pos)->0;
        lemma_ident_list_tail_bounds(s, p1);
    }
}

pub proof fn lemma_comma_value_bounds(s: Seq<char>, pos: int)
    requires
        0 <= pos <= s.len(),
    ensures
        comma_value_end(s, pos) matches Some(e) ==> pos < e <= s.len(),
{
    lemma_lit_bounds(s, pos, ","@);
    if lit_end(s, pos, ","@) is Some {
        let p1: int = lit_end(s, pos, ","@)->0;
        lemma_blanks_bounds(s, p1);
        lemma_value_bounds(s, opt_blanks_end(s, p1));
    }
}

pub proof fn lemma_value_list_tail_bounds(s: Seq<char>, pos: int)
    requires
        0 <= pos <= s.len(),
    ensures
        pos <= value_list_tail_end(s, pos) <= s.len(),
    decreases s.len() - pos,
{
    lemma_comma_value_bounds(s, pos);
    if comma_value_end(s, pos) is Some {
        let e: int = comma_value_end(s, pos)->0;
        lemma_value_list_tail_bounds(s, e);
    }
}

pub proof fn lemma_value_list_bounds(s: Seq<char>, pos: int)
    requires
        0 <= pos <= s.len(),
    ensures
        value_list_end(s, pos) matches Some(e) ==> pos < e <= s.len(),
{
    lemma_value_bounds(s, pos);
    if value_end(s, pos) is Some {
        let p1: int = value_end(s, pos)->0;
        lemma_value_list_tail_bounds(s, p1);
    }
}

/// What a given rule matches at a given position.  Opaque because it folds
/// all rules into one definition: proofs reveal it where they relate a rule
/// name to that rule's own matching function.
#[verifier::opaque]
pub open spec fn rule_end(rule: Rule, s: Seq<char>, pos: int) -> Option<int> {
    match rule {
        Rule::Ident => ident_end(s, pos),
        Rule::Number => number_end(s, pos),
        Rule::StringLiteral => string_end(s, pos),
        Rule::ComparisonOperator => operator_end(s, pos),
        Rule::Condition => condition_end(s, pos),
        Rule::MultipleConditions => multiple_conditions_end(s, pos),
        Rule::OrderBy => order_by_end(s, pos),
        Rule::Query => query_end(s, pos),
        Rule::Insert => insert_end(s, pos),
    }
}

/// The dispatcher's fixed priority order over statement-level rules.
pub open spec fn dispatch_order() -> Seq<Rule> {
    seq![
        Rule::Query,
        Rule::Insert,
        Rule::Condition,
        Rule::MultipleConditions,
        Rule::OrderBy,
    ]
}

/// Result of trying the rules of `dispatch_order` in order against the whole
/// line, anchored at position 0: the first rule that matches, with the end of
/// its span.
pub open spec fn dispatch_result(s: Seq<char>) -> Option<(Rule, int)> {
    match query_end(s, 0) {
        Some(e) => Some((Rule::Query, e)),
        None => match insert_end(s, 0) {
            Some(e) => Some((Rule::Insert, e)),
            None => match condition_end(s, 0) {
                Some(e) => Some((Rule::Condition, e)),
                None => match multiple_conditions_end(s, 0) {
                    Some(e) => Some((Rule::MultipleConditions, e)),
                    None => match order_by_end(s, 0) {
                        Some(e) => Some((Rule::OrderBy, e)),
                        None => None,
                    },
                },
            },
        },
    }
}

} // verus!
