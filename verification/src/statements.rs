//! Executable matchers for the statement-level rules: `query` and `insert`.
//!
//! On success these matchers also return the spans of the sub-matches the
//! rule captured, well-formed in the sense of [`crate::children_wf`].
use vstd::prelude::*;

use crate::child_ok;
use crate::children_wf;
use crate::lexer;
use crate::model;
use crate::rules;
use crate::Rule;
use crate::Span;

verus! {

/// The optional `WHERE` clause of a query; never fails.  When the clause is
/// present, also returns the span of its `multiple_conditions`.
fn skip_where(s: &str, pos: usize) -> (r: (usize, Option<Span>))
    requires
        pos <= s@.len(),
    ensures
        r.0 as int == model::opt_where_end(s@, pos as int),
        pos <= r.0 <= s@.len(),
        r.1 matches Some(sp) ==> sp.rule == Rule::MultipleConditions && child_ok(s@, sp)
            && pos < sp.start && sp.end == r.0,
        r.1 is None ==> r.0 == pos,
{
    proof {
        reveal(crate::model::rule_end);
    }
    match lexer::match_blanks(s, pos) {
        None => (pos, None),
        Some(p1) => match lexer::match_lit(s, p1, "WHERE") {
            None => (pos, None),
            Some(p2) => match lexer::match_blanks(s, p2) {
                None => (pos, None),
                Some(p3) => match rules::match_multiple_conditions(s, p3) {
                    Some((e, _inner)) => (
                        e,
                        Some(Span { rule: Rule::MultipleConditions, start: p3, end: e }),
                    ),
                    None => (pos, None),
                },
            },
        },
    }
}

/// The optional `ORDER BY` clause of a query; never fails.  When the clause
/// is present, also returns its span.
fn skip_order_by(s: &str, pos: usize) -> (r: (usize, Option<Span>))
    requires
        pos <= s@.len(),
    ensures
        r.0 as int == model::opt_order_by_end(s@, pos as int),
        pos <= r.0 <= s@.len(),
        r.1 matches Some(sp) ==> sp.rule == Rule::OrderBy && child_ok(s@, sp) && pos < sp.start
            && sp.end == r.0,
        r.1 is None ==> r.0 == pos,
{
    proof {
        reveal(crate::model::rule_end);
    }
    match lexer::match_blanks(s, pos) {
        None => (pos, None),
        Some(p1) => match rules::match_order_by(s, p1) {
            Some((e, _inner)) => (e, Some(Span { rule: Rule::OrderBy, start: p1, end: e })),
            None => (pos, None),
        },
    }
}

/// `query`: `SELECT`, column, `FROM`, table, optional `WHERE` clause,
/// optional `ORDER BY` clause, `;`.  The captured children are the column
/// identifier, the table identifier and, when present, the spans of the
/// `WHERE` conditions and of the `ORDER BY` clause.
pub fn match_query(s: &str, pos: usize) -> (r: Option<(usize, Vec<Span>)>)
    requires
        pos <= s@.len(),
    ensures
        r matches Some(p) ==> model::query_end(s@, pos as int) == Some(p.0 as int),
        r is None ==> model::query_end(s@, pos as int) is None,
        r matches Some(p) ==> pos <= p.0 <= s@.len(),
        r matches Some(p) ==> children_wf(s@, pos as int, p.0 as int, p.1@),
        r matches Some(p) ==> p.1@.len() >= 2 && p.1@[0].rule == Rule::Ident && p.1@[1].rule
            == Rule::Ident,
{
    proof {
        reveal(crate::model::rule_end);
    }
    match lexer::match_lit(s, pos, "SELECT") {
        None => None,
        Some(p1) => match lexer::match_blanks(s, p1) {
            None => None,
            Some(p2) => match lexer::match_ident(s, p2) {
                None => None,
                Some(p3) => match lexer::match_blanks(s, p3) {
                    None => None,
                    Some(p4) => match lexer::match_lit(s, p4, "FROM") {
                        None => None,
                        Some(p5) => match lexer::match_blanks(s, p5) {
                            None => None,
                            Some(p6) => match lexer::match_ident(s, p6) {
                                None => None,
                                Some(p7) => {
                                    let (p8, where_span) = skip_where(s, p7);
                                    let (p9, order_span) = skip_order_by(s, p8);
                                    match lexer::match_lit(s, p9, ";") {
                                        None => None,
                                        Some(e) => {
                                            let mut cs: Vec<Span> = Vec::new();
                                            cs.push(
                                                Span { rule: Rule::Ident, start: p2, end: p3 },
                                            );
                                            cs.push(
                                                Span { rule: Rule::Ident, start: p6, end: p7 },
                                            );
                                            match where_span {
                                                Some(sp) => cs.push(sp),
                                                None => (),
                                            }
                                            match order_span {
                                                Some(sp) => cs.push(sp),
                                                None => (),
                                            }
                                            Some((e, cs))
                                        },
                                    }
                                },
                            },
                        },
                    },
                },
            },
        },
    }
}

/// One repetition step of the column list: `,`, optional whitespace, `ident`.
/// Also returns where the identifier itself starts.
fn match_comma_ident(s: &str, pos: usize) -> (r: Option<(usize, usize)>)
    requires
        pos <= s@.len(),
    ensures
        r matches Some(p) ==> model::comma_ident_end(s@, pos as int) == Some(p.1 as int),
        r is None ==> model::comma_ident_end(s@, pos as int) is None,
        r matches Some(p) ==> pos < p.0 < p.1 <= s@.len() && model::ident_end(s@, p.0 as int)
            == Some(p.1 as int),
{
    match lexer::match_lit(s, pos, ",") {
        None => None,
        Some(p1) => {
            proof {
                reveal_strlit(",");
            }
            let q: usize = lexer::skip_blanks(s, p1);
            match lexer::match_ident(s, q) {
                None => None,
                Some(e) => Some((q, e)),
            }
        },
    }
}

/// A non-empty comma-separated list of identifiers (the column list).  The
/// captured children are the identifier spans, in input order.
fn match_ident_list(s: &str, pos: usize) -> (r: Option<(usize, Vec<Span>)>)
    requires
        pos <= s@.len(),
    ensures
        r matches Some(p) ==> model::ident_list_end(s@, pos as int) == Some(p.0 as int),
        r is None ==> model::ident_list_end(s@, pos as int) is None,
        r matches Some(p) ==> pos < p.0 <= s@.len(),
        r matches Some(p) ==> children_wf(s@, pos as int, p.0 as int, p.1@),
        r matches Some(p) ==> p.1@.len() >= 1 && p.1@[0].start == pos && p.1@[p.1@.len()
            - 1].end == p.0 && (forall|i: int|
            0 <= i < p.1@.len() ==> (#[trigger] p.1@[i]).rule == Rule::Ident),
{
    proof {
        reveal(crate::model::rule_end);
    }
    match lexer::match_ident(s, pos) {
        None => None,
        Some(first) => {
            let n: usize = s.unicode_len();
            let mut cs: Vec<Span> = Vec::new();
            cs.push(Span { rule: Rule::Ident, start: pos, end: first });
            let mut i: usize = first;
            let mut done = false;
            while !done
                invariant
                    first <= i <= n,
                    n == s@.len(),
                    pos < first,
                    model::ident_list_tail_end(s@, first as int) == model::ident_list_tail_end(
                        s@,
                        i as int,
                    ),
                    done ==> model::comma_ident_end(s@, i as int) is None,
                    children_wf(s@, pos as int, i as int, cs@),
                    cs@.len() > 0,
                    cs@[0].start == pos,
                    cs@[cs@.len() - 1].end == i,
                    forall|j: int| 0 <= j < cs@.len() ==> (#[trigger] cs@[j]).rule == Rule::Ident,
                decreases n - i + (if done { 0int } else { 1int }),
            {
                match match_comma_ident(s, i) {
                    Some((istart, e)) => {
                        proof {
                            reveal(crate::model::rule_end);
                        }
                        assert(model::ident_list_tail_end(s@, i as int)
                            == model::ident_list_tail_end(s@, e as int));
                        let ghost old_cs = cs@;
                        cs.push(Span { rule: Rule::Ident, start: istart, end: e });
                        assert forall|j: int, k: int|
                            0 <= j && j + 1 == k && k < cs@.len() implies (
                        #[trigger] cs@[j]).end <= (#[trigger] cs@[k]).start by {
                            if k < cs@.len() - 1 {
                                assert(old_cs[j].end <= old_cs[k].start);
                            }
                        }
                        i = e;
                    },
                    None => {
                        done = true;
                    },
                }
            }
            assert(model::ident_list_tail_end(s@, i as int) == i);
            Some((i, cs))
        },
    }
}

/// One repetition step of the value list: `,`, optional whitespace, a value.
/// Also returns where the value itself starts and which rule it matched.
fn match_comma_value(s: &str, pos: usize) -> (r: Option<(usize, usize, Rule)>)
    requires
        pos <= s@.len(),
    ensures
        r matches Some(p) ==> model::comma_value_end(s@, pos as int) == Some(p.1 as int),
        r is None ==> model::comma_value_end(s@, pos as int) is None,
        r matches Some(p) ==> pos < p.0 < p.1 <= s@.len() && model::rule_end(
            p.2,
            s@,
            p.0 as int,
        ) == Some(p.1 as int) && (p.2 == Rule::Number || p.2 == Rule::StringLiteral),
{
    match lexer::match_lit(s, pos, ",") {
        None => None,
        Some(p1) => {
            proof {
                reveal_strlit(",");
            }
            let q: usize = lexer::skip_blanks(s, p1);
            match lexer::match_value(s, q) {
                None => None,
                Some((e, value_rule)) => Some((q, e, value_rule)),
            }
        },
    }
}

/// A non-empty comma-separated list of values (the value list).  The
/// captured children are the value spans, in input order.
fn match_value_list(s: &str, pos: usize) -> (r: Option<(usize, Vec<Span>)>)
    requires
        pos <= s@.len(),
    ensures
        r matches Some(p) ==> model::value_list_end(s@, pos as int) == Some(p.0 as int),
        r is None ==> model::value_list_end(s@, pos as int) is None,
        r matches Some(p) ==> pos < p.0 <= s@.len(),
        r matches Some(p) ==> children_wf(s@, pos as int, p.0 as int, p.1@),
        r matches Some(p) ==> p.1@.len() >= 1 && p.1@[0].start == pos && p.1@[p.1@.len()
            - 1].end == p.0 && (forall|i: int|
            0 <= i < p.1@.len() ==> (#[trigger] p.1@[i]).rule == Rule::Number || p.1@[i].rule
                == Rule::StringLiteral),
{
    proof {
        reveal(crate::model::rule_end);
    }
    match lexer::match_value(s, pos) {
        None => None,
        Some((first, first_rule)) => {
            let n: usize = s.unicode_len();
            let mut cs: Vec<Span> = Vec::new();
            cs.push(Span { rule: first_rule, start: pos, end: first });
            let mut i: usize = first;
            let mut done = false;
            while !done
                invariant
                    first <= i <= n,
                    n == s@.len(),
                    pos < first,
                    model::value_list_tail_end(s@, first as int) == model::value_list_tail_end(
                        s@,
                        i as int,
                    ),
                    done ==> model::comma_value_end(s@, i as int) is None,
                    children_wf(s@, pos as int, i as int, cs@),
                    cs@.len() > 0,
                    cs@[0].start == pos,
                    cs@[cs@.len() - 1].end == i,
                    forall|j: int| 0 <= j < cs@.len() ==> (#[trigger] cs@[j]).rule == Rule::Number
                        || cs@[j].rule == Rule::StringLiteral,
                decreases n - i + (if done { 0int } else { 1int }),
            {
                match match_comma_value(s, i) {
                    Some((vstart, e, value_rule)) => {
                        proof {
                            reveal(crate::model::rule_end);
                        }
                        assert(model::value_list_tail_end(s@, i as int)
                            == model::value_list_tail_end(s@, e as int));
                        let ghost old_cs = cs@;
                        cs.push(Span { rule: value_rule, start: vstart, end: e });
                        assert forall|j: int, k: int|
                            0 <= j && j + 1 == k && k < cs@.len() implies (
                        #[trigger] cs@[j]).end <= (#[trigger] cs@[k]).start by {
                            if k < cs@.len() - 1 {
                                assert(old_cs[j].end <= old_cs[k].start);
                            }
                        }
                        i = e;
                    },
                    None => {
                        done = true;
                    },
                }
            }
            assert(model::value_list_tail_end(s@, i as int) == i);
            Some((i, cs))
        },
    }
}

/// `insert`: `INSERT INTO`, table, `(` column list `)`, `VALUES`,
/// `(` value list `)`, `;`.  The captured children are the table identifier,
/// the column identifiers and the value spans, in input order.
pub fn match_insert(s: &str, pos: usize) -> (r: Option<(usize, Vec<Span>)>)
    requires
        pos <= s@.len(),
    ensures
        r matches Some(p) ==> model::insert_end(s@, pos as int) == Some(p.0 as int),
        r is None ==> model::insert_end(s@, pos as int) is None,
        r matches Some(p) ==> pos <= p.0 <= s@.len(),
        r matches Some(p) ==> children_wf(s@, pos as int, p.0 as int, p.1@),
        r matches Some(p) ==> p.1@.len() >= 3 && p.1@[0].rule == Rule::Ident,
{
    match lexer::match_lit(s, pos, "INSERT INTO") {
        None => None,
        Some(p1) => match lexer::match_blanks(s, p1) {
            None => None,
            Some(p2) => match lexer::match_ident(s, p2) {
                None => None,
                Some(p3) => match lexer::match_lit(s, p3, "(") {
                    None => None,
                    Some(p4) => match match_ident_list(s, p4) {
                        None => None,
                        Some((p5, mut columns)) => match lexer::match_lit(s, p5, ")") {
                            None => None,
                            Some(p6) => match lexer::match_blanks(s, p6) {
                                None => None,
                                Some(p7) => match lexer::match_lit(s, p7, "VALUES(") {
                                    None => None,
                                    Some(p8) => match match_value_list(s, p8) {
                                        None => None,
                                        Some((p9, mut values)) => match lexer::match_lit(
                                            s,
                                            p9,
                                            ")",
                                        ) {
                                            None => None,
                                            Some(p10) => match lexer::match_lit(s, p10, ";") {
                                                None => None,
                                                Some(e) => {
                                                    let ghost cols = columns@;
                                                    let ghost vals = values@;
                                                    let mut cs: Vec<Span> = Vec::new();
                                                    cs.push(
                                                        Span {
                                                            rule: Rule::Ident,
                                                            start: p2,
                                                            end: p3,
                                                        },
                                                    );
                                                    cs.append(&mut columns);
                                                    cs.append(&mut values);
                                                    proof {
                                                        lemma_insert_children_wf(
                                                            s@,
                                                            pos,
                                                            e,
                                                            p2,
                                                            p3,
                                                            p4,
                                                            p5,
                                                            p8,
                                                            p9,
                                                            cols,
                                                            vals,
                                                            cs@,
                                                        );
                                                    }
                                                    Some((e, cs))
                                                },
                                            },
                                        },
                                    },
                                },
                            },
                        },
                    },
                },
            },
        },
    }
}

/// The children of an `insert` match are well formed: the table identifier
/// span, the column spans and the value spans sit one after another inside
/// the statement's span.
proof fn lemma_insert_children_wf(
    s: Seq<char>,
    pos: usize,
    e: usize,
    p2: usize,
    p3: usize,
    p4: usize,
    p5: usize,
    p8: usize,
    p9: usize,
    cols: Seq<Span>,
    vals: Seq<Span>,
    cs: Seq<Span>,
)
    requires
        pos <= p2 < p3 <= p4 <= p5 <= p8 <= p9 <= e,
        e <= s.len(),
        model::ident_end(s, p2 as int) == Some(p3 as int),
        children_wf(s, p4 as int, p5 as int, cols),
        children_wf(s, p8 as int, p9 as int, vals),
        cs == seq![Span { rule: Rule::Ident, start: p2, end: p3 }] + cols + vals,
    ensures
        children_wf(s, pos as int, e as int, cs),
{
    reveal(crate::model::rule_end);
    let head = Span { rule: Rule::Ident, start: p2, end: p3 };
    assert(cs.len() == 1 + cols.len() + vals.len());
    assert(cs[0] == head);
    assert(child_ok(s, head));
    assert forall|i: int| 0 <= i < cs.len() implies #[trigger] child_ok(s, cs[i]) by {
        if i == 0 {
            assert(cs[0] == head);
        } else if i < 1 + cols.len() {
            assert(cs[i] == cols[i - 1]);
            assert(child_ok(s, cols[i - 1]));
        } else {
            assert(cs[i] == vals[i - 1 - cols.len()]);
            assert(child_ok(s, vals[i - 1 - cols.len()]));
        }
    }
    assert forall|i: int| 0 <= i < cs.len() implies pos <= (#[trigger] cs[i]).start && cs[i].end
        <= e by {
        if i == 0 {
            assert(cs[0] == head);
        } else if i < 1 + cols.len() {
            assert(cs[i] == cols[i - 1]);
        } else {
            assert(cs[i] == vals[i - 1 - cols.len()]);
        }
    }
    assert forall|i: int, j: int|
        0 <= i && i + 1 == j && j < cs.len() implies (#[trigger] cs[i]).end <= (
    #[trigger] cs[j]).start by {
        if i == 0 {
            assert(cs[0] == head);
            if cols.len() > 0 {
                assert(cs[1] == cols[0]);
            } else {
                assert(cs[1] == vals[0]);
            }
        } else if j < 1 + cols.len() {
            assert(cs[i] == cols[i - 1]);
            assert(cs[j] == cols[i]);
        } else if i < 1 + cols.len() {
            assert(cs[i] == cols[i - 1]);
            assert(cs[j] == vals[0]);
        } else {
            assert(cs[i] == vals[i - 1 - cols.len()]);
            assert(cs[j] == vals[i - cols.len()]);
        }
    }
}

} // verus!
