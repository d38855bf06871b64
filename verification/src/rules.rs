//! Executable matchers for the condition and clause rules.
//!
//! On success these matchers also return the spans of the sub-matches the
//! rule captured, well-formed in the sense of [`crate::children_wf`].
use vstd::prelude::*;

use crate::children_wf;
use crate::lexer;
use crate::model;
use crate::Rule;
use crate::Span;

verus! {

/// `condition`: `ident`, whitespace, `comparison_operator`, whitespace,
/// value.  The captured children are the identifier, the operator and the
/// value.
pub fn match_condition(s: &str, pos: usize) -> (r: Option<(usize, Vec<Span>)>)
    requires
        pos <= s@.len(),
    ensures
        r matches Some(p) ==> model::condition_end(s@, pos as int) == Some(p.0 as int),
        r is None ==> model::condition_end(s@, pos as int) is None,
        r matches Some(p) ==> pos < p.0 <= s@.len(),
        r matches Some(p) ==> children_wf(s@, pos as int, p.0 as int, p.1@),
        r matches Some(p) ==> p.1@.len() == 3 && p.1@[0].rule == Rule::Ident && p.1@[0].start
            == pos && p.1@[1].rule == Rule::ComparisonOperator && (p.1@[2].rule == Rule::Number
            || p.1@[2].rule == Rule::StringLiteral) && p.1@[2].end == p.0,
{
    proof {
        reveal(crate::model::rule_end);
    }
    match lexer::match_ident(s, pos) {
        None => None,
        Some(p1) => match lexer::match_blanks(s, p1) {
            None => None,
            Some(p2) => match lexer::match_operator(s, p2) {
                None => None,
                Some(p3) => match lexer::match_blanks(s, p3) {
                    None => None,
                    Some(p4) => match lexer::match_value(s, p4) {
                        None => None,
                        Some((e, value_rule)) => {
                            let mut cs: Vec<Span> = Vec::new();
                            cs.push(Span { rule: Rule::Ident, start: pos, end: p1 });
                            cs.push(Span { rule: Rule::ComparisonOperator, start: p2, end: p3 });
                            cs.push(Span { rule: value_rule, start: p4, end: e });
                            Some((e, cs))
                        },
                    },
                },
            },
        },
    }
}

/// One repetition step of `multiple_conditions`: whitespace, `AND`,
/// whitespace, `condition`.  Also returns where the condition itself starts
/// and the spans it captured.
pub fn match_and_condition(s: &str, pos: usize) -> (r: Option<(usize, usize, Vec<Span>)>)
    requires
        pos <= s@.len(),
    ensures
        r matches Some(p) ==> model::and_condition_end(s@, pos as int) == Some(p.1 as int),
        r is None ==> model::and_condition_end(s@, pos as int) is None,
        r matches Some(p) ==> pos < p.0 < p.1 <= s@.len() && model::condition_end(
            s@,
            p.0 as int,
        ) == Some(p.1 as int),
{
    match lexer::match_blanks(s, pos) {
        None => None,
        Some(p1) => match lexer::match_lit(s, p1, "AND") {
            None => None,
            Some(p2) => match lexer::match_blanks(s, p2) {
                None => None,
                Some(p3) => match match_condition(s, p3) {
                    None => None,
                    Some((e, cs)) => Some((p3, e, cs)),
                },
            },
        },
    }
}

/// `multiple_conditions`: one `condition`, then greedily as many
/// `AND condition` steps as match.  The captured children are the condition
/// spans, in input order.
pub fn match_multiple_conditions(s: &str, pos: usize) -> (r: Option<(usize, Vec<Span>)>)
    requires
        pos <= s@.len(),
    ensures
        r matches Some(p) ==> model::multiple_conditions_end(s@, pos as int) == Some(p.0 as int),
        r is None ==> model::multiple_conditions_end(s@, pos as int) is None,
        r matches Some(p) ==> pos < p.0 <= s@.len(),
        r matches Some(p) ==> children_wf(s@, pos as int, p.0 as int, p.1@),
        r matches Some(p) ==> p.1@.len() >= 1 && p.1@[0].start == pos && p.1@[p.1@.len()
            - 1].end == p.0 && (forall|i: int|
            0 <= i < p.1@.len() ==> (#[trigger] p.1@[i]).rule == Rule::Condition),
{
    proof {
        reveal(crate::model::rule_end);
    }
    match match_condition(s, pos) {
        None => None,
        Some((first, _inner)) => {
            let n: usize = s.unicode_len();
            let mut cs: Vec<Span> = Vec::new();
            cs.push(Span { rule: Rule::Condition, start: pos, end: first });
            let mut i: usize = first;
            let mut done = false;
            while !done
                invariant
                    first <= i <= n,
                    n == s@.len(),
                    pos < first,
                    model::conditions_tail_end(s@, first as int) == model::conditions_tail_end(
                        s@,
                        i as int,
                    ),
                    done ==> model::and_condition_end(s@, i as int) is None,
                    children_wf(s@, pos as int, i as int, cs@),
                    cs@.len() > 0,
                    cs@[0].start == pos,
                    cs@[cs@.len() - 1].end == i,
                    forall|j: int| 0 <= j < cs@.len() ==> (#[trigger] cs@[j]).rule
                        == Rule::Condition,
                decreases n - i + (if done { 0int } else { 1int }),
            {
                match match_and_condition(s, i) {
                    Some((cstart, e, _inner2)) => {
                        proof {
                            reveal(crate::model::rule_end);
                        }
                        assert(model::conditions_tail_end(s@, i as int)
                            == model::conditions_tail_end(s@, e as int));
                        let ghost old_cs = cs@;
                        cs.push(Span { rule: Rule::Condition, start: cstart, end: e });
                        assert forall|j: int, k: int|
                            0 <= j && j + 1 == k && k < cs@.len() implies (
                        #[trigger] cs@[j]).end <= (#[trigger] cs@[k]).start by {
                            if k < cs@.len() - 1 {
                                assert(old_cs[j].end <= old_cs[k].start);
                            }
                        }
                        i = e;
                    },
                    None => {
                        done = true;
                    },
                }
            }
            assert(model::conditions_tail_end(s@, i as int) == i);
            Some((i, cs))
        },
    }
}

/// `order_by`: `ORDER BY`, whitespace, the sort column, then an optional
/// `ASC`/`DESC` direction.  The captured child is the column identifier.
pub fn match_order_by(s: &str, pos: usize) -> (r: Option<(usize, Vec<Span>)>)
    requires
        pos <= s@.len(),
    ensures
        r matches Some(p) ==> model::order_by_end(s@, pos as int) == Some(p.0 as int),
        r is None ==> model::order_by_end(s@, pos as int) is None,
        r matches Some(p) ==> pos <= p.0 <= s@.len(),
        r matches Some(p) ==> children_wf(s@, pos as int, p.0 as int, p.1@),
{
    proof {
        reveal(crate::model::rule_end);
    }
    match lexer::match_lit(s, pos, "ORDER BY") {
        None => None,
        Some(p1) => match lexer::match_blanks(s, p1) {
            None => None,
            Some(p2) => match lexer::match_ident(s, p2) {
                None => None,
                Some(p3) => {
                    let mut cs: Vec<Span> = Vec::new();
                    cs.push(Span { rule: Rule::Ident, start: p2, end: p3 });
                    match lexer::match_blanks(s, p3) {
                        None => Some((p3, cs)),
                        Some(p4) => match lexer::match_lit(s, p4, "ASC") {
                            Some(e) => Some((e, cs)),
                            None => match lexer::match_lit(s, p4, "DESC") {
                                Some(e) => Some((e, cs)),
                                None => Some((p3, cs)),
                            },
                        },
                    }
                },
            },
        },
    }
}

} // verus!
