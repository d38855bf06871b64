//! Properties of the grammar, stated over the model and proved once and for
//! all inputs.
use vstd::prelude::*;

use crate::model;
use crate::Rule;

verus! {

/// A successful `query` match always consumes its terminating `;`: the span
/// is non-empty, stays inside the input, and its last character is `;`.
pub proof fn lemma_query_ends_with_semicolon(s: Seq<char>, pos: int, e: int)
    requires
        0 <= pos <= s.len(),
        model::query_end(s, pos) == Some(e),
    ensures
        pos < e <= s.len(),
        s[e - 1] == ';',
{
    reveal_strlit(";");
    model::lemma_lit_bounds(s, pos, "SELECT"@);
    let p1: int = model::lit_end(s, pos, "SELECT"@)->0;
    model::lemma_blanks_bounds(s, p1);
    let p2: int = model::blanks_end(s, p1)->0;
    model::lemma_ident_bounds(s, p2);
    let p3: int = model::ident_end(s, p2)->0;
    model::lemma_blanks_bounds(s, p3);
    let p4: int = model::blanks_end(s, p3)->0;
    model::lemma_lit_bounds(s, p4, "FROM"@);
    let p5: int = model::lit_end(s, p4, "FROM"@)->0;
    model::lemma_blanks_bounds(s, p5);
    let p6: int = model::blanks_end(s, p5)->0;
    model::lemma_ident_bounds(s, p6);
    let p7: int = model::ident_end(s, p6)->0;
    model::lemma_opt_where_bounds(s, p7);
    let p8: int = model::opt_where_end(s, p7);
    model::lemma_opt_order_by_bounds(s, p8);
    let p9: int = model::opt_order_by_end(s, p8);
    assert(model::lit_at(s, p9, ";"@));
    assert(s[e - 1] == s.subrange(p9, p9 + 1)[0]);
}

/// Full coverage of a valid `query` input: a match is always anchored at the
/// start, and on an input whose only `;` is its final character — the shape
/// of a single complete statement — the matched span is the whole input.
pub proof fn lemma_query_full_coverage(s: Seq<char>, e: int)
    requires
        model::query_end(s, 0) == Some(e),
        forall|i: int| 0 <= i < s.len() - 1 ==> s[i] != ';',
    ensures
        0 < e,
        e == s.len(),
        s[e - 1] == ';',
{
    lemma_query_ends_with_semicolon(s, 0, e);
}

/// Two-character comparison operators are matched greedily: wherever `>=`,
/// `<=` or `!=` stands in the input, the operator rule matches both of its
/// characters, never the one-character prefix alone.
pub proof fn lemma_operator_greedy(s: Seq<char>, pos: int)
    requires
        0 <= pos,
        pos + 2 <= s.len(),
        s[pos] == '>' || s[pos] == '<' || s[pos] == '!',
        s[pos + 1] == '=',
    ensures
        model::operator_end(s, pos) == Some(pos + 2),
{
}

/// `multiple_conditions` is anchored by a leading condition: it matches
/// exactly where a single `condition` matches — so input that opens with a
/// dangling `AND` instead of a condition is rejected — and its span extends
/// the first condition's span.
pub proof fn lemma_multiple_conditions_anchor(s: Seq<char>, pos: int)
    requires
        0 <= pos <= s.len(),
    ensures
        model::multiple_conditions_end(s, pos) is Some <==> model::condition_end(s, pos)
            is Some,
        model::condition_end(s, pos) is Some ==> model::condition_end(s, pos)->0
            <= model::multiple_conditions_end(s, pos)->0,
{
    model::lemma_condition_bounds(s, pos);
    if model::condition_end(s, pos) is Some {
        model::lemma_conditions_tail_bounds(s, model::condition_end(s, pos)->0);
    }
}

/// The shape every successful `insert` match has: somewhere in the span
/// stands a `(` immediately followed by a non-empty column list, somewhere a
/// literal `VALUES(` immediately followed by a non-empty value list, and the
/// span ends with `;`.  Contrapositively, an input without a non-empty
/// parenthesized column list, or without a `VALUES(...)` clause, fails.
pub proof fn lemma_insert_shape(s: Seq<char>, pos: int, e: int)
    requires
        0 <= pos <= s.len(),
        model::insert_end(s, pos) == Some(e),
    ensures
        exists|lp: int|
            #![auto]
            pos <= lp && lp + 1 < e && s[lp] == '(' && model::ident_list_end(s, lp + 1) is Some,
        exists|vp: int|
            #![auto]
            pos <= vp && vp + 7 < e && model::lit_at(s, vp, "VALUES("@) && model::value_list_end(
                s,
                vp + 7,
            ) is Some,
        pos < e <= s.len(),
        s[e - 1] == ';',
{
    reveal_strlit("(");
    reveal_strlit("VALUES(");
    reveal_strlit(";");
    model::lemma_lit_bounds(s, pos, "INSERT INTO"@);
    let p1: int = model::lit_end(s, pos, "INSERT INTO"@)->0;
    model::lemma_blanks_bounds(s, p1);
    let p2: int = model::blanks_end(s, p1)->0;
    model::lemma_ident_bounds(s, p2);
    let p3: int = model::ident_end(s, p2)->0;
    model::lemma_lit_bounds(s, p3, "("@);
    let p4: int = model::lit_end(s, p3, "("@)->0;
    model::lemma_ident_list_bounds(s, p4);
    let p5: int = model::ident_list_end(s, p4)->0;
    model::lemma_lit_bounds(s, p5, ")"@);
    let p6: int = model::lit_end(s, p5, ")"@)->0;
    model::lemma_blanks_bounds(s, p6);
    let p7: int = model::blanks_end(s, p6)->0;
    model::lemma_lit_bounds(s, p7, "VALUES("@);
    let p8: int = model::lit_end(s, p7, "VALUES("@)->0;
    model::lemma_value_list_bounds(s, p8);
    let p9: int = model::value_list_end(s, p8)->0;
    model::lemma_lit_bounds(s, p9, ")"@);
    let p10: int = model::lit_end(s, p9, ")"@)->0;
    assert(model::lit_at(s, p10, ";"@));
    assert(s[e - 1] == s.subrange(p10, p10 + 1)[0]);
    assert(s[p3] == s.subrange(p3, p3 + 1)[0]);
    assert(p4 == p3 + 1);
    assert(pos <= p3 && p3 + 1 < e && s[p3] == '(' && model::ident_list_end(s, p3 + 1) is Some);
    assert(p8 == p7 + 7);
    assert(pos <= p7 && p7 + 7 < e && model::lit_at(s, p7, "VALUES("@) && model::value_list_end(
        s,
        p7 + 7,
    ) is Some);
}

/// The dispatcher honours its priority table: a reported match is a real
/// match of the reported rule, the reported rule stands in the table, and
/// every rule listed before it fails on the line.
pub proof fn lemma_dispatch_priority(s: Seq<char>, r: Rule, e: int)
    requires
        model::dispatch_result(s) == Some((r, e)),
    ensures
        model::rule_end(r, s, 0) == Some(e),
        exists|k: int| 0 <= k < model::dispatch_order().len() && model::dispatch_order()[k] == r,
        forall|k: int, j: int|
            #![auto]
            0 <= j < k < model::dispatch_order().len() && model::dispatch_order()[k] == r
                ==> model::rule_end(model::dispatch_order()[j], s, 0) is None,
{
    reveal(model::rule_end);
    let ord = model::dispatch_order();
    assert(ord[0] == Rule::Query);
    assert(ord[1] == Rule::Insert);
    assert(ord[2] == Rule::Condition);
    assert(ord[3] == Rule::MultipleConditions);
    assert(ord[4] == Rule::OrderBy);
}

/// When the dispatcher reports no match, every rule of its priority table
/// fails on the line.
pub proof fn lemma_dispatch_exhaustive(s: Seq<char>)
    requires
        model::dispatch_result(s) is None,
    ensures
        forall|j: int|
            0 <= j < model::dispatch_order().len() ==> model::rule_end(
                model::dispatch_order()[j],
                s,
                0,
            ) is None,
{
    reveal(model::rule_end);
    let ord = model::dispatch_order();
    assert(ord[0] == Rule::Query);
    assert(ord[1] == Rule::Insert);
    assert(ord[2] == Rule::Condition);
    assert(ord[3] == Rule::MultipleConditions);
    assert(ord[4] == Rule::OrderBy);
}

/// The empty input fails every rule the dispatcher tries, and therefore the
/// dispatcher itself.
pub proof fn lemma_empty_input_fails(s: Seq<char>)
    requires
        s.len() == 0,
    ensures
        model::query_end(s, 0) is None,
        model::insert_end(s, 0) is None,
        model::condition_end(s, 0) is None,
        model::multiple_conditions_end(s, 0) is None,
        model::order_by_end(s, 0) is None,
        model::dispatch_result(s) is None,
{
    reveal_strlit("SELECT");
    reveal_strlit("INSERT INTO");
    reveal_strlit("ORDER BY");
}

} // verus!

