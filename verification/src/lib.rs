//! A recognizer for a small, fixed subset of SQL: `SELECT` queries (with
//! optional `WHERE` and `ORDER BY` clauses) and `INSERT` statements.
//!
//! The grammar is a set of named rules matched against raw text with
//! ordered-choice semantics: alternatives are tried in a fixed order, the
//! first success wins, and repetition is greedy.  Matching a rule against an
//! input either yields the span of input the rule covers, starting at
//! position 0, or fails; it never consumes input on failure.  The module
//! [`model`] states, per rule, exactly which span that is, and every matcher
//! is verified against that statement.
use vstd::prelude::*;

pub mod laws;
pub mod lexer;
pub mod model;
pub mod rules;
pub mod statements;

verus! {

/// The named rules of the grammar.
#[derive(Clone, Copy, Debug, PartialEq, Eq, Structural)]
pub enum Rule {
    /// One or more word characters (letters, digits, `_`).
    Ident,
    /// One or more decimal digits.
    Number,
    /// A `'`-delimited string literal.
    StringLiteral,
    /// One of `>=`, `<=`, `!=`, `=`, `<`, `>`.
    ComparisonOperator,
    /// `ident comparison_operator value`.
    Condition,
    /// One or more conditions joined by `AND`.
    MultipleConditions,
    /// `ORDER BY column` with an optional `ASC`/`DESC`.
    OrderBy,
    /// A full `SELECT` statement ending in `;`.
    Query,
    /// A full `INSERT` statement ending in `;`.
    Insert,
}

/// The failure outcome of a match attempt: the rule does not match the input
/// at position 0.  It carries no further diagnostic.
#[derive(Clone, Copy, Debug)]
pub struct MatchFailure;

/// The start and end offsets (end exclusive) of a piece of input matched by
/// one rule.
#[derive(Clone, Copy, Debug)]
pub struct Span {
    pub rule: Rule,
    pub start: usize,
    pub end: usize,
}

/// A valid sub-match: the span's own rule matches the input at its start and
/// covers exactly the span.
pub open spec fn child_ok(s: Seq<char>, sp: Span) -> bool {
    &&& sp.start <= sp.end
    &&& model::rule_end(sp.rule, s, sp.start as int) == Some(sp.end as int)
}

/// Well-formed children of a match covering `[start, end)`: every child is a
/// valid sub-match lying inside the parent span, and siblings are ordered and
/// non-overlapping (each child ends no later than the next one starts).
pub open spec fn children_wf(s: Seq<char>, start: int, end: int, cs: Seq<Span>) -> bool {
    &&& forall|i: int| 0 <= i < cs.len() ==> #[trigger] child_ok(s, cs[i])
    &&& forall|i: int| 0 <= i < cs.len() ==> start <= (#[trigger] cs[i]).start && cs[i].end <= end
    &&& forall|i: int, j: int|
        0 <= i && i + 1 == j && j < cs.len() ==> (#[trigger] cs[i]).end <= (#[trigger] cs[j]).start
}

impl Span {
    pub fn start(&self) -> (r: usize)
        ensures
            r == self.start,
    {
        self.start
    }

    pub fn end(&self) -> (r: usize)
        ensures
            r == self.end,
    {
        self.end
    }
}

/// A successful match of one rule: the rule, the span of input it covers,
/// the covered text itself, and the spans of the sub-matches the rule
/// captured, in input order.
#[derive(Debug)]
pub struct Pair {
    pub rule: Rule,
    pub start: usize,
    pub end: usize,
    pub text: String,
    pub children: Vec<Span>,
}

impl Pair {
    pub fn as_rule(&self) -> (r: Rule)
        ensures
            r == self.rule,
    {
        self.rule
    }

    pub fn as_span(&self) -> (r: Span)
        ensures
            r.rule == self.rule,
            r.start == self.start,
            r.end == self.end,
    {
        Span { rule: self.rule, start: self.start, end: self.end }
    }

    pub fn as_str(&self) -> (r: &str)
        ensures
            r@ == self.text@,
    {
        self.text.as_str()
    }
}

/// The result of a successful parse: at most one matched [`Pair`], handed out
/// by [`Pairs::next`].
#[derive(Debug)]
pub struct Pairs {
    pub item: Option<Pair>,
}

impl Pairs {
    pub fn next(&mut self) -> (r: Option<Pair>)
        ensures
            r == old(self).item,
            final(self).item is None,
    {
        self.item.take()
    }
}

/// The grammar: a fixed set of named rules (see [`Rule`]) matched against raw
/// text.
pub struct Grammar;

/// Wraps a lexical match, which captures no sub-spans, as a match with an
/// empty child list.
fn leaf(outcome: Option<usize>) -> (r: Option<(usize, Vec<Span>)>)
    ensures
        r matches Some(p) ==> outcome == Some(p.0) && p.1@.len() == 0,
        r is None ==> outcome is None,
{
    match outcome {
        Some(e) => Some((e, Vec::new())),
        None => None,
    }
}

/// Builds the [`Pair`] for a match of `rule` that ends at `end` and captured
/// the sub-matches `children`.
fn make_pair(rule: Rule, input: &str, end: usize, children: Vec<Span>) -> (p: Pair)
    requires
        end <= input@.len(),
    ensures
        p.rule == rule,
        p.start == 0,
        p.end == end,
        p.text@ == input@.subrange(0, end as int),
        p.children == children,
{
    Pair { rule, start: 0, end, text: String::from_str(input.substring_char(0, end)), children }
}

impl Grammar {
    /// Matches `rule` against `input`, anchored at position 0.
    ///
    /// Succeeds exactly when the rule matches there; the returned pair then
    /// carries the rule, the span `[0, end)` the rule covers — where `end` is
    /// the position [`model::rule_end`] assigns — and the covered text.
    /// Trailing input beyond the span is allowed and ignored.
    pub fn parse(rule: Rule, input: &str) -> (r: Result<Pairs, MatchFailure>)
        ensures
            r is Ok <==> model::rule_end(rule, input@, 0) is Some,
            r matches Ok(ps) ==> ps.item matches Some(p) && p.rule == rule && p.start == 0
                && model::rule_end(rule, input@, 0) == Some(p.end as int) && p.end <= input@.len()
                && p.text@ == input@.subrange(0, p.end as int)
                && children_wf(input@, 0, p.end as int, p.children@),
    {
        proof {
            reveal(model::rule_end);
        }
        let outcome: Option<(usize, Vec<Span>)> = match rule {
            Rule::Ident => leaf(lexer::match_ident(input, 0)),
            Rule::Number => leaf(lexer::match_number(input, 0)),
            Rule::StringLiteral => leaf(lexer::match_string(input, 0)),
            Rule::ComparisonOperator => leaf(lexer::match_operator(input, 0)),
            Rule::Condition => rules::match_condition(input, 0),
            Rule::MultipleConditions => rules::match_multiple_conditions(input, 0),
            Rule::OrderBy => rules::match_order_by(input, 0),
            Rule::Query => statements::match_query(input, 0),
            Rule::Insert => statements::match_insert(input, 0),
        };
        match outcome {
            Some((end, children)) => Ok(Pairs { item: Some(make_pair(rule, input, end, children)) }),
            None => Err(MatchFailure),
        }
    }

    /// Tries the statement-level rules against one line in the fixed priority
    /// order `query`, `insert`, `condition`, `multiple_conditions`,
    /// `order_by`, each anchored at position 0, and returns the first match.
    ///
    /// Succeeds exactly when some rule in that order matches; the returned
    /// pair then carries the first matching rule and its span, as
    /// [`model::dispatch_result`] assigns them.
    pub fn dispatch(input: &str) -> (r: Result<Pairs, MatchFailure>)
        ensures
            r is Ok <==> model::dispatch_result(input@) is Some,
            r matches Ok(ps) ==> ps.item matches Some(p) && p.start == 0 && p.end <= input@.len()
                && model::dispatch_result(input@) == Some((p.rule, p.end as int))
                && p.text@ == input@.subrange(0, p.end as int)
                && children_wf(input@, 0, p.end as int, p.children@),
    {
        let outcome: (Option<(usize, Vec<Span>)>, Rule) = match statements::match_query(input, 0) {
            Some(p) => (Some(p), Rule::Query),
            None => match statements::match_insert(input, 0) {
                Some(p) => (Some(p), Rule::Insert),
                None => match rules::match_condition(input, 0) {
                    Some(p) => (Some(p), Rule::Condition),
                    None => match rules::match_multiple_conditions(input, 0) {
                        Some(p) => (Some(p), Rule::MultipleConditions),
                        None => match rules::match_order_by(input, 0) {
                            Some(p) => (Some(p), Rule::OrderBy),
                            None => (None, Rule::OrderBy),
                        },
                    },
                },
            },
        };
        match outcome.0 {
            Some((end, children)) => Ok(
                Pairs { item: Some(make_pair(outcome.1, input, end, children)) },
            ),
            None => Err(MatchFailure),
        }
    }
}

} // verus!
