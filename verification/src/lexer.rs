//! Executable matchers for the lexical rules.
//!
//! Every matcher takes the input and a starting position and returns the
//! position just past the matched text, or `None`.  Each is verified to agree
//! exactly with its counterpart in [`crate::model`].
use vstd::prelude::*;

use crate::model;
use crate::Rule;
use crate::model::CharClass;

verus! {

/// Whether `c` belongs to the class `cc`.
pub fn class_check(cc: CharClass, c: char) -> (b: bool)
    ensures
        b == model::class_holds(cc, c),
{
    let u: u32 = c as u32;
    match cc {
        CharClass::Word => (97 <= u && u <= 122) || (65 <= u && u <= 90) || (48 <= u && u <= 57)
            || u == 95,
        CharClass::Digit => 48 <= u && u <= 57,
        CharClass::Blank => u == 32 || u == 9,
    }
}

/// Position just past the longest run of characters of class `cc` at `pos`.
pub fn run_scan(s: &str, pos: usize, cc: CharClass) -> (r: usize)
    requires
        pos <= s@.len(),
    ensures
        r as int == model::run_end(s@, pos as int, cc),
        pos <= r <= s@.len(),
{
    let n: usize = s.unicode_len();
    let mut i: usize = pos;
    let mut done = false;
    while !done
        invariant
            pos <= i <= n,
            n == s@.len(),
            model::run_end(s@, pos as int, cc) == model::run_end(s@, i as int, cc),
            done ==> (i == n || !model::class_holds(cc, s@[i as int])),
        decreases n - i + (if done { 0int } else { 1int }),
    {
        if i < n && class_check(cc, s.get_char(i)) {
            assert(model::run_end(s@, i as int, cc) == model::run_end(s@, i + 1, cc));
            i = i + 1;
        } else {
            done = true;
        }
    }
    i
}

/// `ident`: one or more word characters.
pub fn match_ident(s: &str, pos: usize) -> (r: Option<usize>)
    requires
        pos <= s@.len(),
    ensures
        r matches Some(e) ==> model::ident_end(s@, pos as int) == Some(e as int),
        r is None ==> model::ident_end(s@, pos as int) is None,
        r matches Some(e) ==> pos < e <= s@.len(),
{
    let n: usize = s.unicode_len();
    if pos < n && class_check(CharClass::Word, s.get_char(pos)) {
        proof {
            model::lemma_run_end_bounds(s@, pos + 1, CharClass::Word);
        }
        Some(run_scan(s, pos, CharClass::Word))
    } else {
        None
    }
}

/// `number`: one or more decimal digits.
pub fn match_number(s: &str, pos: usize) -> (r: Option<usize>)
    requires
        pos <= s@.len(),
    ensures
        r matches Some(e) ==> model::number_end(s@, pos as int) == Some(e as int),
        r is None ==> model::number_end(s@, pos as int) is None,
        r matches Some(e) ==> pos < e <= s@.len(),
{
    let n: usize = s.unicode_len();
    if pos < n && class_check(CharClass::Digit, s.get_char(pos)) {
        proof {
            model::lemma_run_end_bounds(s@, pos + 1, CharClass::Digit);
        }
        Some(run_scan(s, pos, CharClass::Digit))
    } else {
        None
    }
}

/// Mandatory whitespace: one or more blanks.
pub fn match_blanks(s: &str, pos: usize) -> (r: Option<usize>)
    requires
        pos <= s@.len(),
    ensures
        r matches Some(e) ==> model::blanks_end(s@, pos as int) == Some(e as int),
        r is None ==> model::blanks_end(s@, pos as int) is None,
        r matches Some(e) ==> pos < e <= s@.len(),
{
    let n: usize = s.unicode_len();
    if pos < n && class_check(CharClass::Blank, s.get_char(pos)) {
        proof {
            model::lemma_run_end_bounds(s@, pos + 1, CharClass::Blank);
        }
        Some(run_scan(s, pos, CharClass::Blank))
    } else {
        None
    }
}

/// Optional whitespace: like `match_blanks` but never fails.
pub fn skip_blanks(s: &str, pos: usize) -> (r: usize)
    requires
        pos <= s@.len(),
    ensures
        r as int == model::opt_blanks_end(s@, pos as int),
        pos <= r <= s@.len(),
{
    match match_blanks(s, pos) {
        Some(e) => e,
        None => pos,
    }
}

/// `string`: a `'`-delimited literal with a mandatory closing quote.
pub fn match_string(s: &str, pos: usize) -> (r: Option<usize>)
    requires
        pos <= s@.len(),
    ensures
        r matches Some(e) ==> model::string_end(s@, pos as int) == Some(e as int),
        r is None ==> model::string_end(s@, pos as int) is None,
        r matches Some(e) ==> pos < e <= s@.len(),
{
    let n: usize = s.unicode_len();
    if pos < n && s.get_char(pos) as u32 == 39 {
        let mut i: usize = pos + 1;
        let mut done = false;
        while !done
            invariant
                pos + 1 <= i <= n,
                n == s@.len(),
                model::close_quote_end(s@, pos + 1) == model::close_quote_end(s@, i as int),
                done ==> (i == n || (i < n && s@[i as int] as u32 == 39)),
            decreases n - i + (if done { 0int } else { 1int }),
        {
            if i < n {
                if s.get_char(i) as u32 == 39 {
                    done = true;
                } else {
                    assert(model::close_quote_end(s@, i as int) == model::close_quote_end(
                        s@,
                        i + 1,
                    ));
                    i = i + 1;
                }
            } else {
                done = true;
            }
        }
        if i < n {
            Some(i + 1)
        } else {
            None
        }
    } else {
        None
    }
}

/// `comparison_operator`: `>=` | `<=` | `!=` | `=` | `<` | `>`, tried in that
/// order, so the two-character operators win over their one-character
/// prefixes.
pub fn match_operator(s: &str, pos: usize) -> (r: Option<usize>)
    requires
        pos <= s@.len(),
    ensures
        r matches Some(e) ==> model::operator_end(s@, pos as int) == Some(e as int),
        r is None ==> model::operator_end(s@, pos as int) is None,
        r matches Some(e) ==> pos < e <= s@.len(),
{
    let n: usize = s.unicode_len();
    if pos < n {
        let c = s.get_char(pos);
        if pos + 1 < n && (c == '>' || c == '<' || c == '!') && s.get_char(pos + 1) == '=' {
            Some(pos + 2)
        } else if c == '=' || c == '<' || c == '>' {
            Some(pos + 1)
        } else {
            None
        }
    } else {
        None
    }
}

/// The literal `lit` occurs in `s` at `pos`.
pub fn match_lit(s: &str, pos: usize, lit: &str) -> (r: Option<usize>)
    requires
        pos <= s@.len(),
    ensures
        r matches Some(e) ==> model::lit_end(s@, pos as int, lit@) == Some(e as int),
        r is None ==> model::lit_end(s@, pos as int, lit@) is None,
        r matches Some(e) ==> pos <= e <= s@.len(),
{
    let n: usize = s.unicode_len();
    let m: usize = lit.unicode_len();
    if m > n - pos || pos > n {
        assert(!model::lit_at(s@, pos as int, lit@));
        return None;
    }
    let mut i: usize = 0;
    let mut ok = true;
    while i < m
        invariant
            0 <= i <= m,
            m == lit@.len(),
            n == s@.len(),
            pos + m <= n,
            ok ==> s@.subrange(pos as int, pos + i) == lit@.subrange(0, i as int),
            !ok ==> !model::lit_at(s@, pos as int, lit@),
        decreases m - i,
    {
        if !ok {
            i = m;
        } else {
            if s.get_char(pos + i) == lit.get_char(i) {
                assert(s@.subrange(pos as int, pos + i + 1) =~= lit@.subrange(0, i + 1));
            } else {
                assert(!model::lit_at(s@, pos as int, lit@)) by {
                    if model::lit_at(s@, pos as int, lit@) {
                        assert(s@.subrange(pos as int, pos + m)[i as int] == lit@[i as int]);
                    }
                }
                ok = false;
            }
            i = i + 1;
        }
    }
    if ok {
        assert(s@.subrange(pos as int, pos + m) == lit@.subrange(0, m as int));
        assert(lit@.subrange(0, m as int) =~= lit@);
        Some(pos + m)
    } else {
        None
    }
}

/// A value: a `number` or a `string`, tried in that order.  On success also
/// reports which of the two rules matched.
pub fn match_value(s: &str, pos: usize) -> (r: Option<(usize, Rule)>)
    requires
        pos <= s@.len(),
    ensures
        r matches Some(p) ==> model::value_end(s@, pos as int) == Some(p.0 as int),
        r is None ==> model::value_end(s@, pos as int) is None,
        r matches Some(p) ==> pos < p.0 <= s@.len(),
        r matches Some(p) ==> (p.1 == Rule::Number || p.1 == Rule::StringLiteral)
            && model::rule_end(p.1, s@, pos as int) == Some(p.0 as int),
{
    proof {
        reveal(crate::model::rule_end);
    }
    match match_number(s, pos) {
        Some(e) => Some((e, Rule::Number)),
        None => match match_string(s, pos) {
            Some(e) => Some((e, Rule::StringLiteral)),
            None => None,
        },
    }
}

} // verus!
