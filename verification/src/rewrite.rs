//! The expression rewriter.
//!
//! Property values arrive from the parser with some parts wrapped in internal
//! marker syntax.  Before a value is spliced into a setter call the marker
//! syntax is stripped: each marked part is replaced by its bare text, and the
//! text of the expression is otherwise unchanged.

use vstd::prelude::*;
use crate::ast::{Expr, ExprPart, expr_chars, expr_chars_seq, expr_is_rewritten, part_chars};

verus! {

/// Appending a part to an expression appends that part's text.
proof fn lemma_expr_chars_push(parts: Seq<ExprPart>, p: ExprPart)
    ensures
        expr_chars_seq(parts.push(p)) == expr_chars_seq(parts) + part_chars(p),
    decreases parts,
{
    if parts.len() == 0 {
        reveal_with_fuel(expr_chars_seq, 2);
        assert(parts.push(p)[0] == p);
        assert(parts.push(p).drop_first() =~= Seq::<ExprPart>::empty());
        assert(expr_chars_seq(parts.push(p)) =~= part_chars(p));
        assert(expr_chars_seq(parts) + part_chars(p) =~= part_chars(p));
    } else {
        assert(parts.push(p).drop_first() =~= parts.drop_first().push(p));
        lemma_expr_chars_push(parts.drop_first(), p);
        assert(expr_chars_seq(parts.push(p)) =~= expr_chars_seq(parts) + part_chars(p));
    }
}

/// Strip the internal marker syntax from an expression: every marked part
/// becomes plain text, and the expression's text is unchanged.
pub fn rewrite(e: &Expr) -> (r: Expr)
    ensures
        expr_is_rewritten(r),
        expr_chars(r) == expr_chars(*e),
{
    let mut parts: Vec<ExprPart> = Vec::new();
    let mut i: usize = 0;
    while i < e.parts.len()
        invariant
            i <= e.parts@.len(),
            parts@.len() == i,
            forall|k: int| 0 <= k < i ==> !crate::ast::part_is_marked(#[trigger] parts@[k]),
            expr_chars_seq(parts@) == expr_chars_seq(e.parts@.take(i as int)),
        decreases e.parts@.len() - i,
    {
        let text = match &e.parts[i] {
            ExprPart::Text(s) => s.clone(),
            ExprPart::Marked(s) => s.clone(),
        };
        let part = ExprPart::Text(text);
        proof {
            lemma_expr_chars_push(parts@, part);
            lemma_expr_chars_push(e.parts@.take(i as int), e.parts@[i as int]);
            assert(e.parts@.take(i as int).push(e.parts@[i as int]) =~= e.parts@.take(i + 1));
            assert(part_chars(part) == part_chars(e.parts@[i as int]));
        }
        parts.push(part);
        i = i + 1;
    }
    proof {
        assert(e.parts@.take(e.parts@.len() as int) =~= e.parts@);
    }
    Expr { parts }
}

} // verus!
