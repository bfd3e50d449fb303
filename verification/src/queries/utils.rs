//! Lowering filter expressions into storage-engine predicates.

use vstd::prelude::*;
use crate::ast::{AstNode, SpecAst};

verus! {

/// True of the columns that hold timestamps: comparisons on them are
/// wrapped in the storage engine's date-normalizing function so that
/// string-encoded timestamps compare correctly.
pub open spec fn spec_is_temporal(column: Seq<char>) -> bool {
    column == "updated_at"@ || column == "created_at"@ || column == "last_review_date"@
}

/// A string literal with every single quote doubled, as the storage
/// dialect demands.
pub open spec fn spec_escape_quotes(s: Seq<char>) -> Seq<char>
    decreases s.len(),
{
    if s.len() == 0 {
        Seq::empty()
    } else {
        (if s[0] == '\'' {
            seq!['\'', '\'']
        } else {
            seq![s[0]]
        }) + spec_escape_quotes(s.drop_first())
    }
}

/// The predicate string a filter expression compiles to.
///
/// - A logical node becomes `(<lhs>) <AND|OR> (<rhs>)`.
/// - A comparison on a temporal column becomes
///   `datetime(<column>) <op> datetime(<value>)`; on any other column,
///   `<column> <op> <value>`.
/// - A string literal is single-quoted with its quotes escaped; booleans
///   render upper-case; integers and floats render as numeric literals.
pub open spec fn spec_filter_sql(a: SpecAst) -> Seq<char>
    decreases a,
{
    match a {
        SpecAst::LogicalFilter { lhs, op, rhs } => seq!['('] + spec_filter_sql(*lhs) + ") "@
            + op.spec_sql_str() + " ("@ + spec_filter_sql(*rhs) + seq![')'],
        SpecAst::ComparativeFilter { column, op, value } => if spec_is_temporal(column) {
            "datetime("@ + column + ") "@ + op.spec_sql_str() + " datetime("@ + spec_filter_sql(
                *value,
            ) + seq![')']
        } else {
            column + seq![' '] + op.spec_sql_str() + seq![' '] + spec_filter_sql(*value)
        },
        SpecAst::Identifier(i) => i,
        SpecAst::StringLit(s) => seq!['\''] + spec_escape_quotes(s) + seq!['\''],
        SpecAst::Integer(i) => crate::chars::spec_int_chars(i as int),
        SpecAst::Float(f) => f,
        SpecAst::Bool(b) => if b {
            "TRUE"@
        } else {
            "FALSE"@
        },
    }
}

/// A string with every single quote doubled.
fn escape_quotes(s: &str) -> (r: String)
    ensures
        r@ == spec_escape_quotes(s@),
{
    let v = crate::chars::str_to_chars(s);
    let mut out: Vec<char> = Vec::new();
    let n = v.len();
    assert(v@.skip(0) =~= v@);
    let mut i: usize = 0;
    while i < n
        invariant
            i <= n,
            n == v@.len(),
            v@ == s@,
            out@ + spec_escape_quotes(v@.skip(i as int)) == spec_escape_quotes(v@),
        decreases n - i,
    {
        let c = v[i];
        proof {
            assert(v@.skip(i as int).drop_first() =~= v@.skip(i as int + 1));
            assert(v@.skip(i as int)[0] == v@[i as int]);
        }
        if c == '\'' {
            out.push('\'');
            out.push('\'');
        } else {
            out.push(c);
        }
        assert(out@ + spec_escape_quotes(v@.skip(i as int + 1)) =~= spec_escape_quotes(v@));
        i += 1;
    }
    assert(v@.skip(n as int) =~= Seq::<char>::empty());
    assert(out@ =~= spec_escape_quotes(v@));
    crate::chars::chars_to_string(&out)
}

/// Compiles a filter expression into the predicate string of
/// [`spec_filter_sql`], ready to stand in a `WHERE` clause. The compiler
/// is total over well-formed trees, never executes a query, and has no
/// side effects.
pub fn filter_expr_to_sql(expr: &AstNode) -> (r: String)
    ensures
        r@ == spec_filter_sql(expr@),
    decreases expr,
{
    match expr {
        AstNode::LogicalFilter { lhs, op, rhs } => {
            let mut out = String::new();
            out.append("(");
            let l = filter_expr_to_sql(lhs);
            out.append(l.as_str());
            out.append(") ");
            out.append(op.sql_str());
            out.append(" (");
            let rr = filter_expr_to_sql(rhs);
            out.append(rr.as_str());
            out.append(")");
            proof {
                reveal_strlit("(");
                reveal_strlit(")");
            }
            assert(out@ =~= spec_filter_sql(expr@));
            out
        },
        AstNode::ComparativeFilter { column, op, value } => {
            let temporal = crate::chars::str_eq(column.as_str(), "updated_at")
                || crate::chars::str_eq(column.as_str(), "created_at") || crate::chars::str_eq(
                column.as_str(),
                "last_review_date",
            );
            let mut out = String::new();
            if temporal {
                out.append("datetime(");
                out.append(column.as_str());
                out.append(") ");
                out.append(op.sql_str());
                out.append(" datetime(");
                let v = filter_expr_to_sql(value);
                out.append(v.as_str());
                out.append(")");
                proof {
                    reveal_strlit(")");
                }
                assert(out@ =~= spec_filter_sql(expr@));
            } else {
                out.append(column.as_str());
                out.append(" ");
                out.append(op.sql_str());
                out.append(" ");
                let v = filter_expr_to_sql(value);
                out.append(v.as_str());
                proof {
                    reveal_strlit(" ");
                }
                assert(out@ =~= spec_filter_sql(expr@));
            }
            out
        },
        AstNode::Identifier(i) => {
            let mut out = String::new();
            out.append(i.as_str());
            out
        },
        AstNode::StringLit(s) => {
            let mut out = String::new();
            out.append("'");
            let e = escape_quotes(s.as_str());
            out.append(e.as_str());
            out.append("'");
            proof {
                reveal_strlit("'");
            }
            assert(out@ =~= spec_filter_sql(expr@));
            out
        },
        AstNode::Integer(i) => crate::chars::int_to_string(*i as i64),
        AstNode::Float(f) => {
            let mut out = String::new();
            out.append(f.as_str());
            out
        },
        AstNode::Bool(b) => {
            let mut out = String::new();
            if *b {
                out.append("TRUE");
            } else {
                out.append("FALSE");
            }
            out
        },
    }
}

} // verus!
