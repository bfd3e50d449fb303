//! String templates for dynamically generated queries.

use vstd::prelude::*;

verus! {

/// `n` placeholders separated by commas: `?,?,...,?`; empty for `n == 0`.
pub open spec fn spec_vars(n: int) -> Seq<char>
    decreases n,
{
    if n <= 0 {
        Seq::empty()
    } else if n == 1 {
        seq!['?']
    } else {
        spec_vars(n - 1) + seq![',', '?']
    }
}

/// `n_rows` parenthesized rows of `n_cols` placeholders each, separated by
/// commas: `(?,...,?),...,(?,...,?)`; empty for `n_rows == 0`.
pub open spec fn spec_values(n_cols: int, n_rows: int) -> Seq<char>
    decreases n_rows,
{
    if n_rows <= 0 {
        Seq::empty()
    } else if n_rows == 1 {
        seq!['('] + spec_vars(n_cols) + seq![')']
    } else {
        spec_values(n_cols, n_rows - 1) + seq![','] + (seq!['('] + spec_vars(n_cols) + seq![')'])
    }
}

/// The placeholder list `?,?,...,?` with `n` entries.
pub fn vars(n: usize) -> (r: String)
    ensures
        r@ == spec_vars(n as int),
{
    let mut out = String::new();
    if n == 0 {
        return out;
    }
    out.append("?");
    proof {
        reveal_strlit("?");
    }
    assert(out@ =~= spec_vars(1));
    let mut k: usize = 1;
    while k < n
        invariant
            1 <= k <= n,
            out@ == spec_vars(k as int),
        decreases n - k,
    {
        out.append(",?");
        proof {
            reveal_strlit("?");
            reveal_strlit(",?");
        }
        assert(out@ =~= spec_vars((k + 1) as int));
        k += 1;
    }
    out
}

/// The row-template `(?,...,?),...,(?,...,?)` for `n_rows` rows of
/// `n_cols` placeholders each.
pub fn values(n_cols: usize, n_rows: usize) -> (r: String)
    ensures
        r@ == spec_values(n_cols as int, n_rows as int),
{
    let mut out = String::new();
    if n_rows == 0 {
        return out;
    }
    let inner = vars(n_cols);
    let mut row = String::new();
    row.append("(");
    row.append(inner.as_str());
    row.append(")");
    proof {
        reveal_strlit("(");
        reveal_strlit(")");
    }
    assert(row@ =~= seq!['('] + spec_vars(n_cols as int) + seq![')']);
    out.append(row.as_str());
    assert(out@ =~= spec_values(n_cols as int, 1));
    let mut k: usize = 1;
    while k < n_rows
        invariant
            1 <= k <= n_rows,
            row@ == seq!['('] + spec_vars(n_cols as int) + seq![')'],
            out@ == spec_values(n_cols as int, k as int),
        decreases n_rows - k,
    {
        out.append(",");
        out.append(row.as_str());
        proof {
            reveal_strlit(",");
        }
        assert(out@ =~= spec_values(n_cols as int, (k + 1) as int));
        k += 1;
    }
    out
}

} // verus!
