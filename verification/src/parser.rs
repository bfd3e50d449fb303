//! The operator-precedence parser of the filter expression language.
//!
//! [`spec_parse`] is the mathematical parse of an input: tokenize it
//! ([`crate::lexer::spec_tokens`]), then run precedence climbing with the
//! binding strengths of [`Operator::spec_precedence`] (`or` below `and`
//! below the comparisons, all left-associative). The executable
//! [`FilterLangParser::parse`] returns exactly that result.

use vstd::prelude::*;
use crate::ast::{AstNode, Operator, SpecAst};
use crate::chars::{spec_digits_val, spec_is_digit};
use crate::lexer::{lex, spec_tokens, spec_token_at};
use crate::token::{Token, TokenKind};

verus! {

/// Why a filter string was rejected.
#[derive(Clone, Copy, PartialEq, Eq, Structural, Debug)]
pub enum ParseError {
    /// The input holds no token at all.
    Empty,
    /// A character sequence belongs to no token class, or a string literal
    /// is unterminated.
    InvalidToken,
    /// A token that cannot start an operand stands where one is expected.
    UnexpectedToken,
    /// The input ends where an operand is expected.
    UnexpectedEnd,
    /// A parenthesized group is not closed.
    UnbalancedParen,
    /// Tokens remain after a complete expression.
    TrailingInput,
    /// The operand shapes do not fit the operator: a logical operator
    /// demands two filters, a comparison demands a column and a literal.
    InvalidExpression,
    /// An integer literal exceeds the representable range.
    IntegerOutOfRange,
    /// The nesting budget of the parser was exhausted.
    Depth,
}

impl ParseError {
    /// A short description of the error.
    pub fn message(self) -> (r: &'static str)
        ensures
            r@.len() > 0,
    {
        let m = match self {
            ParseError::Empty => "empty filter expression",
            ParseError::InvalidToken => "invalid token",
            ParseError::UnexpectedToken => "unexpected token",
            ParseError::UnexpectedEnd => "unexpected end of input",
            ParseError::UnbalancedParen => "unbalanced parenthesis",
            ParseError::TrailingInput => "trailing input after expression",
            ParseError::InvalidExpression => "invalid expression",
            ParseError::IntegerOutOfRange => "integer literal out of range",
            ParseError::Depth => "expression nested too deeply",
        };
        proof {
            reveal_strlit("empty filter expression");
            reveal_strlit("invalid token");
            reveal_strlit("unexpected token");
            reveal_strlit("unexpected end of input");
            reveal_strlit("unbalanced parenthesis");
            reveal_strlit("trailing input after expression");
            reveal_strlit("invalid expression");
            reveal_strlit("integer literal out of range");
            reveal_strlit("expression nested too deeply");
        }
        m
    }
}

/// True of the token kinds that act as infix operators.
pub open spec fn spec_is_binop(k: TokenKind) -> bool {
    k == TokenKind::And || k == TokenKind::Or || k == TokenKind::Eq || k == TokenKind::Neq || k
        == TokenKind::Le || k == TokenKind::Leq || k == TokenKind::Ge || k == TokenKind::Geq
}

/// The operator denoted by an infix token kind.
pub open spec fn spec_op_of(k: TokenKind) -> Operator {
    match k {
        TokenKind::And => Operator::And,
        TokenKind::Or => Operator::Or,
        TokenKind::Eq => Operator::Eq,
        TokenKind::Neq => Operator::Neq,
        TokenKind::Le => Operator::Le,
        TokenKind::Leq => Operator::Leq,
        TokenKind::Ge => Operator::Ge,
        _ => Operator::Geq,
    }
}

/// The operator denoted by an infix token kind.
fn op_of(k: TokenKind) -> (r: Operator)
    requires
        spec_is_binop(k),
    ensures
        r == spec_op_of(k),
{
    match k {
        TokenKind::And => Operator::And,
        TokenKind::Or => Operator::Or,
        TokenKind::Eq => Operator::Eq,
        TokenKind::Neq => Operator::Neq,
        TokenKind::Le => Operator::Le,
        TokenKind::Leq => Operator::Leq,
        TokenKind::Ge => Operator::Ge,
        _ => Operator::Geq,
    }
}

/// The node combining two operands with an infix operator: a logical
/// operator demands two filters, a comparison demands a column on the left
/// and a literal on the right; anything else is an `InvalidExpression`.
pub open spec fn spec_combine(lhs: SpecAst, op: Operator, rhs: SpecAst) -> Result<
    SpecAst,
    ParseError,
> {
    if op.spec_is_logical() {
        if lhs.is_filter() && rhs.is_filter() {
            Ok(SpecAst::LogicalFilter { lhs: Box::new(lhs), op, rhs: Box::new(rhs) })
        } else {
            Err(ParseError::InvalidExpression)
        }
    } else {
        match lhs {
            SpecAst::Identifier(column) => if rhs.is_literal() {
                Ok(SpecAst::ComparativeFilter { column, op, value: Box::new(rhs) })
            } else {
                Err(ParseError::InvalidExpression)
            },
            _ => Err(ParseError::InvalidExpression),
        }
    }
}

/// Combines two operands with an infix operator.
fn combine(lhs: AstNode, op: Operator, rhs: AstNode) -> (r: Result<AstNode, ParseError>)
    ensures
        match r {
            Ok(node) => spec_combine(lhs@, op, rhs@) == Ok::<SpecAst, ParseError>(node@),
            Err(e) => spec_combine(lhs@, op, rhs@) == Err::<SpecAst, ParseError>(e),
        },
{
    let logical = match op {
        Operator::And | Operator::Or => true,
        _ => false,
    };
    if logical {
        let lhs_filter = match &lhs {
            AstNode::LogicalFilter { .. } | AstNode::ComparativeFilter { .. } => true,
            _ => false,
        };
        let rhs_filter = match &rhs {
            AstNode::LogicalFilter { .. } | AstNode::ComparativeFilter { .. } => true,
            _ => false,
        };
        if lhs_filter && rhs_filter {
            Ok(AstNode::LogicalFilter { lhs: Box::new(lhs), op, rhs: Box::new(rhs) })
        } else {
            Err(ParseError::InvalidExpression)
        }
    } else {
        let rhs_literal = match &rhs {
            AstNode::StringLit(_) | AstNode::Integer(_) | AstNode::Float(_) | AstNode::Bool(_)
                => true,
            _ => false,
        };
        match lhs {
            AstNode::Identifier(column) => if rhs_literal {
                Ok(AstNode::ComparativeFilter { column, op, value: Box::new(rhs) })
            } else {
                Err(ParseError::InvalidExpression)
            },
            _ => Err(ParseError::InvalidExpression),
        }
    }
}

/// The integer denoted by the digit span `[start, end)`, if it fits `i32`.
pub open spec fn spec_parse_int(s: Seq<char>, start: int, end: int) -> Result<i32, ParseError> {
    let v = spec_digits_val(s.subrange(start, end));
    if v <= i32::MAX {
        Ok(v as i32)
    } else {
        Err(ParseError::IntegerOutOfRange)
    }
}

/// Reads the integer denoted by the digit span `[start, end)`.
fn parse_int(chars: &Vec<char>, start: usize, end: usize) -> (r: Result<i32, ParseError>)
    requires
        start <= end <= chars@.len(),
        forall|k: int| start <= k < end ==> spec_is_digit(chars@[k]),
    ensures
        r == spec_parse_int(chars@, start as int, end as int),
{
    let ghost full = chars@.subrange(start as int, end as int);
    proof {
        assert(forall|k: int| 0 <= k < full.len() ==> spec_is_digit(full[k]));
    }
    let mut acc: u64 = 0;
    let mut i = start;
    while i < end
        invariant
            start <= i <= end <= chars@.len(),
            forall|k: int| start <= k < end ==> spec_is_digit(chars@[k]),
            full == chars@.subrange(start as int, end as int),
            acc == spec_digits_val(chars@.subrange(start as int, i as int)),
            acc <= i32::MAX,
        decreases end - i,
    {
        let c = chars[i];
        let d: u64 = (c as u32 as u64) - 48;
        proof {
            assert(spec_is_digit(chars@[i as int]));
            assert('0' <= c <= '9');
            assert(c as u32 >= 48 && c as u32 <= 57);
            let p = chars@.subrange(start as int, i as int);
            let q = chars@.subrange(start as int, (i + 1) as int);
            assert(q.drop_last() =~= p);
            assert(q.last() == chars@[i as int]);
        }
        let next: u64 = acc * 10 + d;
        if next > 0x7fff_ffff {
            proof {
                crate::chars::lemma_digits_val_prefix(full, i + 1 - start);
                assert(full.subrange(0, i + 1 - start) =~= chars@.subrange(
                    start as int,
                    (i + 1) as int,
                ));
            }
            return Err(ParseError::IntegerOutOfRange);
        }
        acc = next;
        i += 1;
    }
    assert(chars@.subrange(start as int, i as int) =~= full);
    Ok(acc as i32)
}

/// The operand starting at token `i`: a literal, an identifier, or a
/// parenthesized expression.
pub open spec fn spec_parse_atom(s: Seq<char>, toks: Seq<Token>, i: int, fuel: nat) -> Result<
    (SpecAst, int),
    ParseError,
>
    decreases fuel, 0int,
{
    if i < 0 || i >= toks.len() {
        Err(ParseError::UnexpectedEnd)
    } else {
        let t = toks[i];
        match t.kind {
            TokenKind::OpenParen => if fuel == 0 {
                Err(ParseError::Depth)
            } else {
                match spec_parse_expr(s, toks, i + 1, 1, (fuel - 1) as nat) {
                    Err(e) => Err(e),
                    Ok(p) => if p.1 < toks.len() && toks[p.1].kind == TokenKind::CloseParen {
                        Ok((p.0, p.1 + 1))
                    } else {
                        Err(ParseError::UnbalancedParen)
                    },
                }
            },
            TokenKind::Identifier => Ok(
                (SpecAst::Identifier(s.subrange(t.start as int, t.end as int)), i + 1),
            ),
            TokenKind::StringLit => Ok(
                (SpecAst::StringLit(s.subrange(t.start as int + 1, t.end as int - 1)), i + 1),
            ),
            TokenKind::Integer => match spec_parse_int(s, t.start as int, t.end as int) {
                Ok(v) => Ok((SpecAst::Integer(v), i + 1)),
                Err(e) => Err(e),
            },
            TokenKind::Float => Ok(
                (SpecAst::Float(s.subrange(t.start as int, t.end as int)), i + 1),
            ),
            TokenKind::Boolean => Ok(
                (SpecAst::Bool(s.subrange(t.start as int, t.end as int) == "true"@), i + 1),
            ),
            TokenKind::Invalid => Err(ParseError::InvalidToken),
            _ => Err(ParseError::UnexpectedToken),
        }
    }
}

/// Folds infix operators of binding strength at least `min_prec` onto
/// `lhs`, left-associatively.
pub open spec fn spec_parse_ops(
    s: Seq<char>,
    toks: Seq<Token>,
    lhs: SpecAst,
    i: int,
    min_prec: int,
    fuel: nat,
) -> Result<(SpecAst, int), ParseError>
    decreases fuel, 1int,
{
    if 0 <= i < toks.len() && spec_is_binop(toks[i].kind) && spec_op_of(
        toks[i].kind,
    ).spec_precedence() >= min_prec {
        let op = spec_op_of(toks[i].kind);
        if fuel == 0 {
            Err(ParseError::Depth)
        } else {
            match spec_parse_expr(s, toks, i + 1, op.spec_precedence() + 1, (fuel - 1) as nat) {
                Err(e) => Err(e),
                Ok(p) => match spec_combine(lhs, op, p.0) {
                    Err(e) => Err(e),
                    Ok(node) => spec_parse_ops(s, toks, node, p.1, min_prec, (fuel - 1) as nat),
                },
            }
        }
    } else {
        Ok((lhs, i))
    }
}

/// The expression starting at token `i`, consuming operators of binding
/// strength at least `min_prec`.
pub open spec fn spec_parse_expr(
    s: Seq<char>,
    toks: Seq<Token>,
    i: int,
    min_prec: int,
    fuel: nat,
) -> Result<(SpecAst, int), ParseError>
    decreases fuel, 2int,
{
    match spec_parse_atom(s, toks, i, fuel) {
        Err(e) => Err(e),
        Ok(p) => spec_parse_ops(s, toks, p.0, p.1, min_prec, fuel),
    }
}

/// The parse of a filter string: tokenize, parse one expression, and demand
/// that it consume the whole input.
pub open spec fn spec_parse(s: Seq<char>) -> Result<SpecAst, ParseError> {
    let toks = spec_tokens(s, 0);
    if toks.len() == 0 {
        Err(ParseError::Empty)
    } else {
        match spec_parse_expr(s, toks, 0, 1, (toks.len() + 1) as nat) {
            Err(e) => Err(e),
            Ok(p) => if p.1 == toks.len() {
                Ok(p.0)
            } else {
                Err(ParseError::TrailingInput)
            },
        }
    }
}

/// What the parser relies on of every token: it spans at least one
/// character of the input, a string literal includes its two quotes, and an
/// integer token holds digits only.
pub open spec fn wf_token(s: Seq<char>, t: Token) -> bool {
    &&& t.start < t.end <= s.len()
    &&& (t.kind == TokenKind::StringLit ==> t.start + 2 <= t.end)
    &&& (t.kind == TokenKind::Integer ==> forall|k: int|
        t.start <= k < t.end ==> spec_is_digit(s[k]))
}

/// All tokens of a stream are well-formed.
pub open spec fn wf_tokens(s: Seq<char>, toks: Seq<Token>) -> bool {
    forall|j: int| 0 <= j < toks.len() ==> wf_token(s, #[trigger] toks[j])
}

/// Every character scanned over by `spec_scan_digits` is a digit.
proof fn lemma_scan_digits_chars(s: Seq<char>, pos: int)
    requires
        0 <= pos <= s.len(),
    ensures
        forall|k: int|
            pos <= k < crate::lexer::spec_scan_digits(s, pos) ==> spec_is_digit(#[trigger] s[k]),
    decreases s.len() - pos,
{
    if pos < s.len() && spec_is_digit(s[pos]) {
        lemma_scan_digits_chars(s, pos + 1);
    }
}

/// The token read at a non-space position is well-formed.
proof fn lemma_token_at_wf(s: Seq<char>, pos: int)
    requires
        0 <= pos < s.len(),
        s.len() <= usize::MAX,
    ensures
        wf_token(s, spec_token_at(s, pos)),
{
    crate::lexer::lemma_token_at_bounds(s, pos);
    let c = s[pos];
    if c == '\'' {
        crate::lexer::lemma_scan_string_end_bounds(s, pos + 1);
    } else if spec_is_digit(c) {
        crate::lexer::lemma_scan_digits_bounds(s, pos + 1);
        lemma_scan_digits_chars(s, pos + 1);
        let e = crate::lexer::spec_scan_digits(s, pos + 1);
        if !(e < s.len() && s[e] == '.' && e + 1 < s.len() && spec_is_digit(s[e + 1])) {
            assert(forall|k: int| pos + 1 <= k < e ==> spec_is_digit(#[trigger] s[k]));
        }
    }
}

/// Every token of a tokenization is well-formed.
pub proof fn lemma_tokens_wf(s: Seq<char>, pos: int)
    requires
        0 <= pos <= s.len(),
        s.len() <= usize::MAX,
    ensures
        wf_tokens(s, spec_tokens(s, pos)),
    decreases s.len() - pos,
{
    crate::lexer::lemma_skip_spaces_bounds(s, pos);
    let p = crate::lexer::spec_skip_spaces(s, pos);
    if p < s.len() {
        let t = spec_token_at(s, p);
        lemma_token_at_wf(s, p);
        crate::lexer::lemma_token_at_bounds(s, p);
        lemma_tokens_wf(s, t.end as int);
        let rest = spec_tokens(s, t.end as int);
        assert(spec_tokens(s, pos) == seq![t] + rest);
        assert forall|j: int| 0 <= j < spec_tokens(s, pos).len() implies wf_token(
            s,
            #[trigger] spec_tokens(s, pos)[j],
        ) by {
            if j == 0 {
                assert(spec_tokens(s, pos)[0] == t);
            } else {
                assert(spec_tokens(s, pos)[j] == rest[j - 1]);
            }
        }
    }
}

/// A tokenization holds at most one token per character of input.
pub proof fn lemma_tokens_count(s: Seq<char>, pos: int)
    requires
        0 <= pos <= s.len(),
        s.len() <= usize::MAX,
    ensures
        spec_tokens(s, pos).len() <= s.len() - pos,
    decreases s.len() - pos,
{
    crate::lexer::lemma_skip_spaces_bounds(s, pos);
    let p = crate::lexer::spec_skip_spaces(s, pos);
    if p < s.len() {
        crate::lexer::lemma_token_at_bounds(s, p);
        let t = spec_token_at(s, p);
        lemma_tokens_count(s, t.end as int);
    }
}

/// Every operand the parser reads is well-formed.
proof fn lemma_parse_atom_wf(s: Seq<char>, toks: Seq<Token>, i: int, fuel: nat)
    ensures
        spec_parse_atom(s, toks, i, fuel) matches Ok(p) ==> p.0.wf(),
    decreases fuel, 0nat,
{
    if 0 <= i < toks.len() && toks[i].kind == TokenKind::OpenParen && fuel > 0 {
        lemma_parse_expr_wf(s, toks, i + 1, 1, (fuel - 1) as nat);
    }
}

/// Folding well-formed operands with infix operators yields well-formed
/// trees.
proof fn lemma_parse_ops_wf(
    s: Seq<char>,
    toks: Seq<Token>,
    lhs: SpecAst,
    i: int,
    min_prec: int,
    fuel: nat,
)
    requires
        lhs.wf(),
    ensures
        spec_parse_ops(s, toks, lhs, i, min_prec, fuel) matches Ok(p) ==> p.0.wf(),
    decreases fuel, 1nat,
{
    if 0 <= i < toks.len() && spec_is_binop(toks[i].kind) && spec_op_of(
        toks[i].kind,
    ).spec_precedence() >= min_prec && fuel > 0 {
        let op = spec_op_of(toks[i].kind);
        lemma_parse_expr_wf(s, toks, i + 1, op.spec_precedence() + 1, (fuel - 1) as nat);
        match spec_parse_expr(s, toks, i + 1, op.spec_precedence() + 1, (fuel - 1) as nat) {
            Ok(p) => match spec_combine(lhs, op, p.0) {
                Ok(node) => {
                    lemma_parse_ops_wf(s, toks, node, p.1, min_prec, (fuel - 1) as nat);
                },
                Err(_) => {},
            },
            Err(_) => {},
        }
    }
}

/// Every expression the parser reads is well-formed.
proof fn lemma_parse_expr_wf(s: Seq<char>, toks: Seq<Token>, i: int, min_prec: int, fuel: nat)
    ensures
        spec_parse_expr(s, toks, i, min_prec, fuel) matches Ok(p) ==> p.0.wf(),
    decreases fuel, 2nat,
{
    lemma_parse_atom_wf(s, toks, i, fuel);
    match spec_parse_atom(s, toks, i, fuel) {
        Ok(p) => {
            lemma_parse_ops_wf(s, toks, p.0, p.1, min_prec, fuel);
        },
        Err(_) => {},
    }
}

/// Parser soundness for the tree invariant: every successfully parsed
/// filter is well-formed — a logical node combines two filters with a
/// logical operator, and a comparison puts a column on the left and a
/// literal on the right.
pub proof fn lemma_parse_wf(s: Seq<char>)
    ensures
        spec_parse(s) matches Ok(a) ==> a.wf(),
{
    let toks = spec_tokens(s, 0);
    if toks.len() > 0 {
        lemma_parse_expr_wf(s, toks, 0, 1, (toks.len() + 1) as nat);
    }
}

/// Reads the operand starting at token `i`: exactly [`spec_parse_atom`].
fn parse_atom(chars: &Vec<char>, toks: &Vec<Token>, i: usize, fuel: usize) -> (r: Result<
    (AstNode, usize),
    ParseError,
>)
    requires
        wf_tokens(chars@, toks@),
        i <= toks@.len(),
    ensures
        ({
            let sr = spec_parse_atom(chars@, toks@, i as int, fuel as nat);
            match r {
                Ok(p) => sr matches Ok(sp) && p.0@ == sp.0 && p.1 == sp.1 && i < p.1
                    <= toks@.len(),
                Err(e) => sr matches Err(se) && se == e,
            }
        }),
    decreases fuel, 0nat,
{
    if i >= toks.len() {
        return Err(ParseError::UnexpectedEnd);
    }
    let t = toks[i];
    assert(wf_token(chars@, toks@[i as int]));
    match t.kind {
        TokenKind::OpenParen => {
            if fuel == 0 {
                return Err(ParseError::Depth);
            }
            match parse_expr(chars, toks, i + 1, 1, fuel - 1) {
                Err(e) => Err(e),
                Ok(p) => {
                    let (node, j) = p;
                    if j < toks.len() {
                        let close = toks[j];
                        if close.kind == TokenKind::CloseParen {
                            Ok((node, j + 1))
                        } else {
                            Err(ParseError::UnbalancedParen)
                        }
                    } else {
                        Err(ParseError::UnbalancedParen)
                    }
                },
            }
        },
        TokenKind::Identifier => {
            let name = crate::chars::span_to_string(chars, t.start, t.end);
            Ok((AstNode::Identifier(name), i + 1))
        },
        TokenKind::StringLit => {
            let contents = crate::chars::span_to_string(chars, t.start + 1, t.end - 1);
            Ok((AstNode::StringLit(contents), i + 1))
        },
        TokenKind::Integer => match parse_int(chars, t.start, t.end) {
            Ok(v) => Ok((AstNode::Integer(v), i + 1)),
            Err(e) => Err(e),
        },
        TokenKind::Float => {
            let text = crate::chars::span_to_string(chars, t.start, t.end);
            Ok((AstNode::Float(text), i + 1))
        },
        TokenKind::Boolean => {
            let b = crate::chars::span_matches(chars, t.start, t.end, "true");
            Ok((AstNode::Bool(b), i + 1))
        },
        TokenKind::Invalid => Err(ParseError::InvalidToken),
        _ => Err(ParseError::UnexpectedToken),
    }
}

/// Reads the expression starting at token `i`, consuming operators of
/// binding strength at least `min_prec`: exactly [`spec_parse_expr`].
fn parse_expr(chars: &Vec<char>, toks: &Vec<Token>, i: usize, min_prec: u32, fuel: usize) -> (r:
    Result<(AstNode, usize), ParseError>)
    requires
        wf_tokens(chars@, toks@),
        i <= toks@.len(),
    ensures
        ({
            let sr = spec_parse_expr(chars@, toks@, i as int, min_prec as int, fuel as nat);
            match r {
                Ok(p) => sr matches Ok(sp) && p.0@ == sp.0 && p.1 == sp.1 && i < p.1
                    <= toks@.len(),
                Err(e) => sr matches Err(se) && se == e,
            }
        }),
    decreases fuel, 1nat,
{
    let atom = parse_atom(chars, toks, i, fuel);
    let (mut lhs, mut j) = match atom {
        Err(e) => {
            return Err(e);
        },
        Ok(p) => p,
    };
    let ghost start_lhs = lhs@;
    let ghost start_j = j as int;
    let mut cur_fuel = fuel;
    loop
        invariant
            wf_tokens(chars@, toks@),
            i < j <= toks@.len(),
            cur_fuel <= fuel,
            spec_parse_ops(chars@, toks@, lhs@, j as int, min_prec as int, cur_fuel as nat)
                == spec_parse_expr(chars@, toks@, i as int, min_prec as int, fuel as nat),
        ensures
            ({
                let sr = spec_parse_expr(chars@, toks@, i as int, min_prec as int, fuel as nat);
                sr matches Ok(sp) && lhs@ == sp.0 && j == sp.1 && i < j <= toks@.len()
            }),
        decreases cur_fuel,
    {
        if j >= toks.len() {
            break ;
        }
        let t = toks[j];
        let is_op = match t.kind {
            TokenKind::And | TokenKind::Or | TokenKind::Eq | TokenKind::Neq | TokenKind::Le
                | TokenKind::Leq | TokenKind::Ge | TokenKind::Geq => true,
            _ => false,
        };
        if !is_op {
            break ;
        }
        let op = op_of(t.kind);
        let prec = op.precedence();
        if prec < min_prec {
            break ;
        }
        if cur_fuel == 0 {
            return Err(ParseError::Depth);
        }
        let rhs_r = parse_expr(chars, toks, j + 1, prec + 1, cur_fuel - 1);
        let (rhs, j2) = match rhs_r {
            Err(e) => {
                return Err(e);
            },
            Ok(p) => p,
        };
        let combined = combine(lhs, op, rhs);
        match combined {
            Err(e) => {
                return Err(e);
            },
            Ok(node) => {
                lhs = node;
                j = j2;
                cur_fuel = cur_fuel - 1;
            },
        }
    }
    Ok((lhs, j))
}

/// Parses a filter string, reporting a failure as its description: the
/// front end's entry into [`FilterLangParser::parse`].
pub fn ast_node(s: &str) -> (r: Result<AstNode, String>)
    requires
        s@.len() < usize::MAX,
    ensures
        match r {
            Ok(ast) => spec_parse(s@) matches Ok(sa) && ast@ == sa,
            Err(_) => spec_parse(s@) is Err,
        },
{
    match FilterLangParser::parse(s) {
        Ok(ast) => Ok(ast),
        Err(e) => Err(e.message().to_owned()),
    }
}

/// The parser of the filter expression language.
#[derive(Clone, Copy)]
pub struct FilterLangParser;

impl FilterLangParser {
    /// Parses a filter string into its syntax tree: exactly
    /// [`spec_parse`]. Empty and malformed inputs are rejected; there is no
    /// partial-success mode, and the parser is stateless.
    pub fn parse(input: &str) -> (r: Result<AstNode, ParseError>)
        requires
            input@.len() < usize::MAX,
        ensures
            match r {
                Ok(ast) => spec_parse(input@) matches Ok(sa) && ast@ == sa && ast@.wf(),
                Err(e) => spec_parse(input@) matches Err(se) && se == e,
            },
    {
        let chars = crate::chars::str_to_chars(input);
        let toks = lex(input);
        proof {
            lemma_tokens_wf(input@, 0);
            lemma_tokens_count(input@, 0);
            lemma_parse_wf(input@);
        }
        if toks.len() == 0 {
            return Err(ParseError::Empty);
        }
        let fuel = toks.len() + 1;
        match parse_expr(&chars, &toks, 0, 1, fuel) {
            Err(e) => Err(e),
            Ok(p) => {
                let (ast, j) = p;
                if j == toks.len() {
                    Ok(ast)
                } else {
                    Err(ParseError::TrailingInput)
                }
            },
        }
    }
}

} // verus!
