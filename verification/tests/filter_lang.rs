//! Tests of the filter language: lexer, parser, and predicate compiler.

use spbased::ast::{AstNode, Operator};
use spbased::parser::{ast_node, FilterLangParser, ParseError};
use spbased::queries::template;
use spbased::queries::utils::filter_expr_to_sql;
use spbased::ast::Operator as Op;

fn test_ast_node_parser(expr: &str, expected: AstNode) {
    let actual = FilterLangParser::parse(expr).unwrap();
    assert_eq!(actual, expected);
}

#[test]
fn test_parser() {
    test_ast_node_parser(
        "id == 3",
        AstNode::comparative_filter("id", Op::Eq, AstNode::integer(3)),
    );
    test_ast_node_parser(
        "data != 'hello'",
        AstNode::comparative_filter("data", Op::Neq, AstNode::string("hello")),
    );
    test_ast_node_parser(
        "id == 1 && model == 'flashcard'",
        AstNode::logical_filter(
            AstNode::comparative_filter("id", Op::Eq, AstNode::integer(1)),
            Op::And,
            AstNode::comparative_filter("model", Op::Eq, AstNode::string("flashcard")),
        ),
    );
}

#[test]
fn parser_precedence() {
    // `and` binds tighter than `or`.
    test_ast_node_parser(
        "a == 1 or b == 2 and c == 3",
        AstNode::logical_filter(
            AstNode::comparative_filter("a", Op::Eq, AstNode::integer(1)),
            Op::Or,
            AstNode::logical_filter(
                AstNode::comparative_filter("b", Op::Eq, AstNode::integer(2)),
                Op::And,
                AstNode::comparative_filter("c", Op::Eq, AstNode::integer(3)),
            ),
        ),
    );
}

#[test]
fn parser_parentheses() {
    test_ast_node_parser(
        "(a == 1 or b == 2) and c == 3",
        AstNode::logical_filter(
            AstNode::logical_filter(
                AstNode::comparative_filter("a", Op::Eq, AstNode::integer(1)),
                Op::Or,
                AstNode::comparative_filter("b", Op::Eq, AstNode::integer(2)),
            ),
            Op::And,
            AstNode::comparative_filter("c", Op::Eq, AstNode::integer(3)),
        ),
    );
}

#[test]
fn parser_left_associative() {
    test_ast_node_parser(
        "a == 1 and b == 2 and c == 3",
        AstNode::logical_filter(
            AstNode::logical_filter(
                AstNode::comparative_filter("a", Op::Eq, AstNode::integer(1)),
                Op::And,
                AstNode::comparative_filter("b", Op::Eq, AstNode::integer(2)),
            ),
            Op::And,
            AstNode::comparative_filter("c", Op::Eq, AstNode::integer(3)),
        ),
    );
}

#[test]
fn parser_literals() {
    test_ast_node_parser(
        "stability > 1.5",
        AstNode::comparative_filter("stability", Op::Ge, AstNode::float("1.5")),
    );
    test_ast_node_parser(
        "flagged == true",
        AstNode::comparative_filter("flagged", Op::Eq, AstNode::bool(true)),
    );
    test_ast_node_parser(
        "flagged == false",
        AstNode::comparative_filter("flagged", Op::Eq, AstNode::bool(false)),
    );
}

#[test]
fn parser_errors() {
    assert_eq!(FilterLangParser::parse(""), Err(ParseError::Empty));
    assert_eq!(FilterLangParser::parse("   "), Err(ParseError::Empty));
    assert_eq!(FilterLangParser::parse("id =="), Err(ParseError::UnexpectedEnd));
    assert_eq!(
        FilterLangParser::parse("data == 'unterminated"),
        Err(ParseError::InvalidToken)
    );
    assert_eq!(
        FilterLangParser::parse("1 == 2"),
        Err(ParseError::InvalidExpression)
    );
    assert_eq!(
        FilterLangParser::parse("id == 1 or true"),
        Err(ParseError::InvalidExpression)
    );
    assert_eq!(
        FilterLangParser::parse("(id == 1"),
        Err(ParseError::UnbalancedParen)
    );
    assert_eq!(
        FilterLangParser::parse("id == 1 model"),
        Err(ParseError::TrailingInput)
    );
    assert_eq!(
        FilterLangParser::parse("id == 99999999999"),
        Err(ParseError::IntegerOutOfRange)
    );
    assert_eq!(FilterLangParser::parse("@"), Err(ParseError::InvalidToken));
    assert_eq!(FilterLangParser::parse("id @ 3"), Err(ParseError::TrailingInput));
    assert_eq!(FilterLangParser::parse(")"), Err(ParseError::UnexpectedToken));
}

#[test]
fn parser_front_end_entry() {
    assert!(ast_node("id == 3").is_ok());
    let err = ast_node("id ==").unwrap_err();
    assert!(!err.is_empty());
}

#[test]
fn parser_round_trip() {
    let ast = FilterLangParser::parse("id == 1 and model == 'flashcard'").unwrap();
    assert_eq!(
        filter_expr_to_sql(&ast),
        "(id == 1) AND (model == 'flashcard')".to_string()
    );
}

#[test]
fn temporal_lowering() {
    let ast = FilterLangParser::parse("created_at >= '2024-11-13'").unwrap();
    assert_eq!(
        filter_expr_to_sql(&ast),
        "datetime(created_at) >= datetime('2024-11-13')".to_string()
    );
}

#[test]
fn filter_expr_to_sql_test() {
    let ast = AstNode::logical_filter(
        AstNode::comparative_filter("id", Op::Le, AstNode::integer(3)),
        Op::And,
        AstNode::comparative_filter("created_at", Op::Ge, AstNode::string("2024-11-13")),
    );
    assert_eq!(
        filter_expr_to_sql(&ast),
        "(id < 3) AND (datetime(created_at) > datetime('2024-11-13'))".to_string()
    );
}

#[test]
fn filter_expr_to_sql_test2() {
    let ast = AstNode::logical_filter(
        AstNode::comparative_filter("id", Op::Eq, AstNode::integer(1)),
        Op::And,
        AstNode::comparative_filter("model", Op::Eq, AstNode::string("flashcard")),
    );
    assert_eq!(
        filter_expr_to_sql(&ast),
        "(id == 1) AND (model == 'flashcard')".to_string()
    );
}

#[test]
fn compile_literals() {
    assert_eq!(
        filter_expr_to_sql(&AstNode::comparative_filter(
            "n_reviews",
            Op::Ge,
            AstNode::integer(-7)
        )),
        "n_reviews > -7".to_string()
    );
    assert_eq!(
        filter_expr_to_sql(&AstNode::comparative_filter(
            "flagged",
            Op::Eq,
            AstNode::bool(true)
        )),
        "flagged == TRUE".to_string()
    );
    assert_eq!(
        filter_expr_to_sql(&AstNode::comparative_filter(
            "flagged",
            Op::Neq,
            AstNode::bool(false)
        )),
        "flagged != FALSE".to_string()
    );
    assert_eq!(
        filter_expr_to_sql(&AstNode::comparative_filter(
            "stability",
            Op::Ge,
            AstNode::float("1.5")
        )),
        "stability > 1.5".to_string()
    );
}

#[test]
fn compile_escapes_quotes() {
    assert_eq!(
        filter_expr_to_sql(&AstNode::comparative_filter(
            "data",
            Op::Eq,
            AstNode::string("O'Brien")
        )),
        "data == 'O''Brien'".to_string()
    );
}

#[test]
fn template_vars() {
    assert_eq!(template::vars(0), "".to_string());
    assert_eq!(template::vars(1), "?".to_string());
    assert_eq!(template::vars(3), "?,?,?".to_string());
}

#[test]
fn template_values() {
    assert_eq!(template::values(1, 0), "".to_string());
    assert_eq!(template::values(1, 1), "(?)".to_string());
    assert_eq!(template::values(2, 3), "(?,?),(?,?),(?,?)".to_string());
}
