//! Tests of the supporting surface: help context, focus cycling,
//! configuration paths and the small utilities.

use spbased::api_config::{ClientConfig, ServerConfig};
use spbased::chars::int_to_string;
use spbased::config;
use spbased::help::HelpContext;
use spbased::lexer::Lexer;
use spbased::token::{Token, TokenKind};
use spbased::ui::{ActiveField, FocusedField};
use spbased::constants;
use spbased::status::ReviewItemStatus;

#[test]
fn init() {}

#[test]
fn help_context_collects_descriptions() {
    let mut ctx = HelpContext::new();
    assert_eq!(ctx.into_help_string(), "");
    ctx.update_desc_at_level("quit: q", 0);
    ctx.update_desc_at_level("add: a", 2);
    assert_eq!(ctx.into_help_string(), "quit: q, add: a");
    ctx.update_desc_at_level("ignored", 8);
    assert_eq!(ctx.into_help_string(), "quit: q, add: a");
}

#[test]
fn help_context_clears_below_level() {
    let mut ctx = HelpContext::new();
    ctx.update_desc_at_level("root", 0);
    ctx.update_desc_at_level("child", 1);
    ctx.update_desc_at_level("grandchild", 2);
    ctx.clear_below_level(1);
    assert_eq!(ctx.into_help_string(), "root, child");
    ctx.clear_below_level(0);
    assert_eq!(ctx.into_help_string(), "root");
}

#[test]
fn focused_field_cycles() {
    let mut f = FocusedField::Question;
    f.next();
    assert_eq!(f, FocusedField::Answer);
    f.next();
    assert_eq!(f, FocusedField::Tag);
    f.next();
    assert_eq!(f, FocusedField::Question);
    f.previous();
    assert_eq!(f, FocusedField::Tag);
}

#[test]
fn active_field_cycles() {
    let mut f = ActiveField::Search;
    f.down();
    assert_eq!(f, ActiveField::AllTags);
    f.down();
    assert_eq!(f, ActiveField::CardTags);
    f.up();
    assert_eq!(f, ActiveField::AllTags);
    f.up();
    assert_eq!(f, ActiveField::Search);
}

#[test]
fn config_paths() {
    assert_eq!(config::app_work_dir("/home/u"), "/home/u/.spbased");
    assert_eq!(
        config::config_file_path("/home/u/.spbased"),
        "/home/u/.spbased/config.toml"
    );
    assert_eq!(config::db_file_path("/home/u/.spbased"), "/home/u/.spbased/db.sqlite");
    let root = config::AppRoot::new("/srv".to_string());
    assert_eq!(root.root, "/srv");
    let cfg = config::AppConfig::new("/srv".to_string(), "/srv/db".to_string());
    assert_eq!(cfg.db_path, "/srv/db");
}

#[test]
fn front_end_paths() {
    assert_eq!(constants::project_name(), "spbased");
    assert_eq!(constants::data_dir_path("/data"), "/data/spbased");
    assert_eq!(constants::log_env(), "spbased_LOGLEVEL");
    assert_eq!(constants::log_dir_path("/data/spbased"), "/data/spbased/logs");
    assert_eq!(
        constants::log_file_path("/data/spbased"),
        "/data/spbased/logs/spbased.log"
    );
}

#[test]
fn client_config_merge_keeps_own_address() {
    let own = ClientConfig { server_address: "http://localhost:1".to_string() };
    let merged = own.merge(ClientConfig::new_default());
    assert_eq!(merged.server_address, "http://localhost:1");
}

#[test]
fn server_config_merge_fills_unset_fields() {
    let own = ServerConfig {
        server_address: "[::1]:9".to_string(),
        db_dir: None,
        db_name: Some("own.sqlite".to_string()),
    };
    let fallback = ServerConfig {
        server_address: "[::1]:1".to_string(),
        db_dir: Some("/var/data".to_string()),
        db_name: Some("fallback.sqlite".to_string()),
    };
    let merged = own.merge(fallback);
    assert_eq!(merged.server_address, "[::1]:9");
    assert_eq!(merged.db_dir.as_deref(), Some("/var/data"));
    assert_eq!(merged.db_name.as_deref(), Some("own.sqlite"));
}

#[test]
fn decimal_rendering() {
    assert_eq!(int_to_string(0), "0");
    assert_eq!(int_to_string(7), "7");
    assert_eq!(int_to_string(12345), "12345");
    assert_eq!(int_to_string(-5), "-5");
    assert_eq!(int_to_string(i64::MIN), "-9223372036854775808");
}

#[test]
fn token_constructors() {
    assert_eq!(Token::and(0, 3), Token::new(TokenKind::And, 0, 3));
    assert_eq!(Token::eof(4, 4), Token::new(TokenKind::EOF, 4, 4));
    assert_eq!(Token::invalid(1, 2).kind, TokenKind::Invalid);
    assert_eq!(Token::string(0, 5).kind, TokenKind::StringLit);
    assert_eq!(Token::integer(0, 2).kind, TokenKind::Integer);
    assert_eq!(Token::float(0, 3).kind, TokenKind::Float);
    assert_eq!(Token::boolean(0, 4).kind, TokenKind::Boolean);
    assert_eq!(Token::openparen(0, 1).kind, TokenKind::OpenParen);
    assert_eq!(Token::closeparen(1, 2).kind, TokenKind::CloseParen);
    assert_eq!(Token::or(0, 2).kind, TokenKind::Or);
    assert_eq!(Token::eq(0, 2).kind, TokenKind::Eq);
    assert_eq!(Token::neq(0, 2).kind, TokenKind::Neq);
    assert_eq!(Token::le(0, 1).kind, TokenKind::Le);
    assert_eq!(Token::leq(0, 2).kind, TokenKind::Leq);
    assert_eq!(Token::ge(0, 1).kind, TokenKind::Ge);
    assert_eq!(Token::geq(0, 2).kind, TokenKind::Geq);
}

#[test]
fn lexer_walks_tokens() {
    let mut lx = Lexer::init("id >= 10 and model == 'x'");
    let kinds = [
        TokenKind::Identifier,
        TokenKind::Geq,
        TokenKind::Integer,
        TokenKind::And,
        TokenKind::Identifier,
        TokenKind::Eq,
        TokenKind::StringLit,
    ];
    for expected in kinds {
        let t = lx.next().unwrap();
        assert_eq!(t.kind, expected);
    }
    assert!(lx.next().is_none());
}

#[test]
fn lexer_intertoken_space() {
    let mut lx = Lexer::init("   x");
    assert!(lx.intertoken_space());
    assert!(!lx.intertoken_space());
    let t = lx.next().unwrap();
    assert_eq!(t.kind, TokenKind::Identifier);
    assert_eq!((t.start, t.end), (3, 4));
}

#[test]
fn status_names() {
    assert_eq!(ReviewItemStatus::Inbox.name(), "inbox");
    assert_eq!(ReviewItemStatus::Review.name(), "review");
    assert_eq!(ReviewItemStatus::Burried.name(), "burried");
}
