//! Queries that drive the review flow: fetching the next new or due item,
//! counting them, and writing scheduling results back.

use vstd::prelude::*;
use crate::ast::AstNode;
use crate::db::{self, DbError};
use crate::maturity::Maturity;
use crate::model::Item;
use crate::queries::item::item_columns;
use crate::queries::utils;

verus! {

/// The text of a `select` from the given scheduling view, narrowed by the
/// optional filter expression, fetching at most one item.
fn study_sql(view: &str, filter_expr: Option<&AstNode>) -> (r: String)
    ensures
        match filter_expr {
            Some(expr) => r@ == "select "@ + "id, maturity, cast(stability as text), cast(difficulty as text), last_review_date, n_reviews, n_lapses, model, data, updated_at, created_at"@
                + " from "@ + view@ + " where "@ + utils::spec_filter_sql(expr@) + " limit 1"@,
            None => r@ == "select "@ + "id, maturity, cast(stability as text), cast(difficulty as text), last_review_date, n_reviews, n_lapses, model, data, updated_at, created_at"@
                + " from "@ + view@ + " limit 1"@,
        },
{
    let mut sql = String::new();
    sql.append("select ");
    sql.append(item_columns());
    sql.append(" from ");
    sql.append(view);
    match filter_expr {
        Some(expr) => {
            sql.append(" where ");
            let pred = utils::filter_expr_to_sql(expr);
            sql.append(pred.as_str());
        },
        None => {},
    }
    sql.append(" limit 1");
    sql
}

/// The next new item matching the optional filter, if any.
pub fn study_new(c: &mut rusqlite::Connection, filter_expr: Option<AstNode>) -> (r: Result<
    Option<Item>,
    DbError,
>) {
    let sql = study_sql("new_item", filter_expr.as_ref());
    let params: Vec<String> = Vec::new();
    let mut items = match db::query_items(c, sql.as_str(), &params) {
        Ok(items) => items,
        Err(e) => {
            return Err(e);
        },
    };
    if items.len() == 0 {
        Ok(None)
    } else {
        Ok(Some(items.remove(0)))
    }
}

/// The next due item matching the optional filter, if any.
pub fn study_due(c: &mut rusqlite::Connection, filter_expr: Option<AstNode>) -> (r: Result<
    Option<Item>,
    DbError,
>) {
    let sql = study_sql("due_item", filter_expr.as_ref());
    let params: Vec<String> = Vec::new();
    let mut items = match db::query_items(c, sql.as_str(), &params) {
        Ok(items) => items,
        Err(e) => {
            return Err(e);
        },
    };
    if items.len() == 0 {
        Ok(None)
    } else {
        Ok(Some(items.remove(0)))
    }
}

/// The text of a `count(*)` over the given scheduling view, narrowed by
/// the optional filter expression.
fn count_sql(view: &str, filter_expr: Option<&AstNode>) -> (r: String)
    ensures
        match filter_expr {
            Some(expr) => r@ == "select count(*) from "@ + view@ + " where "@
                + utils::spec_filter_sql(expr@),
            None => r@ == "select count(*) from "@ + view@,
        },
{
    let mut sql = String::new();
    sql.append("select count(*) from ");
    sql.append(view);
    match filter_expr {
        Some(expr) => {
            sql.append(" where ");
            let pred = utils::filter_expr_to_sql(expr);
            sql.append(pred.as_str());
        },
        None => {},
    }
    sql
}

/// How many items are due, among those matching the optional filter.
pub fn query_n_due(c: &mut rusqlite::Connection, filter_expr: Option<AstNode>) -> (r: Result<
    i32,
    DbError,
>) {
    let sql = count_sql("due_item", filter_expr.as_ref());
    let params: Vec<String> = Vec::new();
    let counts = match db::query_ids(c, sql.as_str(), &params) {
        Ok(counts) => counts,
        Err(e) => {
            return Err(e);
        },
    };
    if counts.len() == 0 {
        return Err(DbError { message: "could not retrieve due count".to_owned() });
    }
    Ok(counts[0])
}

/// How many items are new, among those matching the optional filter.
pub fn query_n_new(c: &mut rusqlite::Connection, filter_expr: Option<AstNode>) -> (r: Result<
    i32,
    DbError,
>) {
    let sql = count_sql("new_item", filter_expr.as_ref());
    let params: Vec<String> = Vec::new();
    let counts = match db::query_ids(c, sql.as_str(), &params) {
        Ok(counts) => counts,
        Err(e) => {
            return Err(e);
        },
    };
    if counts.len() == 0 {
        return Err(DbError { message: "could not retrieve new count".to_owned() });
    }
    Ok(counts[0])
}

/// Moves the review counter of item `id` by one.
pub fn increment_n_reviews(c: &mut rusqlite::Connection, id: i32) -> (r: Result<(), DbError>) {
    let mut sql = String::new();
    sql.append("update item set n_reviews = n_reviews + 1 where id = ");
    let id_text = crate::chars::int_to_string(id as i64);
    sql.append(id_text.as_str());
    let params: Vec<String> = Vec::new();
    match db::execute(c, sql.as_str(), &params) {
        Ok(_) => Ok(()),
        Err(e) => Err(e),
    }
}

/// Moves the lapse counter of item `id` by one.
pub fn increment_n_lapses(c: &mut rusqlite::Connection, id: i32) -> (r: Result<(), DbError>) {
    let mut sql = String::new();
    sql.append("update item set n_lapses = n_lapses + 1 where id = ");
    let id_text = crate::chars::int_to_string(id as i64);
    sql.append(id_text.as_str());
    let params: Vec<String> = Vec::new();
    match db::execute(c, sql.as_str(), &params) {
        Ok(_) => Ok(()),
        Err(e) => Err(e),
    }
}

/// Sets the learning stage of item `id`.
pub fn set_maturity(c: &mut rusqlite::Connection, id: i32, maturity: Maturity) -> (r: Result<
    (),
    DbError,
>) {
    let mut params: Vec<String> = Vec::new();
    params.push(maturity.sql_str().to_owned());
    let mut sql = String::new();
    sql.append("update item set maturity = ?1 where id = ");
    let id_text = crate::chars::int_to_string(id as i64);
    sql.append(id_text.as_str());
    match db::execute(c, sql.as_str(), &params) {
        Ok(_) => Ok(()),
        Err(e) => Err(e),
    }
}

/// Stores a grading result: the new stability and difficulty numerals and
/// the review-date stamp of item `id`.
pub fn set_sra_params(
    c: &mut rusqlite::Connection,
    id: i32,
    stability: &str,
    difficulty: &str,
    review_date: &str,
) -> (r: Result<(), DbError>) {
    let mut params: Vec<String> = Vec::new();
    params.push(stability.to_owned());
    params.push(difficulty.to_owned());
    params.push(review_date.to_owned());
    let mut sql = String::new();
    sql.append(
        "update item set stability = ?1, difficulty = ?2, last_review_date = ?3 where id = ",
    );
    let id_text = crate::chars::int_to_string(id as i64);
    sql.append(id_text.as_str());
    match db::execute(c, sql.as_str(), &params) {
        Ok(_) => Ok(()),
        Err(e) => Err(e),
    }
}

} // verus!
