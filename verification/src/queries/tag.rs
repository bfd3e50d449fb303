//! Queries over tags.

use vstd::prelude::*;
use crate::ast::AstNode;
use crate::db::{self, DbError};
use crate::model::Tag;
use crate::queries::utils;

verus! {

/// Inserts a new tag and returns its identifier; inserting a name that is
/// already present is an error.
pub fn add(c: &mut rusqlite::Connection, tag: &str) -> (r: Result<i32, DbError>) {
    let mut params: Vec<String> = Vec::new();
    params.push(tag.to_owned());
    let ids = match db::query_ids(c, "insert into tag (name) values (?1) returning id", &params) {
        Ok(ids) => ids,
        Err(e) => {
            return Err(e);
        },
    };
    if ids.len() == 0 {
        return Err(DbError { message: "insertion of tag did not return any result".to_owned() });
    }
    Ok(ids[0])
}

/// Renames the tag called `old_name` to `name`.
pub fn edit(c: &mut rusqlite::Connection, old_name: &str, name: &str) -> (r: Result<(), DbError>) {
    let mut params: Vec<String> = Vec::new();
    params.push(name.to_owned());
    params.push(old_name.to_owned());
    match db::execute(c, "update tag set name = ?1 where name = ?2", &params) {
        Ok(_) => Ok(()),
        Err(e) => Err(e),
    }
}

/// Reads tag `id`; an unknown identifier is an error.
pub fn get(c: &mut rusqlite::Connection, id: i32) -> (r: Result<Tag, DbError>) {
    let mut sql = String::new();
    sql.append("select * from tag where id = ");
    let id_text = crate::chars::int_to_string(id as i64);
    sql.append(id_text.as_str());
    let params: Vec<String> = Vec::new();
    let mut tags = match db::query_tags(c, sql.as_str(), &params) {
        Ok(tags) => tags,
        Err(e) => {
            return Err(e);
        },
    };
    if tags.len() == 0 {
        return Err(DbError { message: "sql query did not return any result".to_owned() });
    }
    Ok(tags.remove(0))
}

/// The tags matching the optional filter expression.
pub fn query(c: &mut rusqlite::Connection, filter_expr: Option<AstNode>) -> (r: Result<
    Vec<Tag>,
    DbError,
>) {
    let mut sql = String::new();
    sql.append("select * from tag");
    match &filter_expr {
        Some(expr) => {
            sql.append(" where ");
            let pred = utils::filter_expr_to_sql(expr);
            sql.append(pred.as_str());
        },
        None => {},
    }
    let params: Vec<String> = Vec::new();
    db::query_tags(c, sql.as_str(), &params)
}

} // verus!
