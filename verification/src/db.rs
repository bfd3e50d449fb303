//! The storage connection: the schema, and the trusted boundary to the
//! embedded database engine.
//!
//! Every statement text is built by verified code; only the handful of
//! functions below, each wrapping one engine call, are trusted.

use vstd::prelude::*;
use crate::model::{Item, Tag};

verus! {

/// An error reported by the storage engine, as text.
#[derive(Debug)]
pub struct DbError {
    /// The engine's description of the failure.
    pub message: String,
}

#[verifier::external_type_specification]
#[verifier::external_body]
/// The storage engine's connection handle, opaque to the verifier.
pub struct ExConnection(rusqlite::Connection);

/// The schema of the item store: items, tags, the tag-item relation, and
/// the two scheduling views. An item is due once its stability, in days,
/// has passed since its last review.
pub open spec fn spec_schema_sql() -> Seq<char> {
    "create table item (\n  id integer primary key autoincrement,\n  maturity text not null default 'new',\n  stability real not null default 0,\n  difficulty real not null default 0,\n  last_review_date text not null default '1970-01-01T00:00:00Z',\n  n_reviews integer not null default 0,\n  n_lapses integer not null default 0,\n  model text not null,\n  data text not null,\n  updated_at text not null default (strftime('%Y-%m-%dT%H:%M:%SZ','now')),\n  created_at text not null default (strftime('%Y-%m-%dT%H:%M:%SZ','now'))\n);\ncreate table tag (\n  id integer primary key autoincrement,\n  name text not null unique,\n  updated_at text not null default (strftime('%Y-%m-%dT%H:%M:%SZ','now')),\n  created_at text not null default (strftime('%Y-%m-%dT%H:%M:%SZ','now'))\n);\ncreate table tag_item_map (\n  tag_id integer not null references tag(id) on delete cascade,\n  item_id integer not null references item(id) on delete cascade,\n  primary key (tag_id, item_id)\n);\ncreate view new_item as select * from item where maturity = 'new';\ncreate view due_item as select * from item\n  where maturity != 'new'\n  and julianday(last_review_date) + stability <= julianday('now');"@
}

/// The schema of the item store, as one batch of statements.
pub fn schema_sql() -> (r: &'static str)
    ensures
        r@ == spec_schema_sql(),
{
    "create table item (\n  id integer primary key autoincrement,\n  maturity text not null default 'new',\n  stability real not null default 0,\n  difficulty real not null default 0,\n  last_review_date text not null default '1970-01-01T00:00:00Z',\n  n_reviews integer not null default 0,\n  n_lapses integer not null default 0,\n  model text not null,\n  data text not null,\n  updated_at text not null default (strftime('%Y-%m-%dT%H:%M:%SZ','now')),\n  created_at text not null default (strftime('%Y-%m-%dT%H:%M:%SZ','now'))\n);\ncreate table tag (\n  id integer primary key autoincrement,\n  name text not null unique,\n  updated_at text not null default (strftime('%Y-%m-%dT%H:%M:%SZ','now')),\n  created_at text not null default (strftime('%Y-%m-%dT%H:%M:%SZ','now'))\n);\ncreate table tag_item_map (\n  tag_id integer not null references tag(id) on delete cascade,\n  item_id integer not null references item(id) on delete cascade,\n  primary key (tag_id, item_id)\n);\ncreate view new_item as select * from item where maturity = 'new';\ncreate view due_item as select * from item\n  where maturity != 'new'\n  and julianday(last_review_date) + stability <= julianday('now');"
}

/// The statement run when a connection is opened.
pub fn open_pragmas_sql() -> (r: &'static str)
    ensures
        r@ == "PRAGMA foreign_keys = ON;"@,
{
    "PRAGMA foreign_keys = ON;"
}

/// Relies on rusqlite's `Connection::execute_batch`: runs each statement
/// of the batch in order, reporting the engine's error text on failure.
#[verifier::external_body]
pub fn execute_batch(c: &mut rusqlite::Connection, sql: &str) -> (r: Result<(), DbError>) {
    match c.execute_batch(sql) {
        Ok(()) => Ok(()),
        Err(e) => Err(DbError { message: e.to_string() }),
    }
}

/// Relies on rusqlite's `Connection::execute`: runs one statement with the
/// given text parameters, returning the number of rows changed, or the
/// engine's error text.
#[verifier::external_body]
pub fn execute(c: &mut rusqlite::Connection, sql: &str, params: &Vec<String>) -> (r: Result<
    usize,
    DbError,
>) {
    match c.execute(sql, rusqlite::params_from_iter(params.iter())) {
        Ok(n) => Ok(n),
        Err(e) => Err(DbError { message: e.to_string() }),
    }
}

/// Relies on rusqlite's `Connection::prepare` and `Statement::query_map`:
/// runs the statement with the given text parameters and returns the first
/// column of each successfully read row, in row order.
#[verifier::external_body]
pub fn query_ids(c: &mut rusqlite::Connection, sql: &str, params: &Vec<String>) -> (r: Result<
    Vec<i32>,
    DbError,
>) {
    let mut stmt = c.prepare(sql).map_err(|e| DbError { message: e.to_string() })?;
    let rows = stmt.query_map(rusqlite::params_from_iter(params.iter()), |r| r.get(0)).map_err(
        |e| DbError { message: e.to_string() },
    )?;
    Ok(rows.filter_map(Result::ok).collect())
}

/// Relies on rusqlite's `Connection::prepare` and `Statement::query_map`:
/// runs the statement and reads each successfully read row as a [`Tag`],
/// from the columns `(id, name, updated_at, created_at)` in that order.
#[verifier::external_body]
pub fn query_tags(c: &mut rusqlite::Connection, sql: &str, params: &Vec<String>) -> (r: Result<
    Vec<Tag>,
    DbError,
>) {
    let mut stmt = c.prepare(sql).map_err(|e| DbError { message: e.to_string() })?;
    let rows = stmt.query_map(rusqlite::params_from_iter(params.iter()), |r| {
        Ok(Tag { id: r.get(0)?, name: r.get(1)?, updated_at: r.get(2)?, created_at: r.get(3)? })
    }).map_err(|e| DbError { message: e.to_string() })?;
    Ok(rows.filter_map(Result::ok).collect())
}

/// Relies on rusqlite's `Connection::prepare` and `Statement::query_map`:
/// runs the statement and reads each successfully read row as an [`Item`],
/// from the columns `(id, maturity, stability, difficulty,
/// last_review_date, n_reviews, n_lapses, model, data, updated_at,
/// created_at)` in that order.
#[verifier::external_body]
pub fn query_items(c: &mut rusqlite::Connection, sql: &str, params: &Vec<String>) -> (r: Result<
    Vec<Item>,
    DbError,
>) {
    let out = c.prepare(sql).and_then(|mut stmt| {
        Ok(stmt.query_map(rusqlite::params_from_iter(params.iter()), |r| {
            Ok(Item {
                id: r.get(0)?, maturity: r.get(1)?, stability: r.get(2)?, difficulty: r.get(3)?,
                last_review_date: r.get(4)?, n_reviews: r.get(5)?, n_lapses: r.get(6)?,
                model: r.get(7)?, data: r.get(8)?, updated_at: r.get(9)?, created_at: r.get(10)?,
            })
        })?.filter_map(Result::ok).collect())
    });
    out.map_err(|e| DbError { message: e.to_string() })
}

/// Applies the schema to a fresh database.
pub fn apply_schema(c: &mut rusqlite::Connection) -> (r: Result<(), DbError>) {
    execute_batch(c, schema_sql())
}

} // verus!
