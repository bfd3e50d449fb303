//! Queries over review items.

use vstd::prelude::*;
use crate::ast::AstNode;
use crate::db::{self, DbError};
use crate::model::{Item, Tag};
use crate::queries::template;
use crate::queries::utils;

verus! {

/// The column list under which an [`Item`] row is read: the stored
/// numerals travel as text.
pub fn item_columns() -> (r: &'static str)
    ensures
        r@
            == "id, maturity, cast(stability as text), cast(difficulty as text), last_review_date, n_reviews, n_lapses, model, data, updated_at, created_at"@,
{
    "id, maturity, cast(stability as text), cast(difficulty as text), last_review_date, n_reviews, n_lapses, model, data, updated_at, created_at"
}

/// Inserts the tags into the tag table (ignoring those already present)
/// and maps each of them onto item `item_id`.
fn attach_tags(c: &mut rusqlite::Connection, item_id: i32, tags: &Vec<String>) -> (r: Result<
    (),
    DbError,
>) {
    let mut sql = String::new();
    sql.append("insert or ignore into tag (name) values ");
    let v = template::values(1, tags.len());
    sql.append(v.as_str());
    match db::execute(c, sql.as_str(), tags) {
        Ok(_) => {},
        Err(e) => {
            return Err(e);
        },
    }
    let mut id_sql = String::new();
    id_sql.append("select id from tag where name in (");
    let vs = template::vars(tags.len());
    id_sql.append(vs.as_str());
    id_sql.append(")");
    let tag_ids = match db::query_ids(c, id_sql.as_str(), tags) {
        Ok(ids) => ids,
        Err(e) => {
            return Err(e);
        },
    };
    let mut pairs: Vec<String> = Vec::new();
    let mut i: usize = 0;
    let n = tag_ids.len();
    while i < n
        invariant
            i <= n,
            n == tag_ids@.len(),
        decreases n - i,
    {
        pairs.push(crate::chars::int_to_string(tag_ids[i] as i64));
        pairs.push(crate::chars::int_to_string(item_id as i64));
        i += 1;
    }
    let mut map_sql = String::new();
    map_sql.append("insert or ignore into tag_item_map (tag_id, item_id) values ");
    let mv = template::values(2, tag_ids.len());
    map_sql.append(mv.as_str());
    match db::execute(c, map_sql.as_str(), &pairs) {
        Ok(_) => Ok(()),
        Err(e) => Err(e),
    }
}

/// Inserts a new item with the given model and payload, maps the given
/// tags onto it, and returns the new item's identifier.
pub fn add(c: &mut rusqlite::Connection, model: &str, data: &str, tags: &Vec<String>) -> (r:
    Result<i32, DbError>)
{
    let mut params: Vec<String> = Vec::new();
    params.push(model.to_owned());
    params.push(data.to_owned());
    let ids = match db::query_ids(
        c,
        "insert into item (model,data) values (?,?) returning id",
        &params,
    ) {
        Ok(ids) => ids,
        Err(e) => {
            return Err(e);
        },
    };
    if ids.len() == 0 {
        return Err(
            DbError { message: "insertion of item did not return any result".to_owned() },
        );
    }
    let item_id = ids[0];
    if tags.len() > 0 {
        match attach_tags(c, item_id, tags) {
            Ok(()) => {},
            Err(e) => {
                return Err(e);
            },
        }
    }
    Ok(item_id)
}

/// Replaces the model tag of item `id`.
pub fn edit_model(c: &mut rusqlite::Connection, id: i32, model: &str) -> (r: Result<(), DbError>) {
    let mut params: Vec<String> = Vec::new();
    params.push(model.to_owned());
    let mut sql = String::new();
    sql.append("update item set model = ?1 where id = ");
    let id_text = crate::chars::int_to_string(id as i64);
    sql.append(id_text.as_str());
    match db::execute(c, sql.as_str(), &params) {
        Ok(_) => Ok(()),
        Err(e) => Err(e),
    }
}

/// Replaces the payload of item `id`.
pub fn edit_data(c: &mut rusqlite::Connection, id: i32, data: &str) -> (r: Result<(), DbError>) {
    let mut params: Vec<String> = Vec::new();
    params.push(data.to_owned());
    let mut sql = String::new();
    sql.append("update item set data = ?1 where id = ");
    let id_text = crate::chars::int_to_string(id as i64);
    sql.append(id_text.as_str());
    match db::execute(c, sql.as_str(), &params) {
        Ok(_) => Ok(()),
        Err(e) => Err(e),
    }
}

/// The tags mapped onto item `id`, in insertion order.
pub fn get_tags(c: &mut rusqlite::Connection, id: i32) -> (r: Result<Vec<Tag>, DbError>) {
    let mut sql = String::new();
    sql.append("select * from tag where id in (select tag_id from tag_item_map where item_id = ");
    let id_text = crate::chars::int_to_string(id as i64);
    sql.append(id_text.as_str());
    sql.append(")");
    let params: Vec<String> = Vec::new();
    db::query_tags(c, sql.as_str(), &params)
}

/// Maps the given tags onto item `id`, creating missing tags.
pub fn add_tags(c: &mut rusqlite::Connection, id: i32, tags: &Vec<String>) -> (r: Result<
    (),
    DbError,
>) {
    attach_tags(c, id, tags)
}

/// Unmaps the given tags from item `id`.
pub fn remove_tags(c: &mut rusqlite::Connection, id: i32, tags: &Vec<String>) -> (r: Result<
    (),
    DbError,
>) {
    let mut id_sql = String::new();
    id_sql.append("select id from tag where name in (");
    let vs = template::vars(tags.len());
    id_sql.append(vs.as_str());
    id_sql.append(")");
    let tag_ids = match db::query_ids(c, id_sql.as_str(), tags) {
        Ok(ids) => ids,
        Err(e) => {
            return Err(e);
        },
    };
    let mut params: Vec<String> = Vec::new();
    let mut i: usize = 0;
    let n = tag_ids.len();
    while i < n
        invariant
            i <= n,
            n == tag_ids@.len(),
        decreases n - i,
    {
        params.push(crate::chars::int_to_string(tag_ids[i] as i64));
        i += 1;
    }
    let mut sql = String::new();
    sql.append("delete from tag_item_map where (item_id = ");
    let id_text = crate::chars::int_to_string(id as i64);
    sql.append(id_text.as_str());
    sql.append(") and (tag_id in (");
    let vs2 = template::vars(tag_ids.len());
    sql.append(vs2.as_str());
    sql.append("))");
    match db::execute(c, sql.as_str(), &params) {
        Ok(_) => Ok(()),
        Err(e) => Err(e),
    }
}

/// Deletes item `id`.
pub fn delete(c: &mut rusqlite::Connection, id: i32) -> (r: Result<(), DbError>) {
    let mut sql = String::new();
    sql.append("delete from item where id = ");
    let id_text = crate::chars::int_to_string(id as i64);
    sql.append(id_text.as_str());
    let params: Vec<String> = Vec::new();
    match db::execute(c, sql.as_str(), &params) {
        Ok(_) => Ok(()),
        Err(e) => Err(e),
    }
}

/// Reads item `id`; an unknown identifier is an error.
pub fn get(c: &mut rusqlite::Connection, id: i32) -> (r: Result<Item, DbError>) {
    let mut sql = String::new();
    sql.append("select ");
    sql.append(item_columns());
    sql.append(" from item where id = ");
    let id_text = crate::chars::int_to_string(id as i64);
    sql.append(id_text.as_str());
    sql.append(" limit 1");
    let params: Vec<String> = Vec::new();
    let mut items = match db::query_items(c, sql.as_str(), &params) {
        Ok(items) => items,
        Err(e) => {
            return Err(e);
        },
    };
    if items.len() == 0 {
        return Err(DbError { message: "retrieving item from db".to_owned() });
    }
    Ok(items.remove(0))
}

/// True when `v` holds `x`.
pub fn contains_id(v: &Vec<i32>, x: i32) -> (r: bool)
    ensures
        r == v@.contains(x),
{
    let n = v.len();
    let mut i: usize = 0;
    while i < n
        invariant
            i <= n,
            n == v@.len(),
            forall|j: int| 0 <= j < i ==> v@[j] != x,
        decreases n - i,
    {
        if v[i] == x {
            assert(v@.contains(x));
            return true;
        }
        i += 1;
    }
    assert(!v@.contains(x));
    false
}

/// Whether an item with identifier `id` passes the tag filters: it must
/// carry one of the included identifiers (when a list of those is given)
/// and none of the excluded ones.
pub open spec fn spec_keep(id: i32, wanted: Option<Seq<i32>>, unwanted: Option<Seq<i32>>) -> bool {
    &&& match wanted {
        Some(ids) => ids.contains(id),
        None => true,
    }
    &&& match unwanted {
        Some(ids) => !ids.contains(id),
        None => true,
    }
}

/// Retains exactly the items that pass the tag filters, in order.
pub fn retain_items(items: Vec<Item>, wanted: Option<&Vec<i32>>, unwanted: Option<&Vec<i32>>) -> (r:
    Vec<Item>)
    ensures
        ({
            let inc = match wanted {
                Some(v) => Some(v@),
                None => None,
            };
            let exc = match unwanted {
                Some(v) => Some(v@),
                None => None,
            };
            r@ == items@.filter(|it: Item| spec_keep(it.id, inc, exc))
        }),
{
    let ghost inc = match wanted {
        Some(v) => Some(v@),
        None => None::<Seq<i32>>,
    };
    let ghost exc = match unwanted {
        Some(v) => Some(v@),
        None => None::<Seq<i32>>,
    };
    let ghost p = |it: Item| spec_keep(it.id, inc, exc);
    let mut out: Vec<Item> = Vec::new();
    let mut rest = items;
    let ghost mut done: Seq<Item> = Seq::empty();
    proof {
        assert(done + rest@ =~= items@);
        assert(done.filter(p) =~= Seq::<Item>::empty()) by {
            reveal_with_fuel(Seq::filter, 1);
        }
    }
    loop
        invariant
            done + rest@ == items@,
            out@ == done.filter(p),
            p == (|it: Item| spec_keep(it.id, inc, exc)),
            inc == (match wanted {
                Some(v) => Some(v@),
                None => None::<Seq<i32>>,
            }),
            exc == (match unwanted {
                Some(v) => Some(v@),
                None => None::<Seq<i32>>,
            }),
        ensures
            out@ == items@.filter(p),
            p == (|it: Item| spec_keep(it.id, inc, exc)),
        decreases rest@.len(),
    {
        if rest.len() == 0 {
            assert(done =~= items@);
            break ;
        }
        let ghost old_rest = rest@;
        let ghost old_done = done;
        let it = rest.remove(0);
        let keep_inc = match wanted {
            Some(ids) => contains_id(ids, it.id),
            None => true,
        };
        let keep_exc = match unwanted {
            Some(ids) => !contains_id(ids, it.id),
            None => true,
        };
        if keep_inc && keep_exc {
            out.push(it);
        }
        proof {
            done = old_done.push(it);
            assert(rest@ =~= old_rest.drop_first());
            assert(done + rest@ =~= items@);
            assert(done.drop_last() =~= old_done);
            assert(done.last() == it);
            assert(done.filter(p) =~= (if p(it) {
                old_done.filter(p).push(it)
            } else {
                old_done.filter(p)
            })) by {
                reveal_with_fuel(Seq::filter, 2);
            }
            assert(out@ =~= done.filter(p));
        }
    }
    out
}

/// The items matching the optional filter expression, narrowed to those
/// carrying at least one `with_tags` member and none of `without_tags`.
pub fn query(
    c: &mut rusqlite::Connection,
    filter_expr: Option<AstNode>,
    with_tags: &Vec<String>,
    without_tags: &Vec<String>,
) -> (r: Result<Vec<Item>, DbError>) {
    let wanted_ids: Option<Vec<i32>> = if with_tags.len() == 0 {
        None
    } else {
        match tag_item_ids(c, with_tags) {
            Ok(ids) => Some(ids),
            Err(e) => {
                return Err(e);
            },
        }
    };
    let unwanted_ids: Option<Vec<i32>> = if without_tags.len() == 0 {
        None
    } else {
        match tag_item_ids(c, without_tags) {
            Ok(ids) => Some(ids),
            Err(e) => {
                return Err(e);
            },
        }
    };
    let mut sql = String::new();
    sql.append("select ");
    sql.append(item_columns());
    sql.append(" from item");
    match &filter_expr {
        Some(expr) => {
            sql.append(" where ");
            let pred = utils::filter_expr_to_sql(expr);
            sql.append(pred.as_str());
        },
        None => {},
    }
    let params: Vec<String> = Vec::new();
    let items = match db::query_items(c, sql.as_str(), &params) {
        Ok(items) => items,
        Err(e) => {
            return Err(e);
        },
    };
    Ok(retain_items(items, wanted_ids.as_ref(), unwanted_ids.as_ref()))
}

/// The identifiers of the items carrying at least one of the given tags.
fn tag_item_ids(c: &mut rusqlite::Connection, tags: &Vec<String>) -> (r: Result<Vec<i32>, DbError>) {
    let mut sql = String::new();
    sql.append(
        "select item_id from tag_item_map where tag_id in (select id from tag where name in (",
    );
    let vs = template::vars(tags.len());
    sql.append(vs.as_str());
    sql.append("))");
    db::query_ids(c, sql.as_str(), tags)
}

} // verus!
