//! Query construction and execution against the item store: string
//! templates, predicate compilation, and the item, tag and review queries.

pub mod item;
pub mod review;
pub mod tag;
pub mod template;
pub mod utils;
