use vstd::prelude::*;

pub mod common_parsers;
pub mod create_statement;
pub mod insert_statement;
pub mod laws;
pub mod query;
pub mod select_statement;
pub mod text;
pub mod types;

verus! {

} // verus!
