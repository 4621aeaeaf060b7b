//! Plain values that travel alongside query results in the surrounding
//! application.

use vstd::prelude::*;
use vstd::string::StringExecFns;

verus! {

/// The database engines the application speaks to.
#[derive(Debug, Clone, Copy, PartialEq, Eq, Structural)]
pub enum DbKind {
    Postgres,
    MySql,
}

/// The engine a configured database-type name stands for; any other name is
/// rejected.
pub open spec fn db_kind_of(name: Seq<char>) -> Option<DbKind> {
    if name == "postgres"@ {
        Option::Some(DbKind::Postgres)
    } else if name == "mysql"@ {
        Option::Some(DbKind::MySql)
    } else {
        Option::None
    }
}

pub fn parse_db_kind(name: &str) -> (r: Option<DbKind>)
    ensures
        r == db_kind_of(name@),
{
    let n = name.to_owned();
    if n == String::from_str("postgres") {
        Some(DbKind::Postgres)
    } else if n == String::from_str("mysql") {
        Some(DbKind::MySql)
    } else {
        None
    }
}

/// One column of a query result: its position in the row and its name.
#[derive(Debug, Clone)]
pub struct Column {
    pub ordinal: usize,
    pub name: String,
}

/// One named parameter a statement window carries.
#[derive(Debug, Clone)]
pub struct Parameter {
    pub name: String,
    pub value: String,
}

} // verus!
