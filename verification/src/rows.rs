//! Turning one result row into displayable text, column by column.
//!
//! The database driver reports each column's type by name; the name decides
//! which typed extraction to attempt. A column of unrecognized type is left
//! out of the row silently; a recognized column whose typed extraction failed
//! (a NULL, or a value of an unexpected shape) displays as the literal string
//! `NULL`. The caller performs the extraction itself and hands over, per
//! column, the display text it obtained, if any.

use vstd::prelude::*;
use vstd::string::StringExecFns;

use crate::model::Column;

verus! {

broadcast use vstd::std_specs::vec::group_vec_axioms, vstd::seq::group_seq_axioms;

/// Which typed extraction a column's reported type name calls for.
#[derive(Debug, Clone, Copy, PartialEq, Eq, Structural)]
pub enum TypeKind {
    Float4,
    Float8,
    Decimal,
    Bool,
    Int1,
    Int2,
    Int4,
    Int8,
    Text,
    Date,
    Unknown,
}

/// The extraction the Postgres driver's type names call for.
pub open spec fn postgres_kind(name: Seq<char>) -> TypeKind {
    if name == "FLOAT4"@ {
        TypeKind::Float4
    } else if name == "FLOAT8"@ {
        TypeKind::Float8
    } else if name == "NUMERIC"@ {
        TypeKind::Decimal
    } else if name == "BOOL"@ {
        TypeKind::Bool
    } else if name == "INT1"@ {
        TypeKind::Int1
    } else if name == "INT2"@ {
        TypeKind::Int2
    } else if name == "INT4"@ {
        TypeKind::Int4
    } else if name == "INT8"@ {
        TypeKind::Int8
    } else if name == "CHAR"@ {
        TypeKind::Text
    } else if name == "VARCHAR"@ {
        TypeKind::Text
    } else if name == "TEXT"@ {
        TypeKind::Text
    } else if name == "DATE"@ {
        TypeKind::Date
    } else {
        TypeKind::Unknown
    }
}

/// The extraction the MySQL driver's type names call for.
pub open spec fn mysql_kind(name: Seq<char>) -> TypeKind {
    if name == "FLOAT4"@ {
        TypeKind::Float4
    } else if name == "FLOAT8"@ {
        TypeKind::Float8
    } else if name == "DECIMAL"@ {
        TypeKind::Decimal
    } else if name == "BOOL"@ {
        TypeKind::Bool
    } else if name == "INT1"@ {
        TypeKind::Int1
    } else if name == "SMALLINT"@ {
        TypeKind::Int2
    } else if name == "INT"@ {
        TypeKind::Int4
    } else if name == "BIGINT"@ {
        TypeKind::Int8
    } else if name == "CHAR"@ {
        TypeKind::Text
    } else if name == "VARCHAR"@ {
        TypeKind::Text
    } else if name == "TEXT"@ {
        TypeKind::Text
    } else if name == "DATE"@ {
        TypeKind::Date
    } else {
        TypeKind::Unknown
    }
}

pub fn postgres_type_kind(name: &str) -> (k: TypeKind)
    ensures
        k == postgres_kind(name@),
{
    let n = name.to_owned();
    if n == String::from_str("FLOAT4") {
        TypeKind::Float4
    } else if n == String::from_str("FLOAT8") {
        TypeKind::Float8
    } else if n == String::from_str("NUMERIC") {
        TypeKind::Decimal
    } else if n == String::from_str("BOOL") {
        TypeKind::Bool
    } else if n == String::from_str("INT1") {
        TypeKind::Int1
    } else if n == String::from_str("INT2") {
        TypeKind::Int2
    } else if n == String::from_str("INT4") {
        TypeKind::Int4
    } else if n == String::from_str("INT8") {
        TypeKind::Int8
    } else if n == String::from_str("CHAR") {
        TypeKind::Text
    } else if n == String::from_str("VARCHAR") {
        TypeKind::Text
    } else if n == String::from_str("TEXT") {
        TypeKind::Text
    } else if n == String::from_str("DATE") {
        TypeKind::Date
    } else {
        TypeKind::Unknown
    }
}

pub fn mysql_type_kind(name: &str) -> (k: TypeKind)
    ensures
        k == mysql_kind(name@),
{
    let n = name.to_owned();
    if n == String::from_str("FLOAT4") {
        TypeKind::Float4
    } else if n == String::from_str("FLOAT8") {
        TypeKind::Float8
    } else if n == String::from_str("DECIMAL") {
        TypeKind::Decimal
    } else if n == String::from_str("BOOL") {
        TypeKind::Bool
    } else if n == String::from_str("INT1") {
        TypeKind::Int1
    } else if n == String::from_str("SMALLINT") {
        TypeKind::Int2
    } else if n == String::from_str("INT") {
        TypeKind::Int4
    } else if n == String::from_str("BIGINT") {
        TypeKind::Int8
    } else if n == String::from_str("CHAR") {
        TypeKind::Text
    } else if n == String::from_str("VARCHAR") {
        TypeKind::Text
    } else if n == String::from_str("TEXT") {
        TypeKind::Text
    } else if n == String::from_str("DATE") {
        TypeKind::Date
    } else {
        TypeKind::Unknown
    }
}

/// One column of one row, after the caller attempted its typed extraction:
/// the column's name, whether its reported type name was recognized at all,
/// and the display text the extraction yielded, if it succeeded.
pub struct Cell {
    pub name: String,
    pub recognized: bool,
    pub value: Option<String>,
}

pub open spec fn pairs_of(v: Seq<(String, String)>) -> Seq<(Seq<char>, Seq<char>)> {
    v.map_values(|p: (String, String)| (p.0@, p.1@))
}

/// The displayed row: unrecognized columns left out, failed extractions
/// shown as the literal string NULL, everything else as extracted, in
/// column order.
pub open spec fn row_model(cells: Seq<Cell>) -> Seq<(Seq<char>, Seq<char>)>
    decreases cells.len(),
{
    if cells.len() == 0 {
        Seq::empty()
    } else {
        let c = cells[0];
        let rest = row_model(cells.subrange(1, cells.len() as int));
        if !c.recognized {
            rest
        } else {
            seq![
                (
                    c.name@,
                    match c.value {
                        Option::Some(v) => v@,
                        Option::None => "NULL"@,
                    },
                ),
            ] + rest
        }
    }
}

/// Assemble the displayable pairs of one row from its extracted cells.
#[verifier::loop_isolation(false)]
pub fn materialize_row(cells: &Vec<Cell>) -> (r: Vec<(String, String)>)
    ensures
        pairs_of(r@) == row_model(cells@),
{
    let mut r: Vec<(String, String)> = Vec::new();
    let n = cells.len();
    proof {
        assert(cells@.subrange(0, cells@.len() as int) =~= cells@);
    }
    for i in 0..n
        invariant
            n == cells.len(),
            pairs_of(r@) + row_model(cells@.subrange(i as int, cells@.len() as int)) == row_model(
                cells@,
            ),
    {
        proof {
            let tail = cells@.subrange(i as int, cells@.len() as int);
            assert(tail[0] == cells@[i as int]);
            assert(tail.subrange(1, tail.len() as int) =~= cells@.subrange(
                i as int + 1,
                cells@.len() as int,
            ));
        }
        let ghost prev = r@;
        if cells[i].recognized {
            let v: String = match &cells[i].value {
                Some(v) => v.clone(),
                None => String::from_str("NULL"),
            };
            r.push((cells[i].name.clone(), v));
            proof {
                assert(pairs_of(r@) =~= pairs_of(prev) + seq![
                    (
                        cells@[i as int].name@,
                        match cells@[i as int].value {
                            Option::Some(v) => v@,
                            Option::None => "NULL"@,
                        },
                    ),
                ]);
            }
        }
        proof {
            assert(pairs_of(r@) + row_model(
                cells@.subrange(i as int + 1, cells@.len() as int),
            ) =~= row_model(cells@));
        }
    }
    r
}

/// The column list of a result set: one entry per column name, in order,
/// each carrying its position.
#[verifier::loop_isolation(false)]
pub fn column_list(names: &Vec<String>) -> (r: Vec<Column>)
    ensures
        r@.len() == names@.len(),
        forall|i: int|
            0 <= i < r@.len() ==> r@[i].ordinal == i && r@[i].name@ == names@[i]@,
{
    let mut r: Vec<Column> = Vec::new();
    let n = names.len();
    for i in 0..n
        invariant
            n == names.len(),
            r@.len() == i,
            forall|j: int| 0 <= j < i ==> r@[j].ordinal == j && r@[j].name@ == names@[j]@,
    {
        r.push(Column { ordinal: i, name: names[i].clone() });
    }
    r
}

} // verus!
