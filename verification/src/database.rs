//! Generic query results, the reading of SQLite column types, and the rules
//! for deleting a storage location.
use vstd::prelude::*;
use crate::text::text_equals;

verus! {

/// What a write statement did.
#[derive(Debug)]
pub struct ExecuteResult {
    pub rows_affected: u64,
    pub last_insert_id: i64,
}

/// What deleting a storage location did.
#[derive(Debug)]
pub struct DeleteLocationResult {
    pub rows_affected: u64,
    pub cleared_material_defaults: u64,
    pub removed_zero_balances: u64,
}

/// How the value of a result column is read.
#[derive(Clone, Copy, Debug, PartialEq, Eq, Structural)]
pub enum ColumnKind {
    /// As a 64-bit integer.
    Integer,
    /// As a floating-point number.
    Real,
    /// As bytes.
    Blob,
    /// As text.
    Text,
}

/// The kind of a column by its SQLite type name.
pub open spec fn column_kind_of(sql_type: Seq<char>) -> ColumnKind {
    if sql_type == "INTEGER"@ || sql_type == "INT"@ {
        ColumnKind::Integer
    } else if sql_type == "REAL"@ || sql_type == "FLOAT"@ || sql_type == "DOUBLE"@ {
        ColumnKind::Real
    } else if sql_type == "BLOB"@ {
        ColumnKind::Blob
    } else {
        ColumnKind::Text
    }
}

/// How to read a (non-null) value whose SQLite type is named `sql_type`.
pub fn column_kind(sql_type: &str) -> (r: ColumnKind)
    ensures
        r == column_kind_of(sql_type@),
{
    if text_equals(sql_type, "INTEGER") || text_equals(sql_type, "INT") {
        ColumnKind::Integer
    } else if text_equals(sql_type, "REAL") || text_equals(sql_type, "FLOAT") || text_equals(
        sql_type,
        "DOUBLE",
    ) {
        ColumnKind::Real
    } else if text_equals(sql_type, "BLOB") {
        ColumnKind::Blob
    } else {
        ColumnKind::Text
    }
}

/// Message for a location id that is not positive.
pub const MSG_INVALID_LOCATION: &'static str = "存放位置无效";
/// Message for a location that does not exist.
pub const MSG_LOCATION_GONE: &'static str = "存放位置不存在或已删除";
/// Message for a location that still has ledger rows or stock.
pub const MSG_LOCATION_IN_USE: &'static str =
    "该存放位置仍有出入库流水或非零库存，不能删除；请先在出入库明细中处理相关记录";

/// Checks the id of a location to delete.
pub fn check_location_id(id: i64) -> (r: Result<(), String>)
    ensures
        match r {
            Ok(()) => id > 0,
            Err(e) => id <= 0 && e@ == MSG_INVALID_LOCATION@,
        },
{
    if id <= 0 {
        return Err(MSG_INVALID_LOCATION.to_owned());
    }
    Ok(())
}

/// Decides whether a location may be deleted, from what was read of it: it
/// must exist, and no ledger row and no non-zero balance may refer to it.
/// Zero balances and default-location references do not block it; they
/// are cleared with it.
pub fn check_location_deletable(
    exists: bool,
    transaction_count: i64,
    nonzero_balance_count: i64,
) -> (r: Result<(), String>)
    ensures
        match r {
            Ok(()) => exists && transaction_count <= 0 && nonzero_balance_count <= 0,
            Err(e) => if !exists {
                e@ == MSG_LOCATION_GONE@
            } else {
                (transaction_count > 0 || nonzero_balance_count > 0) && e@ == MSG_LOCATION_IN_USE@
            },
        },
{
    if !exists {
        return Err(MSG_LOCATION_GONE.to_owned());
    }
    if transaction_count > 0 || nonzero_balance_count > 0 {
        return Err(MSG_LOCATION_IN_USE.to_owned());
    }
    Ok(())
}

} // verus!
