//! One page of the inventory distribution: filters, paging and the SQL
//! text of the page and count queries.
use vstd::prelude::*;
use crate::ledger::{clean, cleaned};
use crate::text::concat;

verus! {

/// A request for one page of non-zero balances.
#[derive(Debug)]
pub struct InventoryPageInput {
    pub keyword: Option<String>,
    pub unit: Option<String>,
    pub location_id: Option<i64>,
    pub page: i64,
    pub page_size: i64,
    pub known_total: Option<i64>,
}

/// A cleaned filter text as a `LIKE` pattern that matches it anywhere.
pub open spec fn like_pattern(value: Option<Seq<char>>) -> Option<Seq<char>> {
    match cleaned(value) {
        Some(t) => Some("%"@ + t + "%"@),
        None => None,
    }
}

/// Trims a filter text and wraps it in `%` for `LIKE`; blank gives none.
pub fn normalized_like(value: &Option<String>) -> (r: Option<String>)
    ensures
        r.deep_view() == like_pattern(value.deep_view()),
{
    match clean(value) {
        Some(t) => {
            let mut p = concat("%", t.as_str());
            p.append("%");
            Some(p)
        },
        None => None,
    }
}

/// The `WHERE` condition of the page: non-zero balances, then one
/// placeholder condition for each filter that is present.
pub open spec fn filter_condition(keyword: bool, unit: bool, location: bool) -> Seq<char> {
    "b.quantity<>0"@ + (if keyword {
        " AND m.name LIKE ?"@
    } else {
        Seq::empty()
    }) + (if unit {
        " AND COALESCE(u.name,'') LIKE ?"@
    } else {
        Seq::empty()
    }) + (if location {
        " AND b.location_id=?"@
    } else {
        Seq::empty()
    })
}

/// The `WHERE` condition for the filters that are present.
pub fn inventory_filter_sql(
    keyword: &Option<String>,
    unit: &Option<String>,
    location_id: Option<i64>,
) -> (r: String)
    ensures
        r@ == filter_condition(keyword is Some, unit is Some, location_id is Some),
{
    let mut sql = "b.quantity<>0".to_owned();
    let ghost s0 = sql@;
    if keyword.is_some() {
        sql.append(" AND m.name LIKE ?");
    }
    let ghost s1 = sql@;
    if unit.is_some() {
        sql.append(" AND COALESCE(u.name,'') LIKE ?");
    }
    let ghost s2 = sql@;
    if location_id.is_some() {
        sql.append(" AND b.location_id=?");
    }
    proof {
        assert(s1 =~= s0 + (if keyword is Some {
            " AND m.name LIKE ?"@
        } else {
            Seq::empty()
        }));
        assert(s2 =~= s1 + (if unit is Some {
            " AND COALESCE(u.name,'') LIKE ?"@
        } else {
            Seq::empty()
        }));
        assert(sql@ =~= s2 + (if location_id is Some {
            " AND b.location_id=?"@
        } else {
            Seq::empty()
        }));
    }
    sql
}

/// The page size: 100, 200 or 500 as asked, else 100.
pub open spec fn normalized_page_size(size: i64) -> i64 {
    if size == 100 || size == 200 || size == 500 {
        size
    } else {
        100
    }
}

/// The page number: at least 1.
pub open spec fn normalized_page(page: i64) -> i64 {
    if page < 1 {
        1
    } else {
        page
    }
}

/// The offset of the first row of the page fits in an `i64`.
pub open spec fn page_offset_fits(page: i64, size: i64) -> bool {
    (normalized_page(page) - 1) * normalized_page_size(size) <= i64::MAX
}

/// The part of the page query before the total column.
pub const PAGE_SELECT: &'static str = "SELECT b.material_id,m.name AS material_name,u.name AS unit_name,
                  b.location_id,l.name AS location_name,CAST(b.quantity AS REAL) AS quantity,
                  b.updated_at,";
/// The total column when the caller already knows the total.
pub const KNOWN_TOTAL_COLUMN: &'static str = "? AS total_count";
/// The total column counted by the query itself.
pub const COUNTED_TOTAL_COLUMN: &'static str = "COUNT(*) OVER() AS total_count";
/// The joins of the page query, up to its condition.
pub const PAGE_FROM: &'static str = "
           FROM inventory_balances b
           JOIN materials m ON m.id=b.material_id
           LEFT JOIN units u ON u.id=m.unit_id
           JOIN locations l ON l.id=b.location_id
           WHERE ";
/// The order and limit of the page query: numbered locations first by
/// number, then by name, then by material name.
pub const PAGE_ORDER: &'static str = "
           ORDER BY CASE WHEN l.name GLOB '[0-9]*' THEN CAST(l.name AS INTEGER) ELSE 2147483647 END,
                    l.name COLLATE NOCASE,m.name COLLATE NOCASE
           LIMIT ? OFFSET ?";
/// The count query, up to its condition.
pub const COUNT_FROM: &'static str = "SELECT COUNT(*)
               FROM inventory_balances b
               JOIN materials m ON m.id=b.material_id
               LEFT JOIN units u ON u.id=m.unit_id
               JOIN locations l ON l.id=b.location_id
               WHERE ";

/// The queries of one page and the values to bind, in order: the known
/// total (if any), the keyword and unit patterns and the location (those
/// present), then the page size and the offset.
#[derive(Debug)]
pub struct InventoryPageQuery {
    pub page: i64,
    pub page_size: i64,
    pub offset: i64,
    pub known_total: Option<i64>,
    pub keyword: Option<String>,
    pub unit: Option<String>,
    pub location_id: Option<i64>,
    pub sql: String,
    pub count_sql: String,
}

/// `q` is the page query of `input`.
pub open spec fn is_page_query(q: InventoryPageQuery, input: InventoryPageInput) -> bool {
    let condition = filter_condition(
        like_pattern(input.keyword.deep_view()) is Some,
        like_pattern(input.unit.deep_view()) is Some,
        q.location_id is Some,
    );
    &&& q.page == normalized_page(input.page)
    &&& q.page_size == normalized_page_size(input.page_size)
    &&& q.offset == (q.page - 1) * q.page_size
    &&& q.known_total == match input.known_total {
        Some(t) => Some(if t < 0 { 0i64 } else { t }),
        None => None,
    }
    &&& q.keyword.deep_view() == like_pattern(input.keyword.deep_view())
    &&& q.unit.deep_view() == like_pattern(input.unit.deep_view())
    &&& q.location_id == match input.location_id {
        Some(id) => if id > 0 {
            Some(id)
        } else {
            None
        },
        None => None,
    }
    &&& q.sql@ == PAGE_SELECT@ + (if input.known_total is Some {
        KNOWN_TOTAL_COLUMN@
    } else {
        COUNTED_TOTAL_COLUMN@
    }) + PAGE_FROM@ + condition + PAGE_ORDER@
    &&& q.count_sql@ == COUNT_FROM@ + condition
}

/// Plans the queries of one page of the inventory distribution.
pub fn plan_inventory_page(input: &InventoryPageInput) -> (q: InventoryPageQuery)
    requires
        page_offset_fits(input.page, input.page_size),
    ensures
        is_page_query(q, *input),
{
    let page = if input.page < 1 { 1 } else { input.page };
    let page_size = if input.page_size == 100 || input.page_size == 200 || input.page_size == 500 {
        input.page_size
    } else {
        100
    };
    let offset = (page - 1) * page_size;
    let keyword = normalized_like(&input.keyword);
    let unit = normalized_like(&input.unit);
    let location_id = match input.location_id {
        Some(id) => if id > 0 {
            Some(id)
        } else {
            None
        },
        None => None,
    };
    let condition = inventory_filter_sql(&keyword, &unit, location_id);
    let known_total = match input.known_total {
        Some(t) => Some(if t < 0 { 0i64 } else { t }),
        None => None,
    };
    let mut sql = PAGE_SELECT.to_owned();
    if input.known_total.is_some() {
        sql.append(KNOWN_TOTAL_COLUMN);
    } else {
        sql.append(COUNTED_TOTAL_COLUMN);
    }
    sql.append(PAGE_FROM);
    sql.append(condition.as_str());
    sql.append(PAGE_ORDER);
    let count_sql = concat(COUNT_FROM, condition.as_str());
    InventoryPageQuery {
        page,
        page_size,
        offset,
        known_total,
        keyword,
        unit,
        location_id,
        sql,
        count_sql,
    }
}

/// The total of the page: the total column of its first row, else zero;
/// `None` when the rows are empty past the first page and no total was
/// known, where the total is counted by the count query instead.
pub fn page_total(
    query: &InventoryPageQuery,
    first_row_total: Option<i64>,
    rows_empty: bool,
) -> (r: Option<i64>)
    ensures
        r == if rows_empty && query.known_total is None && query.page > 1 {
            None
        } else {
            Some(
                match first_row_total {
                    Some(t) => t,
                    None => 0,
                },
            )
        },
{
    if rows_empty && query.known_total.is_none() && query.page > 1 {
        return None;
    }
    match first_row_total {
        Some(t) => Some(t),
        None => Some(0),
    }
}

} // verus!
