use kylin_stock::database::{
    check_location_deletable, check_location_id, column_kind, ColumnKind, DeleteLocationResult,
    ExecuteResult,
};
use kylin_stock::inventory_page::{
    inventory_filter_sql, normalized_like, page_total, plan_inventory_page, InventoryPageInput,
    COUNTED_TOTAL_COLUMN, KNOWN_TOTAL_COLUMN,
};
use kylin_stock::migration::{
    ADD_ADJUSTMENT_BASIS, ADD_MATERIAL_BARCODE, INDEX_INVENTORY_LOCATION_MATERIAL,
    INDEX_TRANSACTIONS_MATERIAL_OCCURRED_ID, INSERT_DEFAULT_UNITS,
    migrations, pending_migrations, statement_failure_tolerated, user_version_sql,
    version_after, LATEST_SCHEMA_VERSION,
};
use kylin_stock::scan::{ocr_extension, ocr_outcome, scan_source_path};

fn page_input(page: i64, page_size: i64) -> InventoryPageInput {
    InventoryPageInput {
        keyword: None,
        unit: None,
        location_id: None,
        page,
        page_size,
        known_total: None,
    }
}

#[test]
fn like_patterns_trim_and_wrap() {
    assert_eq!(normalized_like(&Some("  网线 ".into())), Some("%网线%".to_string()));
    assert_eq!(normalized_like(&Some("   ".into())), None);
    assert_eq!(normalized_like(&None), None);
}

#[test]
fn filter_conditions_follow_present_filters() {
    assert_eq!(inventory_filter_sql(&None, &None, None), "b.quantity<>0");
    assert_eq!(
        inventory_filter_sql(&Some("%a%".into()), &Some("%b%".into()), Some(3)),
        "b.quantity<>0 AND m.name LIKE ? AND COALESCE(u.name,'') LIKE ? AND b.location_id=?"
    );
    assert_eq!(
        inventory_filter_sql(&None, &None, Some(3)),
        "b.quantity<>0 AND b.location_id=?"
    );
}

#[test]
fn page_numbers_and_sizes_are_normalized() {
    let q = plan_inventory_page(&page_input(0, 150));
    assert_eq!((q.page, q.page_size, q.offset), (1, 100, 0));
    let q = plan_inventory_page(&page_input(3, 200));
    assert_eq!((q.page, q.page_size, q.offset), (3, 200, 400));
    let q = plan_inventory_page(&page_input(2, 500));
    assert_eq!(q.offset, 500);
    assert!(q.sql.contains(COUNTED_TOTAL_COLUMN));
    assert!(q.sql.ends_with("LIMIT ? OFFSET ?"));
    assert!(q.count_sql.starts_with("SELECT COUNT(*)"));
}

#[test]
fn page_filters_and_known_total() {
    let input = InventoryPageInput {
        keyword: Some(" 线 ".into()),
        unit: Some("".into()),
        location_id: Some(-2),
        page: 1,
        page_size: 100,
        known_total: Some(-7),
    };
    let q = plan_inventory_page(&input);
    assert_eq!(q.keyword.as_deref(), Some("%线%"));
    assert_eq!(q.unit, None);
    assert_eq!(q.location_id, None);
    assert_eq!(q.known_total, Some(0));
    assert!(q.sql.contains(KNOWN_TOTAL_COLUMN));
    assert!(q.sql.contains("WHERE b.quantity<>0 AND m.name LIKE ?\n"));
    assert!(q.count_sql.ends_with("WHERE b.quantity<>0 AND m.name LIKE ?"));
}

#[test]
fn page_totals() {
    let first = plan_inventory_page(&page_input(1, 100));
    assert_eq!(page_total(&first, Some(42), false), Some(42));
    assert_eq!(page_total(&first, None, true), Some(0));
    let later = plan_inventory_page(&page_input(4, 100));
    assert_eq!(page_total(&later, None, true), None);
    let mut known = page_input(4, 100);
    known.known_total = Some(12);
    let known = plan_inventory_page(&known);
    assert_eq!(page_total(&known, None, true), Some(0));
}

#[test]
fn migrations_are_numbered_one_to_latest() {
    let all = migrations();
    assert_eq!(all.len() as i64, LATEST_SCHEMA_VERSION);
    for (i, m) in all.iter().enumerate() {
        assert_eq!(m.version, i as i64 + 1);
    }
    assert_eq!(all[1].statements.len(), 1);
    assert!(all[8].statements[0].contains("idx_inventory_location_material"));
}

#[test]
fn pending_migrations_follow_the_current_version() {
    let pending = pending_migrations(migrations(), 0).unwrap();
    assert_eq!(pending.len(), 9);
    assert_eq!(version_after(0, &pending), LATEST_SCHEMA_VERSION);
    let pending = pending_migrations(migrations(), 7).unwrap();
    assert_eq!(pending.iter().map(|m| m.version).collect::<Vec<_>>(), vec![8, 9]);
    let pending = pending_migrations(migrations(), -3).unwrap();
    assert_eq!(pending.len(), 9);
    let pending = pending_migrations(migrations(), LATEST_SCHEMA_VERSION).unwrap();
    assert!(pending.is_empty());
    assert_eq!(version_after(LATEST_SCHEMA_VERSION, &pending), LATEST_SCHEMA_VERSION);
}

#[test]
fn newer_schema_is_refused() {
    let error = pending_migrations(migrations(), 99).err().unwrap();
    assert!(error.contains("高于当前程序支持"));
    assert_eq!(
        error,
        "数据库结构版本 99 高于当前程序支持的版本 9，为避免旧程序破坏新数据，本次启动已中止"
    );
}

#[test]
fn only_duplicate_columns_of_known_migrations_are_tolerated() {
    assert!(statement_failure_tolerated(
        5,
        "ALTER TABLE materials ADD COLUMN barcode TEXT",
        "error returned from database: duplicate column name: barcode"
    ));
    assert!(statement_failure_tolerated(
        6,
        "ALTER TABLE stock_transactions ADD COLUMN adjustment_basis TEXT",
        "duplicate column name: adjustment_basis"
    ));
    assert!(!statement_failure_tolerated(
        6,
        "ALTER TABLE materials ADD COLUMN barcode TEXT",
        "duplicate column name: barcode"
    ));
    assert!(!statement_failure_tolerated(
        5,
        "ALTER TABLE materials ADD COLUMN barcode TEXT",
        "no such table: materials"
    ));
    assert_eq!(user_version_sql(9), "PRAGMA user_version = 9");
    assert_eq!(user_version_sql(-1), "PRAGMA user_version = -1");
}

#[test]
fn column_kinds_by_type_name() {
    assert_eq!(column_kind("INTEGER"), ColumnKind::Integer);
    assert_eq!(column_kind("INT"), ColumnKind::Integer);
    assert_eq!(column_kind("REAL"), ColumnKind::Real);
    assert_eq!(column_kind("DOUBLE"), ColumnKind::Real);
    assert_eq!(column_kind("BLOB"), ColumnKind::Blob);
    assert_eq!(column_kind("TEXT"), ColumnKind::Text);
    assert_eq!(column_kind("NULL"), ColumnKind::Text);
}

#[test]
fn location_deletion_rules() {
    assert_eq!(check_location_id(0), Err("存放位置无效".to_string()));
    assert_eq!(check_location_deletable(true, 0, 0), Ok(()));
    assert_eq!(
        check_location_deletable(false, 0, 0),
        Err("存放位置不存在或已删除".to_string())
    );
    assert!(check_location_deletable(true, 1, 0)
        .unwrap_err()
        .contains("出入库流水"));
    assert!(check_location_deletable(true, 0, 2).is_err());
    let result = DeleteLocationResult {
        rows_affected: 1,
        cleared_material_defaults: 1,
        removed_zero_balances: 1,
    };
    assert_eq!(result.rows_affected, 1);
    let executed = ExecuteResult { rows_affected: 2, last_insert_id: 5 };
    assert_eq!(executed.last_insert_id, 5);
}

#[test]
fn scan_paths_and_outcomes() {
    assert_eq!(
        scan_source_path("  file:///home/扫描 1.png "),
        Ok("/home/扫描 1.png".to_string())
    );
    assert_eq!(scan_source_path("/tmp/a.jpg"), Ok("/tmp/a.jpg".to_string()));
    assert_eq!(scan_source_path("  "), Err("请选择扫描单据图片".to_string()));
    assert_eq!(ocr_extension(Some("png")), "png");
    assert_eq!(ocr_extension(None), "img");
    assert_eq!(ocr_outcome(true, "warn", "文本".into()), Ok("文本".to_string()));
    assert_eq!(
        ocr_outcome(false, " \n", String::new()),
        Err("扫描单据识别失败，请检查图片清晰度".to_string())
    );
    assert_eq!(
        ocr_outcome(false, " bad image \n", String::new()),
        Err("扫描单据识别失败：bad image".to_string())
    );
}

#[test]
fn migrations_create_the_schema_the_queries_use() {
    let all = migrations();
    assert_eq!(all[8].statements, vec![INDEX_INVENTORY_LOCATION_MATERIAL]);
    assert!(INDEX_INVENTORY_LOCATION_MATERIAL.contains("inventory_balances(location_id,material_id)"));
    assert!(all[6].statements.contains(&INDEX_TRANSACTIONS_MATERIAL_OCCURRED_ID));
    assert_eq!(all[1].statements, vec![INSERT_DEFAULT_UNITS]);
    for unit in ["发", "支", "具", "件", "套", "枚", "米", "公斤", "箱"] {
        assert!(INSERT_DEFAULT_UNITS.contains(&format!("('{unit}', 1)")));
    }
    assert_eq!(all[4].statements[0], ADD_MATERIAL_BARCODE);
    assert_eq!(all[5].statements, vec![ADD_ADJUSTMENT_BASIS]);
    assert!(statement_failure_tolerated(5, ADD_MATERIAL_BARCODE, "duplicate column name: barcode"));
    assert!(statement_failure_tolerated(
        6,
        ADD_ADJUSTMENT_BASIS,
        "duplicate column name: adjustment_basis"
    ));
    let tables = all[0].statements.join("\n");
    for table in ["units", "locations", "materials", "inventory_balances", "stock_transactions", "backup_records", "app_settings"] {
        assert!(tables.contains(&format!("CREATE TABLE IF NOT EXISTS {table} (")));
    }
}
