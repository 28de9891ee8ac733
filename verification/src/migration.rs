//! Versioned schema migrations: which migrations a database still needs,
//! and which statement failures a migration may pass over.
use vstd::prelude::*;
use crate::text::{concat, contains_text, has_prefix, occurs_in, signed_decimal, signed_decimal_text};

verus! {

/// The schema version that this program writes.
pub const LATEST_SCHEMA_VERSION: i64 = 9;

/// One schema version: the statements that bring a database of the
/// previous version to it.
#[derive(Debug)]
pub struct Migration {
    pub version: i64,
    pub statements: Vec<&'static str>,
}

/// Creates the table of units of measure.
pub const CREATE_UNITS: &'static str = r#"CREATE TABLE IF NOT EXISTS units (
            id INTEGER PRIMARY KEY AUTOINCREMENT,
            name TEXT NOT NULL UNIQUE,
            status INTEGER NOT NULL DEFAULT 1
        )"#;

/// Creates the table of storage locations.
pub const CREATE_LOCATIONS: &'static str = r#"CREATE TABLE IF NOT EXISTS locations (
            id INTEGER PRIMARY KEY AUTOINCREMENT,
            name TEXT NOT NULL UNIQUE,
            remark TEXT,
            status INTEGER NOT NULL DEFAULT 1
        )"#;

/// Creates the table of materials.
pub const CREATE_MATERIALS: &'static str = r#"CREATE TABLE IF NOT EXISTS materials (
            id INTEGER PRIMARY KEY AUTOINCREMENT,
            name TEXT NOT NULL,
            unit_id INTEGER,
            category TEXT,
            default_location_id INTEGER,
            remark TEXT,
            status INTEGER NOT NULL DEFAULT 1,
            created_at TEXT NOT NULL,
            updated_at TEXT NOT NULL,
            FOREIGN KEY(unit_id) REFERENCES units(id),
            FOREIGN KEY(default_location_id) REFERENCES locations(id)
        )"#;

/// Creates the balance table: one row per material and location.
pub const CREATE_INVENTORY_BALANCES: &'static str = r#"CREATE TABLE IF NOT EXISTS inventory_balances (
            id INTEGER PRIMARY KEY AUTOINCREMENT,
            material_id INTEGER NOT NULL,
            location_id INTEGER NOT NULL,
            quantity NUMERIC NOT NULL DEFAULT 0,
            updated_at TEXT NOT NULL,
            UNIQUE(material_id, location_id),
            FOREIGN KEY(material_id) REFERENCES materials(id),
            FOREIGN KEY(location_id) REFERENCES locations(id)
        )"#;

/// Creates the stock ledger.
pub const CREATE_STOCK_TRANSACTIONS: &'static str = r#"CREATE TABLE IF NOT EXISTS stock_transactions (
            id INTEGER PRIMARY KEY AUTOINCREMENT,
            transaction_no TEXT NOT NULL UNIQUE,
            type TEXT NOT NULL CHECK(type IN ('IN', 'OUT', 'ADJUST')),
            material_id INTEGER NOT NULL,
            location_id INTEGER NOT NULL,
            quantity NUMERIC NOT NULL CHECK(quantity > 0),
            occurred_at TEXT NOT NULL,
            related_unit TEXT,
            destination TEXT,
            handler TEXT,
            receiver TEXT,
            remark TEXT,
            created_at TEXT NOT NULL,
            FOREIGN KEY(material_id) REFERENCES materials(id),
            FOREIGN KEY(location_id) REFERENCES locations(id)
        )"#;

/// Creates the table of database backups.
pub const CREATE_BACKUP_RECORDS: &'static str = r#"CREATE TABLE IF NOT EXISTS backup_records (
            id INTEGER PRIMARY KEY AUTOINCREMENT,
            file_name TEXT NOT NULL,
            file_path TEXT NOT NULL,
            backup_type TEXT NOT NULL CHECK(backup_type IN ('MANUAL', 'ANNUAL')),
            backup_year INTEGER,
            file_size INTEGER,
            checksum TEXT,
            created_at TEXT NOT NULL,
            remark TEXT
        )"#;

/// Creates the table of application settings.
pub const CREATE_APP_SETTINGS: &'static str = r#"CREATE TABLE IF NOT EXISTS app_settings (
            key TEXT PRIMARY KEY,
            value TEXT,
            updated_at TEXT NOT NULL
        )"#;

/// Indexes materials by name.
pub const INDEX_MATERIALS_NAME: &'static str = "CREATE INDEX IF NOT EXISTS idx_materials_name ON materials(name)";

/// Indexes ledger rows by material.
pub const INDEX_TRANSACTIONS_MATERIAL: &'static str = "CREATE INDEX IF NOT EXISTS idx_transactions_material ON stock_transactions(material_id)";

/// Indexes ledger rows by business date.
pub const INDEX_TRANSACTIONS_OCCURRED_AT: &'static str = "CREATE INDEX IF NOT EXISTS idx_transactions_occurred_at ON stock_transactions(occurred_at)";

/// Indexes ledger rows by kind.
pub const INDEX_TRANSACTIONS_TYPE: &'static str = "CREATE INDEX IF NOT EXISTS idx_transactions_type ON stock_transactions(type)";

/// Indexes ledger rows by destination.
pub const INDEX_TRANSACTIONS_DESTINATION: &'static str = "CREATE INDEX IF NOT EXISTS idx_transactions_destination ON stock_transactions(destination)";

/// Adds the default units of measure, keeping any that exist.
pub const INSERT_DEFAULT_UNITS: &'static str = r#"INSERT OR IGNORE INTO units(name, status) VALUES
            ('发', 1),
            ('支', 1),
            ('具', 1),
            ('件', 1),
            ('套', 1),
            ('枚', 1),
            ('米', 1),
            ('公斤', 1),
            ('箱', 1)"#;

/// Creates the table of document images.
pub const CREATE_ATTACHMENTS: &'static str = r#"CREATE TABLE IF NOT EXISTS attachments (
                id INTEGER PRIMARY KEY AUTOINCREMENT,
                entity_type TEXT NOT NULL CHECK(entity_type IN ('MATERIAL', 'TRANSACTION')),
                entity_id INTEGER NOT NULL,
                file_name TEXT NOT NULL,
                mime_type TEXT NOT NULL,
                file_size INTEGER NOT NULL,
                data BLOB NOT NULL,
                created_at TEXT NOT NULL
            )"#;

/// Indexes document images by owner.
pub const INDEX_ATTACHMENTS_ENTITY: &'static str = "CREATE INDEX IF NOT EXISTS idx_attachments_entity ON attachments(entity_type, entity_id)";

/// Creates the table of remembered related units and destinations.
pub const CREATE_BUSINESS_OPTIONS: &'static str = r#"CREATE TABLE IF NOT EXISTS business_options (
                id INTEGER PRIMARY KEY AUTOINCREMENT,
                kind TEXT NOT NULL CHECK(kind IN ('RELATED_UNIT', 'DESTINATION')),
                name TEXT NOT NULL COLLATE NOCASE,
                status INTEGER NOT NULL DEFAULT 1,
                UNIQUE(kind, name)
            )"#;

/// Remembers every related unit already in the ledger.
pub const IMPORT_RELATED_UNITS: &'static str = r#"INSERT OR IGNORE INTO business_options(kind,name,status)
               SELECT 'RELATED_UNIT', TRIM(related_unit), 1 FROM stock_transactions
               WHERE TRIM(COALESCE(related_unit,'')) <> ''"#;

/// Remembers every destination already in the ledger.
pub const IMPORT_DESTINATIONS: &'static str = r#"INSERT OR IGNORE INTO business_options(kind,name,status)
               SELECT 'DESTINATION', TRIM(destination), 1 FROM stock_transactions
               WHERE TRIM(COALESCE(destination,'')) <> ''"#;

/// Indexes remembered options by kind and name.
pub const INDEX_BUSINESS_OPTIONS_KIND_NAME: &'static str = "CREATE INDEX IF NOT EXISTS idx_business_options_kind_name ON business_options(kind, name)";

/// Adds the barcode column to materials.
pub const ADD_MATERIAL_BARCODE: &'static str = "ALTER TABLE materials ADD COLUMN barcode TEXT";

/// Makes non-empty barcodes unique.
pub const INDEX_MATERIALS_BARCODE: &'static str = "CREATE UNIQUE INDEX IF NOT EXISTS idx_materials_barcode ON materials(barcode) WHERE barcode IS NOT NULL AND barcode <> ''";

/// Adds the adjustment-basis column to the ledger.
pub const ADD_ADJUSTMENT_BASIS: &'static str = "ALTER TABLE stock_transactions ADD COLUMN adjustment_basis TEXT";

/// Indexes ledger rows by date and id, newest first.
pub const INDEX_TRANSACTIONS_OCCURRED_ID: &'static str = "CREATE INDEX IF NOT EXISTS idx_transactions_occurred_id ON stock_transactions(occurred_at DESC, id DESC)";

/// Indexes ledger rows by material, then date and id, newest first.
pub const INDEX_TRANSACTIONS_MATERIAL_OCCURRED_ID: &'static str = "CREATE INDEX IF NOT EXISTS idx_transactions_material_occurred_id ON stock_transactions(material_id, occurred_at DESC, id DESC)";

/// Indexes ledger rows by kind, then date and id, newest first.
pub const INDEX_TRANSACTIONS_TYPE_OCCURRED_ID: &'static str = "CREATE INDEX IF NOT EXISTS idx_transactions_type_occurred_id ON stock_transactions(type, occurred_at DESC, id DESC)";

/// Trims the names of materials.
pub const TRIM_MATERIAL_NAMES: &'static str = "UPDATE materials SET name=TRIM(name) WHERE name<>TRIM(name)";

/// Drops the temporary map of duplicate materials.
pub const DROP_MERGE_MAP: &'static str = "DROP TABLE IF EXISTS temp.material_merge_map";

/// Creates the temporary map from duplicate to kept material.
pub const CREATE_MERGE_MAP: &'static str = r#"CREATE TEMP TABLE material_merge_map(
                duplicate_id INTEGER PRIMARY KEY,
                canonical_id INTEGER NOT NULL
            )"#;

/// Maps every duplicate material (same name ignoring case, same unit) to the one kept: the one with a barcode, else with most ledger rows, else with most non-zero balances, else the lowest id.
pub const FILL_MERGE_MAP: &'static str = r#"INSERT INTO material_merge_map(duplicate_id,canonical_id)
               SELECT m.id,
                      (SELECT m2.id FROM materials m2
                       WHERE m2.name=m.name COLLATE NOCASE
                         AND COALESCE(m2.unit_id,-1)=COALESCE(m.unit_id,-1)
                       ORDER BY CASE WHEN TRIM(COALESCE(m2.barcode,''))<>'' THEN 0 ELSE 1 END,
                                (SELECT COUNT(*) FROM stock_transactions t2 WHERE t2.material_id=m2.id) DESC,
                                (SELECT COUNT(*) FROM inventory_balances b2 WHERE b2.material_id=m2.id AND ABS(b2.quantity)>0.0000001) DESC,
                                m2.id
                       LIMIT 1)
               FROM materials m
               WHERE m.id<>(SELECT m2.id FROM materials m2
                             WHERE m2.name=m.name COLLATE NOCASE
                               AND COALESCE(m2.unit_id,-1)=COALESCE(m.unit_id,-1)
                             ORDER BY CASE WHEN TRIM(COALESCE(m2.barcode,''))<>'' THEN 0 ELSE 1 END,
                                      (SELECT COUNT(*) FROM stock_transactions t2 WHERE t2.material_id=m2.id) DESC,
                                      (SELECT COUNT(*) FROM inventory_balances b2 WHERE b2.material_id=m2.id AND ABS(b2.quantity)>0.0000001) DESC,
                                      m2.id
                             LIMIT 1)"#;

/// Drops the temporary merged balances.
pub const DROP_MERGED_BALANCES: &'static str = "DROP TABLE IF EXISTS temp.merged_inventory_balances";

/// Sums the balances of each kept material and location.
pub const CREATE_MERGED_BALANCES: &'static str = r#"CREATE TEMP TABLE merged_inventory_balances AS
               SELECT COALESCE(mm.canonical_id,b.material_id) AS material_id,
                      b.location_id,
                      SUM(b.quantity) AS quantity,
                      MAX(b.updated_at) AS updated_at
               FROM inventory_balances b
               LEFT JOIN material_merge_map mm ON mm.duplicate_id=b.material_id
               GROUP BY COALESCE(mm.canonical_id,b.material_id),b.location_id"#;

/// Empties the balance table.
pub const CLEAR_BALANCES: &'static str = "DELETE FROM inventory_balances";

/// Refills the balance table with the merged balances.
pub const RESTORE_MERGED_BALANCES: &'static str = r#"INSERT INTO inventory_balances(material_id,location_id,quantity,updated_at)
               SELECT material_id,location_id,quantity,updated_at FROM merged_inventory_balances"#;

/// Moves the ledger rows of duplicates to the kept material.
pub const REPOINT_TRANSACTIONS: &'static str = r#"UPDATE stock_transactions
               SET material_id=(SELECT canonical_id FROM material_merge_map WHERE duplicate_id=stock_transactions.material_id)
               WHERE material_id IN (SELECT duplicate_id FROM material_merge_map)"#;

/// Moves the document images of duplicates to the kept material.
pub const REPOINT_MATERIAL_ATTACHMENTS: &'static str = r#"UPDATE attachments
               SET entity_id=(SELECT canonical_id FROM material_merge_map WHERE duplicate_id=attachments.entity_id)
               WHERE entity_type='MATERIAL' AND entity_id IN (SELECT duplicate_id FROM material_merge_map)"#;

/// Deletes the duplicate materials.
pub const DELETE_DUPLICATE_MATERIALS: &'static str = "DELETE FROM materials WHERE id IN (SELECT duplicate_id FROM material_merge_map)";

/// Makes a material name (ignoring case) unique per unit.
pub const INDEX_MATERIALS_NAME_UNIT_UNIQUE: &'static str = "CREATE UNIQUE INDEX IF NOT EXISTS idx_materials_name_unit_unique ON materials(name COLLATE NOCASE,COALESCE(unit_id,-1))";

/// Indexes balances by location, then material.
pub const INDEX_INVENTORY_LOCATION_MATERIAL: &'static str = "CREATE INDEX IF NOT EXISTS idx_inventory_location_material ON inventory_balances(location_id,material_id)";

/// The statements of the migration to `version`, in order.
pub open spec fn migration_statements(version: int) -> Seq<Seq<char>> {
    if version == 1 {
        seq![CREATE_UNITS@, CREATE_LOCATIONS@, CREATE_MATERIALS@, CREATE_INVENTORY_BALANCES@, CREATE_STOCK_TRANSACTIONS@, CREATE_BACKUP_RECORDS@, CREATE_APP_SETTINGS@, INDEX_MATERIALS_NAME@, INDEX_TRANSACTIONS_MATERIAL@, INDEX_TRANSACTIONS_OCCURRED_AT@, INDEX_TRANSACTIONS_TYPE@, INDEX_TRANSACTIONS_DESTINATION@]
    } else if version == 2 {
        seq![INSERT_DEFAULT_UNITS@]
    } else if version == 3 {
        seq![CREATE_ATTACHMENTS@, INDEX_ATTACHMENTS_ENTITY@]
    } else if version == 4 {
        seq![CREATE_BUSINESS_OPTIONS@, IMPORT_RELATED_UNITS@, IMPORT_DESTINATIONS@, INDEX_BUSINESS_OPTIONS_KIND_NAME@]
    } else if version == 5 {
        seq![ADD_MATERIAL_BARCODE@, INDEX_MATERIALS_BARCODE@]
    } else if version == 6 {
        seq![ADD_ADJUSTMENT_BASIS@]
    } else if version == 7 {
        seq![INDEX_TRANSACTIONS_OCCURRED_ID@, INDEX_TRANSACTIONS_MATERIAL_OCCURRED_ID@, INDEX_TRANSACTIONS_TYPE_OCCURRED_ID@]
    } else if version == 8 {
        seq![TRIM_MATERIAL_NAMES@, DROP_MERGE_MAP@, CREATE_MERGE_MAP@, FILL_MERGE_MAP@, DROP_MERGED_BALANCES@, CREATE_MERGED_BALANCES@, CLEAR_BALANCES@, RESTORE_MERGED_BALANCES@, REPOINT_TRANSACTIONS@, REPOINT_MATERIAL_ATTACHMENTS@, DELETE_DUPLICATE_MATERIALS@, INDEX_MATERIALS_NAME_UNIT_UNIQUE@, DROP_MERGED_BALANCES@, DROP_MERGE_MAP@]
    } else if version == 9 {
        seq![INDEX_INVENTORY_LOCATION_MATERIAL@]
    } else {
        Seq::empty()
    }
}

/// The text of each statement of `statements`.
pub open spec fn statement_texts(statements: Seq<&'static str>) -> Seq<Seq<char>> {
    statements.map_values(|s: &'static str| s@)
}

/// Every migration, in order: version 1 first, version 9 last, each with
/// the statements of [`migration_statements`].
pub fn migrations() -> (r: Vec<Migration>)
    ensures
        r@.len() == LATEST_SCHEMA_VERSION,
        forall|i: int|
            0 <= i < r@.len() ==> (#[trigger] r@[i]).version == i + 1 && statement_texts(
                r@[i].statements@,
            ) == migration_statements(i + 1),
{
    let mut migrations: Vec<Migration> = Vec::new();
    let statements: Vec<&'static str> = vec![CREATE_UNITS, CREATE_LOCATIONS, CREATE_MATERIALS, CREATE_INVENTORY_BALANCES, CREATE_STOCK_TRANSACTIONS, CREATE_BACKUP_RECORDS, CREATE_APP_SETTINGS, INDEX_MATERIALS_NAME, INDEX_TRANSACTIONS_MATERIAL, INDEX_TRANSACTIONS_OCCURRED_AT, INDEX_TRANSACTIONS_TYPE, INDEX_TRANSACTIONS_DESTINATION];
    assert(statement_texts(statements@) =~= migration_statements(1));
    migrations.push(Migration { version: 1, statements });
    let statements: Vec<&'static str> = vec![INSERT_DEFAULT_UNITS];
    assert(statement_texts(statements@) =~= migration_statements(2));
    migrations.push(Migration { version: 2, statements });
    let statements: Vec<&'static str> = vec![CREATE_ATTACHMENTS, INDEX_ATTACHMENTS_ENTITY];
    assert(statement_texts(statements@) =~= migration_statements(3));
    migrations.push(Migration { version: 3, statements });
    let statements: Vec<&'static str> = vec![CREATE_BUSINESS_OPTIONS, IMPORT_RELATED_UNITS, IMPORT_DESTINATIONS, INDEX_BUSINESS_OPTIONS_KIND_NAME];
    assert(statement_texts(statements@) =~= migration_statements(4));
    migrations.push(Migration { version: 4, statements });
    let statements: Vec<&'static str> = vec![ADD_MATERIAL_BARCODE, INDEX_MATERIALS_BARCODE];
    assert(statement_texts(statements@) =~= migration_statements(5));
    migrations.push(Migration { version: 5, statements });
    let statements: Vec<&'static str> = vec![ADD_ADJUSTMENT_BASIS];
    assert(statement_texts(statements@) =~= migration_statements(6));
    migrations.push(Migration { version: 6, statements });
    let statements: Vec<&'static str> = vec![INDEX_TRANSACTIONS_OCCURRED_ID, INDEX_TRANSACTIONS_MATERIAL_OCCURRED_ID, INDEX_TRANSACTIONS_TYPE_OCCURRED_ID];
    assert(statement_texts(statements@) =~= migration_statements(7));
    migrations.push(Migration { version: 7, statements });
    let statements: Vec<&'static str> = vec![TRIM_MATERIAL_NAMES, DROP_MERGE_MAP, CREATE_MERGE_MAP, FILL_MERGE_MAP, DROP_MERGED_BALANCES, CREATE_MERGED_BALANCES, CLEAR_BALANCES, RESTORE_MERGED_BALANCES, REPOINT_TRANSACTIONS, REPOINT_MATERIAL_ATTACHMENTS, DELETE_DUPLICATE_MATERIALS, INDEX_MATERIALS_NAME_UNIT_UNIQUE, DROP_MERGED_BALANCES, DROP_MERGE_MAP];
    assert(statement_texts(statements@) =~= migration_statements(8));
    migrations.push(Migration { version: 8, statements });
    let statements: Vec<&'static str> = vec![INDEX_INVENTORY_LOCATION_MATERIAL];
    assert(statement_texts(statements@) =~= migration_statements(9));
    migrations.push(Migration { version: 9, statements });
    migrations
}

/// The message for a database written by a newer program.
pub open spec fn newer_schema_message(current: int) -> Seq<char> {
    "数据库结构版本 "@ + signed_decimal(current) + " 高于当前程序支持的版本 9，为避免旧程序破坏新数据，本次启动已中止"@
}

/// How many of the migrations a database of version `current` already has.
pub open spec fn applied_count(current: i64) -> int {
    if current < 0 {
        0
    } else {
        current as int
    }
}

/// The migrations that a database of version `current` still needs, taken
/// from `all` (every migration, in order); a database newer than this
/// program is refused rather than downgraded.
pub fn pending_migrations(all: Vec<Migration>, current: i64) -> (r: Result<Vec<Migration>, String>)
    requires
        all@.len() == LATEST_SCHEMA_VERSION,
        forall|i: int| 0 <= i < all@.len() ==> (#[trigger] all@[i]).version == i + 1,
    ensures
        current > LATEST_SCHEMA_VERSION ==> (r matches Err(e) && e@ == newer_schema_message(current as int)),
        current <= LATEST_SCHEMA_VERSION ==> (r matches Ok(ms) && ms@ == all@.subrange(applied_count(current), LATEST_SCHEMA_VERSION as int)),
{
    if current > LATEST_SCHEMA_VERSION {
        let mut e = concat("数据库结构版本 ", signed_decimal_text(current).as_str());
        e.append(" 高于当前程序支持的版本 9，为避免旧程序破坏新数据，本次启动已中止");
        return Err(e);
    }
    let n: usize = if current < 0 { 0 } else { current as usize };
    let mut all = all;
    let pending = all.split_off(n);
    Ok(pending)
}

/// The version of a database of version `current` once `pending` has been
/// applied: that of the last migration applied, else `current`.
pub fn version_after(current: i64, pending: &Vec<Migration>) -> (r: i64)
    ensures
        r == if pending@.len() == 0 { current } else { pending@.last().version },
{
    if pending.len() == 0 {
        current
    } else {
        pending[pending.len() - 1].version
    }
}

/// Migrating a database that is not newer than this program always ends
/// at the latest version; a database already at the latest version needs
/// no migration, so migrating again changes nothing.
pub proof fn law_migrating_ends_at_latest_version(all: Seq<Migration>, current: i64)
    requires
        all.len() == LATEST_SCHEMA_VERSION,
        forall|i: int| 0 <= i < all.len() ==> (#[trigger] all[i]).version == i + 1,
        current <= LATEST_SCHEMA_VERSION,
    ensures
        ({
            let pending = all.subrange(applied_count(current), LATEST_SCHEMA_VERSION as int);
            &&& (if pending.len() == 0 { current } else { pending.last().version }) == LATEST_SCHEMA_VERSION
            &&& (current == LATEST_SCHEMA_VERSION ==> pending.len() == 0)
        }),
{
    let pending = all.subrange(applied_count(current), LATEST_SCHEMA_VERSION as int);
    if pending.len() > 0 {
        assert(pending.last() == all[8]);
    }
}

/// A statement failure that a migration passes over: adding a column that
/// an older, unversioned database already has (versions 5 and 6).
pub open spec fn failure_tolerated(version: i64, statement: Seq<char>, error: Seq<char>) -> bool {
    &&& ((version == 5 && occurs_in(statement, "ALTER TABLE materials ADD COLUMN"@)) || (version
        == 6 && occurs_in(statement, "ALTER TABLE stock_transactions ADD COLUMN"@)))
    &&& occurs_in(error, "duplicate column name"@)
}

/// Some statement of the migrations to versions 1 to 9 starts with
/// `prefix`.
pub open spec fn schema_has_statement_starting(prefix: Seq<char>) -> bool {
    exists|v: int, j: int|
        1 <= v <= LATEST_SCHEMA_VERSION && 0 <= j < migration_statements(v).len() && has_prefix(
            #[trigger] migration_statements(v)[j],
            prefix,
        )
}

/// Migrating a database from version 0 creates every table that the
/// commands use: units, locations, materials, balances, the ledger, backup
/// records, settings, document images and remembered options.
pub proof fn law_schema_creates_every_table()
    ensures
        schema_has_statement_starting("CREATE TABLE IF NOT EXISTS units ("@),
        schema_has_statement_starting("CREATE TABLE IF NOT EXISTS locations ("@),
        schema_has_statement_starting("CREATE TABLE IF NOT EXISTS materials ("@),
        schema_has_statement_starting("CREATE TABLE IF NOT EXISTS inventory_balances ("@),
        schema_has_statement_starting("CREATE TABLE IF NOT EXISTS stock_transactions ("@),
        schema_has_statement_starting("CREATE TABLE IF NOT EXISTS backup_records ("@),
        schema_has_statement_starting("CREATE TABLE IF NOT EXISTS app_settings ("@),
        schema_has_statement_starting("CREATE TABLE IF NOT EXISTS attachments ("@),
        schema_has_statement_starting("CREATE TABLE IF NOT EXISTS business_options ("@),
{
    assert(has_prefix(migration_statements(1)[0], "CREATE TABLE IF NOT EXISTS units ("@)) by {
        reveal_strlit(r#"CREATE TABLE IF NOT EXISTS units (
            id INTEGER PRIMARY KEY AUTOINCREMENT,
            name TEXT NOT NULL UNIQUE,
            status INTEGER NOT NULL DEFAULT 1
        )"#);
        reveal_strlit("CREATE TABLE IF NOT EXISTS units (");
        assert(CREATE_UNITS@.subrange(0, "CREATE TABLE IF NOT EXISTS units ("@.len() as int) =~= "CREATE TABLE IF NOT EXISTS units ("@);
    }
    assert(has_prefix(migration_statements(1)[1], "CREATE TABLE IF NOT EXISTS locations ("@)) by {
        reveal_strlit(r#"CREATE TABLE IF NOT EXISTS locations (
            id INTEGER PRIMARY KEY AUTOINCREMENT,
            name TEXT NOT NULL UNIQUE,
            remark TEXT,
            status INTEGER NOT NULL DEFAULT 1
        )"#);
        reveal_strlit("CREATE TABLE IF NOT EXISTS locations (");
        assert(CREATE_LOCATIONS@.subrange(0, "CREATE TABLE IF NOT EXISTS locations ("@.len() as int) =~= "CREATE TABLE IF NOT EXISTS locations ("@);
    }
    assert(has_prefix(migration_statements(1)[2], "CREATE TABLE IF NOT EXISTS materials ("@)) by {
        reveal_strlit(r#"CREATE TABLE IF NOT EXISTS materials (
            id INTEGER PRIMARY KEY AUTOINCREMENT,
            name TEXT NOT NULL,
            unit_id INTEGER,
            category TEXT,
            default_location_id INTEGER,
            remark TEXT,
            status INTEGER NOT NULL DEFAULT 1,
            created_at TEXT NOT NULL,
            updated_at TEXT NOT NULL,
            FOREIGN KEY(unit_id) REFERENCES units(id),
            FOREIGN KEY(default_location_id) REFERENCES locations(id)
        )"#);
        reveal_strlit("CREATE TABLE IF NOT EXISTS materials (");
        assert(CREATE_MATERIALS@.subrange(0, "CREATE TABLE IF NOT EXISTS materials ("@.len() as int) =~= "CREATE TABLE IF NOT EXISTS materials ("@);
    }
    assert(has_prefix(migration_statements(1)[3], "CREATE TABLE IF NOT EXISTS inventory_balances ("@)) by {
        reveal_strlit(r#"CREATE TABLE IF NOT EXISTS inventory_balances (
            id INTEGER PRIMARY KEY AUTOINCREMENT,
            material_id INTEGER NOT NULL,
            location_id INTEGER NOT NULL,
            quantity NUMERIC NOT NULL DEFAULT 0,
            updated_at TEXT NOT NULL,
            UNIQUE(material_id, location_id),
            FOREIGN KEY(material_id) REFERENCES materials(id),
            FOREIGN KEY(location_id) REFERENCES locations(id)
        )"#);
        reveal_strlit("CREATE TABLE IF NOT EXISTS inventory_balances (");
        assert(CREATE_INVENTORY_BALANCES@.subrange(0, "CREATE TABLE IF NOT EXISTS inventory_balances ("@.len() as int) =~= "CREATE TABLE IF NOT EXISTS inventory_balances ("@);
    }
    assert(has_prefix(migration_statements(1)[4], "CREATE TABLE IF NOT EXISTS stock_transactions ("@)) by {
        reveal_strlit(r#"CREATE TABLE IF NOT EXISTS stock_transactions (
            id INTEGER PRIMARY KEY AUTOINCREMENT,
            transaction_no TEXT NOT NULL UNIQUE,
            type TEXT NOT NULL CHECK(type IN ('IN', 'OUT', 'ADJUST')),
            material_id INTEGER NOT NULL,
            location_id INTEGER NOT NULL,
            quantity NUMERIC NOT NULL CHECK(quantity > 0),
            occurred_at TEXT NOT NULL,
            related_unit TEXT,
            destination TEXT,
            handler TEXT,
            receiver TEXT,
            remark TEXT,
            created_at TEXT NOT NULL,
            FOREIGN KEY(material_id) REFERENCES materials(id),
            FOREIGN KEY(location_id) REFERENCES locations(id)
        )"#);
        reveal_strlit("CREATE TABLE IF NOT EXISTS stock_transactions (");
        assert(CREATE_STOCK_TRANSACTIONS@.subrange(0, "CREATE TABLE IF NOT EXISTS stock_transactions ("@.len() as int) =~= "CREATE TABLE IF NOT EXISTS stock_transactions ("@);
    }
    assert(has_prefix(migration_statements(1)[5], "CREATE TABLE IF NOT EXISTS backup_records ("@)) by {
        reveal_strlit(r#"CREATE TABLE IF NOT EXISTS backup_records (
            id INTEGER PRIMARY KEY AUTOINCREMENT,
            file_name TEXT NOT NULL,
            file_path TEXT NOT NULL,
            backup_type TEXT NOT NULL CHECK(backup_type IN ('MANUAL', 'ANNUAL')),
            backup_year INTEGER,
            file_size INTEGER,
            checksum TEXT,
            created_at TEXT NOT NULL,
            remark TEXT
        )"#);
        reveal_strlit("CREATE TABLE IF NOT EXISTS backup_records (");
        assert(CREATE_BACKUP_RECORDS@.subrange(0, "CREATE TABLE IF NOT EXISTS backup_records ("@.len() as int) =~= "CREATE TABLE IF NOT EXISTS backup_records ("@);
    }
    assert(has_prefix(migration_statements(1)[6], "CREATE TABLE IF NOT EXISTS app_settings ("@)) by {
        reveal_strlit(r#"CREATE TABLE IF NOT EXISTS app_settings (
            key TEXT PRIMARY KEY,
            value TEXT,
            updated_at TEXT NOT NULL
        )"#);
        reveal_strlit("CREATE TABLE IF NOT EXISTS app_settings (");
        assert(CREATE_APP_SETTINGS@.subrange(0, "CREATE TABLE IF NOT EXISTS app_settings ("@.len() as int) =~= "CREATE TABLE IF NOT EXISTS app_settings ("@);
    }
    assert(has_prefix(migration_statements(3)[0], "CREATE TABLE IF NOT EXISTS attachments ("@)) by {
        reveal_strlit(r#"CREATE TABLE IF NOT EXISTS attachments (
                id INTEGER PRIMARY KEY AUTOINCREMENT,
                entity_type TEXT NOT NULL CHECK(entity_type IN ('MATERIAL', 'TRANSACTION')),
                entity_id INTEGER NOT NULL,
                file_name TEXT NOT NULL,
                mime_type TEXT NOT NULL,
                file_size INTEGER NOT NULL,
                data BLOB NOT NULL,
                created_at TEXT NOT NULL
            )"#);
        reveal_strlit("CREATE TABLE IF NOT EXISTS attachments (");
        assert(CREATE_ATTACHMENTS@.subrange(0, "CREATE TABLE IF NOT EXISTS attachments ("@.len() as int) =~= "CREATE TABLE IF NOT EXISTS attachments ("@);
    }
    assert(has_prefix(migration_statements(4)[0], "CREATE TABLE IF NOT EXISTS business_options ("@)) by {
        reveal_strlit(r#"CREATE TABLE IF NOT EXISTS business_options (
                id INTEGER PRIMARY KEY AUTOINCREMENT,
                kind TEXT NOT NULL CHECK(kind IN ('RELATED_UNIT', 'DESTINATION')),
                name TEXT NOT NULL COLLATE NOCASE,
                status INTEGER NOT NULL DEFAULT 1,
                UNIQUE(kind, name)
            )"#);
        reveal_strlit("CREATE TABLE IF NOT EXISTS business_options (");
        assert(CREATE_BUSINESS_OPTIONS@.subrange(0, "CREATE TABLE IF NOT EXISTS business_options ("@.len() as int) =~= "CREATE TABLE IF NOT EXISTS business_options ("@);
    }
}

/// Migrating a database from version 0 creates the indexes that the
/// queries rely on: images by owner, the ledger by date (overall, per
/// material and per kind), the unique material name per unit, and
/// balances by location.
pub proof fn law_schema_creates_the_query_indexes()
    ensures
        schema_has_statement_starting("CREATE INDEX IF NOT EXISTS idx_attachments_entity ON attachments("@),
        schema_has_statement_starting("CREATE INDEX IF NOT EXISTS idx_transactions_occurred_id ON stock_transactions("@),
        schema_has_statement_starting("CREATE INDEX IF NOT EXISTS idx_transactions_material_occurred_id ON stock_transactions("@),
        schema_has_statement_starting("CREATE INDEX IF NOT EXISTS idx_transactions_type_occurred_id ON stock_transactions("@),
        schema_has_statement_starting("CREATE UNIQUE INDEX IF NOT EXISTS idx_materials_name_unit_unique ON materials("@),
        schema_has_statement_starting("CREATE INDEX IF NOT EXISTS idx_inventory_location_material ON inventory_balances("@),
{
    assert(has_prefix(migration_statements(3)[1], "CREATE INDEX IF NOT EXISTS idx_attachments_entity ON attachments("@)) by {
        reveal_strlit("CREATE INDEX IF NOT EXISTS idx_attachments_entity ON attachments(entity_type, entity_id)");
        reveal_strlit("CREATE INDEX IF NOT EXISTS idx_attachments_entity ON attachments(");
        assert(INDEX_ATTACHMENTS_ENTITY@.subrange(0, "CREATE INDEX IF NOT EXISTS idx_attachments_entity ON attachments("@.len() as int) =~= "CREATE INDEX IF NOT EXISTS idx_attachments_entity ON attachments("@);
    }
    assert(has_prefix(migration_statements(7)[0], "CREATE INDEX IF NOT EXISTS idx_transactions_occurred_id ON stock_transactions("@)) by {
        reveal_strlit("CREATE INDEX IF NOT EXISTS idx_transactions_occurred_id ON stock_transactions(occurred_at DESC, id DESC)");
        reveal_strlit("CREATE INDEX IF NOT EXISTS idx_transactions_occurred_id ON stock_transactions(");
        assert(INDEX_TRANSACTIONS_OCCURRED_ID@.subrange(0, "CREATE INDEX IF NOT EXISTS idx_transactions_occurred_id ON stock_transactions("@.len() as int) =~= "CREATE INDEX IF NOT EXISTS idx_transactions_occurred_id ON stock_transactions("@);
    }
    assert(has_prefix(migration_statements(7)[1], "CREATE INDEX IF NOT EXISTS idx_transactions_material_occurred_id ON stock_transactions("@)) by {
        reveal_strlit("CREATE INDEX IF NOT EXISTS idx_transactions_material_occurred_id ON stock_transactions(material_id, occurred_at DESC, id DESC)");
        reveal_strlit("CREATE INDEX IF NOT EXISTS idx_transactions_material_occurred_id ON stock_transactions(");
        assert(INDEX_TRANSACTIONS_MATERIAL_OCCURRED_ID@.subrange(0, "CREATE INDEX IF NOT EXISTS idx_transactions_material_occurred_id ON stock_transactions("@.len() as int) =~= "CREATE INDEX IF NOT EXISTS idx_transactions_material_occurred_id ON stock_transactions("@);
    }
    assert(has_prefix(migration_statements(7)[2], "CREATE INDEX IF NOT EXISTS idx_transactions_type_occurred_id ON stock_transactions("@)) by {
        reveal_strlit("CREATE INDEX IF NOT EXISTS idx_transactions_type_occurred_id ON stock_transactions(type, occurred_at DESC, id DESC)");
        reveal_strlit("CREATE INDEX IF NOT EXISTS idx_transactions_type_occurred_id ON stock_transactions(");
        assert(INDEX_TRANSACTIONS_TYPE_OCCURRED_ID@.subrange(0, "CREATE INDEX IF NOT EXISTS idx_transactions_type_occurred_id ON stock_transactions("@.len() as int) =~= "CREATE INDEX IF NOT EXISTS idx_transactions_type_occurred_id ON stock_transactions("@);
    }
    assert(has_prefix(migration_statements(8)[11], "CREATE UNIQUE INDEX IF NOT EXISTS idx_materials_name_unit_unique ON materials("@)) by {
        reveal_strlit("CREATE UNIQUE INDEX IF NOT EXISTS idx_materials_name_unit_unique ON materials(name COLLATE NOCASE,COALESCE(unit_id,-1))");
        reveal_strlit("CREATE UNIQUE INDEX IF NOT EXISTS idx_materials_name_unit_unique ON materials(");
        assert(INDEX_MATERIALS_NAME_UNIT_UNIQUE@.subrange(0, "CREATE UNIQUE INDEX IF NOT EXISTS idx_materials_name_unit_unique ON materials("@.len() as int) =~= "CREATE UNIQUE INDEX IF NOT EXISTS idx_materials_name_unit_unique ON materials("@);
    }
    assert(has_prefix(migration_statements(9)[0], "CREATE INDEX IF NOT EXISTS idx_inventory_location_material ON inventory_balances("@)) by {
        reveal_strlit("CREATE INDEX IF NOT EXISTS idx_inventory_location_material ON inventory_balances(location_id,material_id)");
        reveal_strlit("CREATE INDEX IF NOT EXISTS idx_inventory_location_material ON inventory_balances(");
        assert(INDEX_INVENTORY_LOCATION_MATERIAL@.subrange(0, "CREATE INDEX IF NOT EXISTS idx_inventory_location_material ON inventory_balances("@.len() as int) =~= "CREATE INDEX IF NOT EXISTS idx_inventory_location_material ON inventory_balances("@);
    }
}

/// Some statement of the migrations to versions 1 to 9 starts with
/// `prefix` and contains `part`.
pub open spec fn schema_has_statement_with(prefix: Seq<char>, part: Seq<char>) -> bool {
    exists|v: int, j: int|
        1 <= v <= LATEST_SCHEMA_VERSION && 0 <= j < migration_statements(v).len() && has_prefix(
            #[trigger] migration_statements(v)[j],
            prefix,
        ) && occurs_in(migration_statements(v)[j], part)
}

/// Migrating a database from version 0 fills in its data: the nine
/// default units of measure, the remembered related units and
/// destinations taken from the ledger, and, for materials entered twice
/// (same name ignoring case, same unit), one material that keeps the
/// summed balances, the ledger rows and the document images of the
/// duplicates, which are deleted.
pub proof fn law_schema_fills_in_its_data()
    ensures
        schema_has_statement_with("INSERT OR IGNORE INTO units(name, status) VALUES"@, "('发', 1)"@),
        schema_has_statement_with("INSERT OR IGNORE INTO units(name, status) VALUES"@, "('支', 1)"@),
        schema_has_statement_with("INSERT OR IGNORE INTO units(name, status) VALUES"@, "('具', 1)"@),
        schema_has_statement_with("INSERT OR IGNORE INTO units(name, status) VALUES"@, "('件', 1)"@),
        schema_has_statement_with("INSERT OR IGNORE INTO units(name, status) VALUES"@, "('套', 1)"@),
        schema_has_statement_with("INSERT OR IGNORE INTO units(name, status) VALUES"@, "('枚', 1)"@),
        schema_has_statement_with("INSERT OR IGNORE INTO units(name, status) VALUES"@, "('米', 1)"@),
        schema_has_statement_with("INSERT OR IGNORE INTO units(name, status) VALUES"@, "('公斤', 1)"@),
        schema_has_statement_with("INSERT OR IGNORE INTO units(name, status) VALUES"@, "('箱', 1)"@),
        schema_has_statement_with("INSERT OR IGNORE INTO business_options(kind,name,status)"@, "SELECT 'RELATED_UNIT', TRIM(related_unit), 1 FROM stock_transactions"@),
        schema_has_statement_with("INSERT OR IGNORE INTO business_options(kind,name,status)"@, "SELECT 'DESTINATION', TRIM(destination), 1 FROM stock_transactions"@),
        schema_has_statement_with("UPDATE stock_transactions"@, "SET material_id=(SELECT canonical_id FROM material_merge_map WHERE duplicate_id=stock_transactions.material_id)"@),
        schema_has_statement_with("UPDATE attachments"@, "WHERE entity_type='MATERIAL' AND entity_id IN (SELECT duplicate_id FROM material_merge_map)"@),
        schema_has_statement_with("DELETE FROM materials"@, "WHERE id IN (SELECT duplicate_id FROM material_merge_map)"@),
        schema_has_statement_with("INSERT INTO inventory_balances"@, "FROM merged_inventory_balances"@),
        schema_has_statement_with("CREATE TEMP TABLE merged_inventory_balances AS"@, "SUM(b.quantity) AS quantity"@),
{
    assert(has_prefix(migration_statements(2)[0], "INSERT OR IGNORE INTO units(name, status) VALUES"@) && occurs_in(
        migration_statements(2)[0],
        "('发', 1)"@,
    )) by {
        reveal_strlit(r#"INSERT OR IGNORE INTO units(name, status) VALUES
            ('发', 1),
            ('支', 1),
            ('具', 1),
            ('件', 1),
            ('套', 1),
            ('枚', 1),
            ('米', 1),
            ('公斤', 1),
            ('箱', 1)"#);
        reveal_strlit("INSERT OR IGNORE INTO units(name, status) VALUES");
        reveal_strlit("('发', 1)");
        assert(INSERT_DEFAULT_UNITS@.subrange(0, "INSERT OR IGNORE INTO units(name, status) VALUES"@.len() as int) =~= "INSERT OR IGNORE INTO units(name, status) VALUES"@);
        assert(INSERT_DEFAULT_UNITS@.subrange(61int, 61int + "('发', 1)"@.len()) =~= "('发', 1)"@);
    }
    assert(has_prefix(migration_statements(2)[0], "INSERT OR IGNORE INTO units(name, status) VALUES"@) && occurs_in(
        migration_statements(2)[0],
        "('支', 1)"@,
    )) by {
        reveal_strlit(r#"INSERT OR IGNORE INTO units(name, status) VALUES
            ('发', 1),
            ('支', 1),
            ('具', 1),
            ('件', 1),
            ('套', 1),
            ('枚', 1),
            ('米', 1),
            ('公斤', 1),
            ('箱', 1)"#);
        reveal_strlit("INSERT OR IGNORE INTO units(name, status) VALUES");
        reveal_strlit("('支', 1)");
        assert(INSERT_DEFAULT_UNITS@.subrange(0, "INSERT OR IGNORE INTO units(name, status) VALUES"@.len() as int) =~= "INSERT OR IGNORE INTO units(name, status) VALUES"@);
        assert(INSERT_DEFAULT_UNITS@.subrange(83int, 83int + "('支', 1)"@.len()) =~= "('支', 1)"@);
    }
    assert(has_prefix(migration_statements(2)[0], "INSERT OR IGNORE INTO units(name, status) VALUES"@) && occurs_in(
        migration_statements(2)[0],
        "('具', 1)"@,
    )) by {
        reveal_strlit(r#"INSERT OR IGNORE INTO units(name, status) VALUES
            ('发', 1),
            ('支', 1),
            ('具', 1),
            ('件', 1),
            ('套', 1),
            ('枚', 1),
            ('米', 1),
            ('公斤', 1),
            ('箱', 1)"#);
        reveal_strlit("INSERT OR IGNORE INTO units(name, status) VALUES");
        reveal_strlit("('具', 1)");
        assert(INSERT_DEFAULT_UNITS@.subrange(0, "INSERT OR IGNORE INTO units(name, status) VALUES"@.len() as int) =~= "INSERT OR IGNORE INTO units(name, status) VALUES"@);
        assert(INSERT_DEFAULT_UNITS@.subrange(105int, 105int + "('具', 1)"@.len()) =~= "('具', 1)"@);
    }
    assert(has_prefix(migration_statements(2)[0], "INSERT OR IGNORE INTO units(name, status) VALUES"@) && occurs_in(
        migration_statements(2)[0],
        "('件', 1)"@,
    )) by {
        reveal_strlit(r#"INSERT OR IGNORE INTO units(name, status) VALUES
            ('发', 1),
            ('支', 1),
            ('具', 1),
            ('件', 1),
            ('套', 1),
            ('枚', 1),
            ('米', 1),
            ('公斤', 1),
            ('箱', 1)"#);
        reveal_strlit("INSERT OR IGNORE INTO units(name, status) VALUES");
        reveal_strlit("('件', 1)");
        assert(INSERT_DEFAULT_UNITS@.subrange(0, "INSERT OR IGNORE INTO units(name, status) VALUES"@.len() as int) =~= "INSERT OR IGNORE INTO units(name, status) VALUES"@);
        assert(INSERT_DEFAULT_UNITS@.subrange(127int, 127int + "('件', 1)"@.len()) =~= "('件', 1)"@);
    }
    assert(has_prefix(migration_statements(2)[0], "INSERT OR IGNORE INTO units(name, status) VALUES"@) && occurs_in(
        migration_statements(2)[0],
        "('套', 1)"@,
    )) by {
        reveal_strlit(r#"INSERT OR IGNORE INTO units(name, status) VALUES
            ('发', 1),
            ('支', 1),
            ('具', 1),
            ('件', 1),
            ('套', 1),
            ('枚', 1),
            ('米', 1),
            ('公斤', 1),
            ('箱', 1)"#);
        reveal_strlit("INSERT OR IGNORE INTO units(name, status) VALUES");
        reveal_strlit("('套', 1)");
        assert(INSERT_DEFAULT_UNITS@.subrange(0, "INSERT OR IGNORE INTO units(name, status) VALUES"@.len() as int) =~= "INSERT OR IGNORE INTO units(name, status) VALUES"@);
        assert(INSERT_DEFAULT_UNITS@.subrange(149int, 149int + "('套', 1)"@.len()) =~= "('套', 1)"@);
    }
    assert(has_prefix(migration_statements(2)[0], "INSERT OR IGNORE INTO units(name, status) VALUES"@) && occurs_in(
        migration_statements(2)[0],
        "('枚', 1)"@,
    )) by {
        reveal_strlit(r#"INSERT OR IGNORE INTO units(name, status) VALUES
            ('发', 1),
            ('支', 1),
            ('具', 1),
            ('件', 1),
            ('套', 1),
            ('枚', 1),
            ('米', 1),
            ('公斤', 1),
            ('箱', 1)"#);
        reveal_strlit("INSERT OR IGNORE INTO units(name, status) VALUES");
        reveal_strlit("('枚', 1)");
        assert(INSERT_DEFAULT_UNITS@.subrange(0, "INSERT OR IGNORE INTO units(name, status) VALUES"@.len() as int) =~= "INSERT OR IGNORE INTO units(name, status) VALUES"@);
        assert(INSERT_DEFAULT_UNITS@.subrange(171int, 171int + "('枚', 1)"@.len()) =~= "('枚', 1)"@);
    }
    assert(has_prefix(migration_statements(2)[0], "INSERT OR IGNORE INTO units(name, status) VALUES"@) && occurs_in(
        migration_statements(2)[0],
        "('米', 1)"@,
    )) by {
        reveal_strlit(r#"INSERT OR IGNORE INTO units(name, status) VALUES
            ('发', 1),
            ('支', 1),
            ('具', 1),
            ('件', 1),
            ('套', 1),
            ('枚', 1),
            ('米', 1),
            ('公斤', 1),
            ('箱', 1)"#);
        reveal_strlit("INSERT OR IGNORE INTO units(name, status) VALUES");
        reveal_strlit("('米', 1)");
        assert(INSERT_DEFAULT_UNITS@.subrange(0, "INSERT OR IGNORE INTO units(name, status) VALUES"@.len() as int) =~= "INSERT OR IGNORE INTO units(name, status) VALUES"@);
        assert(INSERT_DEFAULT_UNITS@.subrange(193int, 193int + "('米', 1)"@.len()) =~= "('米', 1)"@);
    }
    assert(has_prefix(migration_statements(2)[0], "INSERT OR IGNORE INTO units(name, status) VALUES"@) && occurs_in(
        migration_statements(2)[0],
        "('公斤', 1)"@,
    )) by {
        reveal_strlit(r#"INSERT OR IGNORE INTO units(name, status) VALUES
            ('发', 1),
            ('支', 1),
            ('具', 1),
            ('件', 1),
            ('套', 1),
            ('枚', 1),
            ('米', 1),
            ('公斤', 1),
            ('箱', 1)"#);
        reveal_strlit("INSERT OR IGNORE INTO units(name, status) VALUES");
        reveal_strlit("('公斤', 1)");
        assert(INSERT_DEFAULT_UNITS@.subrange(0, "INSERT OR IGNORE INTO units(name, status) VALUES"@.len() as int) =~= "INSERT OR IGNORE INTO units(name, status) VALUES"@);
        assert(INSERT_DEFAULT_UNITS@.subrange(215int, 215int + "('公斤', 1)"@.len()) =~= "('公斤', 1)"@);
    }
    assert(has_prefix(migration_statements(2)[0], "INSERT OR IGNORE INTO units(name, status) VALUES"@) && occurs_in(
        migration_statements(2)[0],
        "('箱', 1)"@,
    )) by {
        reveal_strlit(r#"INSERT OR IGNORE INTO units(name, status) VALUES
            ('发', 1),
            ('支', 1),
            ('具', 1),
            ('件', 1),
            ('套', 1),
            ('枚', 1),
            ('米', 1),
            ('公斤', 1),
            ('箱', 1)"#);
        reveal_strlit("INSERT OR IGNORE INTO units(name, status) VALUES");
        reveal_strlit("('箱', 1)");
        assert(INSERT_DEFAULT_UNITS@.subrange(0, "INSERT OR IGNORE INTO units(name, status) VALUES"@.len() as int) =~= "INSERT OR IGNORE INTO units(name, status) VALUES"@);
        assert(INSERT_DEFAULT_UNITS@.subrange(238int, 238int + "('箱', 1)"@.len()) =~= "('箱', 1)"@);
    }
    assert(has_prefix(migration_statements(4)[1], "INSERT OR IGNORE INTO business_options(kind,name,status)"@) && occurs_in(
        migration_statements(4)[1],
        "SELECT 'RELATED_UNIT', TRIM(related_unit), 1 FROM stock_transactions"@,
    )) by {
        reveal_strlit(r#"INSERT OR IGNORE INTO business_options(kind,name,status)
               SELECT 'RELATED_UNIT', TRIM(related_unit), 1 FROM stock_transactions
               WHERE TRIM(COALESCE(related_unit,'')) <> ''"#);
        reveal_strlit("INSERT OR IGNORE INTO business_options(kind,name,status)");
        reveal_strlit("SELECT 'RELATED_UNIT', TRIM(related_unit), 1 FROM stock_transactions");
        assert(IMPORT_RELATED_UNITS@.subrange(0, "INSERT OR IGNORE INTO business_options(kind,name,status)"@.len() as int) =~= "INSERT OR IGNORE INTO business_options(kind,name,status)"@);
        assert(IMPORT_RELATED_UNITS@.subrange(72int, 72int + "SELECT 'RELATED_UNIT', TRIM(related_unit), 1 FROM stock_transactions"@.len()) =~= "SELECT 'RELATED_UNIT', TRIM(related_unit), 1 FROM stock_transactions"@);
    }
    assert(has_prefix(migration_statements(4)[2], "INSERT OR IGNORE INTO business_options(kind,name,status)"@) && occurs_in(
        migration_statements(4)[2],
        "SELECT 'DESTINATION', TRIM(destination), 1 FROM stock_transactions"@,
    )) by {
        reveal_strlit(r#"INSERT OR IGNORE INTO business_options(kind,name,status)
               SELECT 'DESTINATION', TRIM(destination), 1 FROM stock_transactions
               WHERE TRIM(COALESCE(destination,'')) <> ''"#);
        reveal_strlit("INSERT OR IGNORE INTO business_options(kind,name,status)");
        reveal_strlit("SELECT 'DESTINATION', TRIM(destination), 1 FROM stock_transactions");
        assert(IMPORT_DESTINATIONS@.subrange(0, "INSERT OR IGNORE INTO business_options(kind,name,status)"@.len() as int) =~= "INSERT OR IGNORE INTO business_options(kind,name,status)"@);
        assert(IMPORT_DESTINATIONS@.subrange(72int, 72int + "SELECT 'DESTINATION', TRIM(destination), 1 FROM stock_transactions"@.len()) =~= "SELECT 'DESTINATION', TRIM(destination), 1 FROM stock_transactions"@);
    }
    assert(has_prefix(migration_statements(8)[8], "UPDATE stock_transactions"@) && occurs_in(
        migration_statements(8)[8],
        "SET material_id=(SELECT canonical_id FROM material_merge_map WHERE duplicate_id=stock_transactions.material_id)"@,
    )) by {
        reveal_strlit(r#"UPDATE stock_transactions
               SET material_id=(SELECT canonical_id FROM material_merge_map WHERE duplicate_id=stock_transactions.material_id)
               WHERE material_id IN (SELECT duplicate_id FROM material_merge_map)"#);
        reveal_strlit("UPDATE stock_transactions");
        reveal_strlit("SET material_id=(SELECT canonical_id FROM material_merge_map WHERE duplicate_id=stock_transactions.material_id)");
        assert(REPOINT_TRANSACTIONS@.subrange(0, "UPDATE stock_transactions"@.len() as int) =~= "UPDATE stock_transactions"@);
        assert(REPOINT_TRANSACTIONS@.subrange(41int, 41int + "SET material_id=(SELECT canonical_id FROM material_merge_map WHERE duplicate_id=stock_transactions.material_id)"@.len()) =~= "SET material_id=(SELECT canonical_id FROM material_merge_map WHERE duplicate_id=stock_transactions.material_id)"@);
    }
    assert(has_prefix(migration_statements(8)[9], "UPDATE attachments"@) && occurs_in(
        migration_statements(8)[9],
        "WHERE entity_type='MATERIAL' AND entity_id IN (SELECT duplicate_id FROM material_merge_map)"@,
    )) by {
        reveal_strlit(r#"UPDATE attachments
               SET entity_id=(SELECT canonical_id FROM material_merge_map WHERE duplicate_id=attachments.entity_id)
               WHERE entity_type='MATERIAL' AND entity_id IN (SELECT duplicate_id FROM material_merge_map)"#);
        reveal_strlit("UPDATE attachments");
        reveal_strlit("WHERE entity_type='MATERIAL' AND entity_id IN (SELECT duplicate_id FROM material_merge_map)");
        assert(REPOINT_MATERIAL_ATTACHMENTS@.subrange(0, "UPDATE attachments"@.len() as int) =~= "UPDATE attachments"@);
        assert(REPOINT_MATERIAL_ATTACHMENTS@.subrange(150int, 150int + "WHERE entity_type='MATERIAL' AND entity_id IN (SELECT duplicate_id FROM material_merge_map)"@.len()) =~= "WHERE entity_type='MATERIAL' AND entity_id IN (SELECT duplicate_id FROM material_merge_map)"@);
    }
    assert(has_prefix(migration_statements(8)[10], "DELETE FROM materials"@) && occurs_in(
        migration_statements(8)[10],
        "WHERE id IN (SELECT duplicate_id FROM material_merge_map)"@,
    )) by {
        reveal_strlit("DELETE FROM materials WHERE id IN (SELECT duplicate_id FROM material_merge_map)");
        reveal_strlit("DELETE FROM materials");
        reveal_strlit("WHERE id IN (SELECT duplicate_id FROM material_merge_map)");
        assert(DELETE_DUPLICATE_MATERIALS@.subrange(0, "DELETE FROM materials"@.len() as int) =~= "DELETE FROM materials"@);
        assert(DELETE_DUPLICATE_MATERIALS@.subrange(22int, 22int + "WHERE id IN (SELECT duplicate_id FROM material_merge_map)"@.len()) =~= "WHERE id IN (SELECT duplicate_id FROM material_merge_map)"@);
    }
    assert(has_prefix(migration_statements(8)[7], "INSERT INTO inventory_balances"@) && occurs_in(
        migration_statements(8)[7],
        "FROM merged_inventory_balances"@,
    )) by {
        reveal_strlit(r#"INSERT INTO inventory_balances(material_id,location_id,quantity,updated_at)
               SELECT material_id,location_id,quantity,updated_at FROM merged_inventory_balances"#);
        reveal_strlit("INSERT INTO inventory_balances");
        reveal_strlit("FROM merged_inventory_balances");
        assert(RESTORE_MERGED_BALANCES@.subrange(0, "INSERT INTO inventory_balances"@.len() as int) =~= "INSERT INTO inventory_balances"@);
        assert(RESTORE_MERGED_BALANCES@.subrange(142int, 142int + "FROM merged_inventory_balances"@.len()) =~= "FROM merged_inventory_balances"@);
    }
    assert(has_prefix(migration_statements(8)[5], "CREATE TEMP TABLE merged_inventory_balances AS"@) && occurs_in(
        migration_statements(8)[5],
        "SUM(b.quantity) AS quantity"@,
    )) by {
        reveal_strlit(r#"CREATE TEMP TABLE merged_inventory_balances AS
               SELECT COALESCE(mm.canonical_id,b.material_id) AS material_id,
                      b.location_id,
                      SUM(b.quantity) AS quantity,
                      MAX(b.updated_at) AS updated_at
               FROM inventory_balances b
               LEFT JOIN material_merge_map mm ON mm.duplicate_id=b.material_id
               GROUP BY COALESCE(mm.canonical_id,b.material_id),b.location_id"#);
        reveal_strlit("CREATE TEMP TABLE merged_inventory_balances AS");
        reveal_strlit("SUM(b.quantity) AS quantity");
        assert(CREATE_MERGED_BALANCES@.subrange(0, "CREATE TEMP TABLE merged_inventory_balances AS"@.len() as int) =~= "CREATE TEMP TABLE merged_inventory_balances AS"@);
        assert(CREATE_MERGED_BALANCES@.subrange(184int, 184int + "SUM(b.quantity) AS quantity"@.len()) =~= "SUM(b.quantity) AS quantity"@);
    }
}

/// A database that already has the columns that versions 5 and 6 add
/// (one migrated before schema versions were recorded) still migrates:
/// the "duplicate column name" failure of those column additions is
/// passed over.
pub proof fn law_existing_columns_are_tolerated(error: Seq<char>)
    requires
        occurs_in(error, "duplicate column name"@),
    ensures
        failure_tolerated(5, migration_statements(5)[0], error),
        failure_tolerated(6, migration_statements(6)[0], error),
{
    reveal_strlit("ALTER TABLE materials ADD COLUMN barcode TEXT");
    reveal_strlit("ALTER TABLE materials ADD COLUMN");
    reveal_strlit("ALTER TABLE stock_transactions ADD COLUMN adjustment_basis TEXT");
    reveal_strlit("ALTER TABLE stock_transactions ADD COLUMN");
    let a = ADD_MATERIAL_BARCODE@;
    let b = ADD_ADJUSTMENT_BASIS@;
    let na = "ALTER TABLE materials ADD COLUMN"@;
    let nb = "ALTER TABLE stock_transactions ADD COLUMN"@;
    assert(a == "ALTER TABLE materials ADD COLUMN barcode TEXT"@);
    assert(b == "ALTER TABLE stock_transactions ADD COLUMN adjustment_basis TEXT"@);
    assert(a.subrange(0int, 0int + na.len()) =~= na);
    assert(b.subrange(0int, 0int + nb.len()) =~= nb);
    assert(migration_statements(5)[0] == a);
    assert(migration_statements(6)[0] == b);
}

/// Whether the failure `error` of `statement` in migration `version` is
/// passed over.
pub fn statement_failure_tolerated(version: i64, statement: &str, error: &str) -> (r: bool)
    ensures
        r == failure_tolerated(version, statement@, error@),
{
    let adds_column = (version == 5 && contains_text(statement, "ALTER TABLE materials ADD COLUMN"))
        || (version == 6 && contains_text(statement, "ALTER TABLE stock_transactions ADD COLUMN"));
    adds_column && contains_text(error, "duplicate column name")
}

/// The statement that records `version` as the schema version.
pub fn user_version_sql(version: i64) -> (r: String)
    ensures
        r@ == "PRAGMA user_version = "@ + signed_decimal(version as int),
{
    concat("PRAGMA user_version = ", signed_decimal_text(version).as_str())
}

} // verus!
