# kylin_stock

The rules of a warehouse stock ledger, verified with Verus: receipts,
issues, batches, transfers between locations, deleting and correcting
ledger rows, the inventory page query, document-image attachments,
schema migrations and OCR scanning of transfer documents.

Quantities are exact hundredths of a unit. Each operation is planned by
the library (`src/`) as ledger rows plus a sequence of balance changes;
`src/ledger.rs` models the balance table those changes act on, and
`src/laws.rs` proves what the operations promise of it (receipts add,
issues take only available stock, deletions restore, corrections apply
their net change, transfers conserve stock, balances never go negative);
`src/consistency.rs` proves that every operation keeps each balance equal
to the total of the ledger rows at its material and location.

`app/` holds the SQLite access, file and process I/O and the JSON shapes
of the commands; it executes each plan inside one database transaction.
