//! The ledger and the balances agree: every balance is the sum of the
//! effects of the ledger rows at its material and location, and every
//! operation keeps it so.
use vstd::prelude::*;
use crate::correction::{deletion_outcome, net_deltas, settlement};
use crate::inventory::{
    StockInPlan, StockOperationInput, StockOutPlan, StockOutRequest, is_stock_out_plan, receives,
    requests,
};
use crate::laws::{
    corrected_balance, law_correction_applies_its_net_change, law_issue_takes_from_the_available_stock,
    law_receipt_adds_its_quantity, law_transfer_moves_stock,
};
use crate::ledger::{
    BalanceModel, EntryKind, LedgerRecord, NewLedgerEntry, apply_changes, balance, entry_effect,
    kind_code,
};
use crate::quantity::QuantityInput;
use crate::transfer::{StockTransferInput, TransferPlan, is_transfer_plan, transfer_error};

verus! {

/// A ledger row as the balances see it: kind, material, location and
/// quantity in hundredths.
pub type LedgerRow = (EntryKind, i64, i64, i64);

/// The ledger, oldest row first.
pub type LedgerModel = Seq<LedgerRow>;

/// What `row` adds to the balance of (`m`, `l`).
pub open spec fn row_effect(row: LedgerRow, m: i64, l: i64) -> int {
    if row.1 == m && row.2 == l {
        entry_effect(row.0, row.3 as int)
    } else {
        0
    }
}

/// The sum of the effects of the rows at (`m`, `l`).
pub open spec fn ledger_total(rows: LedgerModel, m: i64, l: i64) -> int
    decreases rows.len(),
{
    if rows.len() == 0 {
        0
    } else {
        ledger_total(rows.drop_last(), m, l) + row_effect(rows.last(), m, l)
    }
}

/// Every balance is the total of the ledger rows at its material and
/// location.
pub open spec fn consistent(b: BalanceModel, rows: LedgerModel) -> bool {
    forall|m: i64, l: i64| #[trigger] balance(b, m, l) == ledger_total(rows, m, l)
}

/// The row that a new ledger entry becomes.
pub open spec fn row_of(e: NewLedgerEntry) -> LedgerRow {
    (e.kind, e.fields.material_id, e.fields.location_id, e.fields.quantity)
}

/// A ledger row read back is `row`.
pub open spec fn reads_as(rec: LedgerRecord, row: LedgerRow) -> bool {
    &&& rec.kind@ == kind_code(row.0)
    &&& rec.material_id == row.1
    &&& rec.location_id == row.2
    &&& rec.quantity == row.3
}

proof fn lemma_total_push(rows: LedgerModel, r: LedgerRow, m: i64, l: i64)
    ensures
        ledger_total(rows.push(r), m, l) == ledger_total(rows, m, l) + row_effect(r, m, l),
{
    assert(rows.push(r).drop_last() =~= rows);
}

proof fn lemma_total_concat(s: LedgerModel, t: LedgerModel, m: i64, l: i64)
    ensures
        ledger_total(s + t, m, l) == ledger_total(s, m, l) + ledger_total(t, m, l),
    decreases t.len(),
{
    if t.len() == 0 {
        assert(s + t =~= s);
    } else {
        lemma_total_concat(s, t.drop_last(), m, l);
        assert((s + t).drop_last() =~= s + t.drop_last());
        assert((s + t).last() == t.last());
    }
}

proof fn lemma_total_split(rows: LedgerModel, i: int, m: i64, l: i64)
    requires
        0 <= i < rows.len(),
    ensures
        ledger_total(rows, m, l) == ledger_total(rows.subrange(0, i), m, l) + row_effect(
            rows[i],
            m,
            l,
        ) + ledger_total(rows.subrange(i + 1, rows.len() as int), m, l),
{
    let s = rows.subrange(0, i);
    let t = rows.subrange(i + 1, rows.len() as int);
    assert(rows =~= s.push(rows[i]) + t);
    lemma_total_concat(s.push(rows[i]), t, m, l);
    lemma_total_push(s, rows[i], m, l);
}

proof fn lemma_total_remove(rows: LedgerModel, i: int, m: i64, l: i64)
    requires
        0 <= i < rows.len(),
    ensures
        ledger_total(rows.remove(i), m, l) == ledger_total(rows, m, l) - row_effect(rows[i], m, l),
{
    lemma_total_split(rows, i, m, l);
    let s = rows.subrange(0, i);
    let t = rows.subrange(i + 1, rows.len() as int);
    assert(rows.remove(i) =~= s + t);
    lemma_total_concat(s, t, m, l);
}

proof fn lemma_total_update(rows: LedgerModel, i: int, r: LedgerRow, m: i64, l: i64)
    requires
        0 <= i < rows.len(),
    ensures
        ledger_total(rows.update(i, r), m, l) == ledger_total(rows, m, l) - row_effect(rows[i], m, l)
            + row_effect(r, m, l),
{
    lemma_total_split(rows, i, m, l);
    lemma_total_split(rows.update(i, r), i, m, l);
    assert(rows.update(i, r).subrange(0, i) =~= rows.subrange(0, i));
    assert(rows.update(i, r).subrange(i + 1, rows.len() as int) =~= rows.subrange(
        i + 1,
        rows.len() as int,
    ));
}

/// A receipt keeps the ledger and the balances consistent.
pub proof fn law_receipt_keeps_ledger_consistent(
    b: BalanceModel,
    rows: LedgerModel,
    p: StockInPlan,
    input: StockOperationInput,
)
    requires
        consistent(b, rows),
        receives(p, input),
    ensures
        apply_changes(b, seq![p.change]) matches Some(b2) && consistent(b2, rows.push(row_of(p.entry))),
{
    law_receipt_adds_its_quantity(b, p, input);
    let b2 = apply_changes(b, seq![p.change])->0;
    assert forall|m: i64, l: i64| #[trigger] balance(b2, m, l) == ledger_total(
        rows.push(row_of(p.entry)),
        m,
        l,
    ) by {
        lemma_total_push(rows, row_of(p.entry), m, l);
        assert(balance(b, m, l) == ledger_total(rows, m, l));
    }
}

/// An issue that the available balance covers keeps the ledger and the
/// balances consistent.
pub proof fn law_issue_keeps_ledger_consistent(
    b: BalanceModel,
    rows: LedgerModel,
    p: StockOutPlan,
    input: StockOperationInput,
    req: StockOutRequest,
)
    requires
        consistent(b, rows),
        requests(req, input),
        is_stock_out_plan(p, input, req),
        balance(b, input.material_id, input.location_id) >= req.quantity,
    ensures
        apply_changes(b, seq![p.change]) matches Some(b2) && consistent(b2, rows.push(row_of(p.entry))),
{
    law_issue_takes_from_the_available_stock(b, p, input, req);
    let b2 = apply_changes(b, seq![p.change])->0;
    assert forall|m: i64, l: i64| #[trigger] balance(b2, m, l) == ledger_total(
        rows.push(row_of(p.entry)),
        m,
        l,
    ) by {
        lemma_total_push(rows, row_of(p.entry), m, l);
        assert(balance(b, m, l) == ledger_total(rows, m, l));
    }
}

/// A transfer that goes through keeps the ledger and the balances
/// consistent: its two rows account for its two balance changes.
pub proof fn law_transfer_keeps_ledger_consistent(
    b: BalanceModel,
    rows: LedgerModel,
    p: TransferPlan,
    input: StockTransferInput,
    q: i64,
    source: Seq<char>,
    target: Seq<char>,
)
    requires
        consistent(b, rows),
        transfer_error(input) is None,
        input.quantity == QuantityInput::Hundredths(q),
        is_transfer_plan(p, input, q, source, target),
    ensures
        apply_changes(b, p.changes@) matches Some(b2) ==> consistent(
            b2,
            rows.push(row_of(p.out_entry)).push(row_of(p.in_entry)),
        ),
{
    law_transfer_moves_stock(b, p, input, q, source, target);
    if let Some(b2) = apply_changes(b, p.changes@) {
        let rows2 = rows.push(row_of(p.out_entry)).push(row_of(p.in_entry));
        assert forall|m: i64, l: i64| #[trigger] balance(b2, m, l) == ledger_total(rows2, m, l) by {
            lemma_total_push(rows, row_of(p.out_entry), m, l);
            lemma_total_push(rows.push(row_of(p.out_entry)), row_of(p.in_entry), m, l);
            assert(balance(b, m, l) == ledger_total(rows, m, l));
        }
    }
}

/// Deleting a ledger row, where the deletion is allowed and its balance
/// change goes through, keeps the ledger and the balances consistent.
pub proof fn law_deletion_keeps_ledger_consistent(
    b: BalanceModel,
    rows: LedgerModel,
    i: int,
    rec: LedgerRecord,
)
    requires
        consistent(b, rows),
        0 <= i < rows.len(),
        reads_as(rec, rows[i]),
    ensures
        deletion_outcome(Some(rec)) matches Ok(c) ==> (apply_changes(b, seq![c]) matches Some(b2)
            ==> consistent(b2, rows.remove(i))),
{
    reveal_with_fuel(apply_changes, 2);
    reveal_strlit("IN");
    reveal_strlit("OUT");
    assert("IN"@.len() != "OUT"@.len());
    if let Ok(c) = deletion_outcome(Some(rec)) {
        assert(seq![c].drop_first() =~= Seq::<crate::ledger::BalanceChange>::empty());
        if let Some(b2) = apply_changes(b, seq![c]) {
            assert forall|m: i64, l: i64| #[trigger] balance(b2, m, l) == ledger_total(
                rows.remove(i),
                m,
                l,
            ) by {
                lemma_total_remove(rows, i, m, l);
                assert(balance(b, m, l) == ledger_total(rows, m, l));
                if !(m == rec.material_id && l == rec.location_id) {
                    assert(b2.contains_key((m, l)) == b.contains_key((m, l)));
                }
            }
        }
    }
}

/// Correcting a ledger row, settled against the current balances, keeps
/// the ledger and the balances consistent: the row is replaced and the
/// balances move by exactly its net change.
pub proof fn law_correction_keeps_ledger_consistent(
    b: BalanceModel,
    rows: LedgerModel,
    i: int,
    new_material: i64,
    new_location: i64,
    new_quantity: i64,
    currents: Seq<i64>,
)
    requires
        consistent(b, rows),
        0 <= i < rows.len(),
        currents.len() == net_deltas(
            rows[i].0,
            rows[i].1,
            rows[i].2,
            rows[i].3,
            new_material,
            new_location,
            new_quantity,
        ).len(),
        forall|j: int|
            0 <= j < currents.len() ==> #[trigger] currents[j] == balance(
                b,
                net_deltas(
                    rows[i].0,
                    rows[i].1,
                    rows[i].2,
                    rows[i].3,
                    new_material,
                    new_location,
                    new_quantity,
                )[j].material_id,
                net_deltas(
                    rows[i].0,
                    rows[i].1,
                    rows[i].2,
                    rows[i].3,
                    new_material,
                    new_location,
                    new_quantity,
                )[j].location_id,
            ),
    ensures
        settlement(
            net_deltas(
                rows[i].0,
                rows[i].1,
                rows[i].2,
                rows[i].3,
                new_material,
                new_location,
                new_quantity,
            ),
            currents,
        ) matches Ok(cs) ==> (apply_changes(b, cs) matches Some(b2) && consistent(
            b2,
            rows.update(i, (rows[i].0, new_material, new_location, new_quantity)),
        )),
{
    let prev = rows[i];
    law_correction_applies_its_net_change(
        b,
        prev.0,
        prev.1,
        prev.2,
        prev.3,
        new_material,
        new_location,
        new_quantity,
        currents,
    );
    let ds = net_deltas(prev.0, prev.1, prev.2, prev.3, new_material, new_location, new_quantity);
    if let Ok(cs) = settlement(ds, currents) {
        let b2 = apply_changes(b, cs)->0;
        let new_row = (prev.0, new_material, new_location, new_quantity);
        assert forall|m: i64, l: i64| #[trigger] balance(b2, m, l) == ledger_total(
            rows.update(i, new_row),
            m,
            l,
        ) by {
            lemma_total_update(rows, i, new_row, m, l);
            assert(balance(b, m, l) == ledger_total(rows, m, l));
            assert(balance(b2, m, l) == corrected_balance(
                b,
                prev.0,
                prev.1,
                prev.2,
                prev.3,
                new_material,
                new_location,
                new_quantity,
                m,
                l,
            ));
        }
    }
}

} // verus!
