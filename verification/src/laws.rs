//! What the stock operations promise of the balance table, across
//! operations: receipts add, issues take only what is there, deleting a
//! row gives its effect back, a correction applies exactly its net change,
//! and a transfer moves stock without creating or losing any.
use vstd::prelude::*;
use crate::correction::{
    StockTransactionUpdateInput, correction_error, deletion_outcome, net_deltas, settlement,
    transfer_prefix,
};
use crate::inventory::{
    StockInPlan, StockOperationInput, StockOutPlan, StockOutRequest, is_stock_out_plan, receives,
    requests,
};
use crate::ledger::{
    BalanceChange, BalanceModel, EntryKind, LedgerRecord, all_keep_non_negative, apply_change,
    apply_changes, balance, entry_effect, is_transaction_number, keeps_non_negative,
    lemma_apply_concat,
};
use crate::quantity::QuantityInput;
use crate::text::has_prefix;
use crate::transfer::{StockTransferInput, TransferPlan, is_transfer_plan, transfer_error};

verus! {

/// `b2` holds the same balances as `b` (a missing row counting as zero).
pub open spec fn same_balances(b: BalanceModel, b2: BalanceModel) -> bool {
    forall|m: i64, l: i64| #[trigger] balance(b2, m, l) == balance(b, m, l)
}

/// A receipt adds its quantity to its balance and changes no other.
pub proof fn law_receipt_adds_its_quantity(
    b: BalanceModel,
    p: StockInPlan,
    input: StockOperationInput,
)
    requires
        receives(p, input),
    ensures
        input.quantity matches QuantityInput::Hundredths(q) && apply_changes(b, seq![p.change])
            == Some(
            b.insert(
                (input.material_id, input.location_id),
                balance(b, input.material_id, input.location_id) + q,
            ),
        ),
{
    reveal_with_fuel(apply_changes, 2);
    assert(seq![p.change].drop_first() =~= Seq::<BalanceChange>::empty());
}

/// An issue planned against the balance read as `available` takes its
/// quantity from that balance and changes no other.
pub proof fn law_issue_takes_from_the_available_stock(
    b: BalanceModel,
    p: StockOutPlan,
    input: StockOperationInput,
    req: StockOutRequest,
)
    requires
        requests(req, input),
        is_stock_out_plan(p, input, req),
        balance(b, input.material_id, input.location_id) >= req.quantity,
    ensures
        apply_changes(b, seq![p.change]) == Some(
            b.insert(
                (input.material_id, input.location_id),
                balance(b, input.material_id, input.location_id) - req.quantity,
            ),
        ),
{
    reveal_with_fuel(apply_changes, 2);
    assert(seq![p.change].drop_first() =~= Seq::<BalanceChange>::empty());
}

/// The ledger row that a receipt wrote, as read back.
pub open spec fn receipt_row(rec: LedgerRecord, p: StockInPlan, input: StockOperationInput) -> bool {
    &&& rec.transaction_no@ == p.entry.transaction_no@
    &&& rec.kind@ == "IN"@
    &&& rec.material_id == input.material_id
    &&& rec.location_id == input.location_id
    &&& input.quantity == QuantityInput::Hundredths(rec.quantity)
}

/// A receipt number is no transfer number.
proof fn lemma_receipt_number_is_not_a_transfer(number: Seq<char>)
    requires
        is_transaction_number(number, "IN"@),
    ensures
        !has_prefix(number, transfer_prefix()),
{
    reveal_strlit("IN");
    reveal_strlit("TRANSFER-");
    assert(number.subrange(0, 2)[0] == number[0]);
    assert(number[0] == 'I');
    if has_prefix(number, transfer_prefix()) {
        assert(number.subrange(0, 9)[0] == number[0]);
    }
}

/// Deleting the row of a receipt, right after it was made, gives back the
/// balances from before the receipt.
pub proof fn law_deleting_a_receipt_restores_balances(
    b: BalanceModel,
    p: StockInPlan,
    input: StockOperationInput,
    rec: LedgerRecord,
)
    requires
        receives(p, input),
        receipt_row(rec, p, input),
        balance(b, input.material_id, input.location_id) >= 0,
    ensures
        deletion_outcome(Some(rec)) matches Ok(c) && (apply_changes(b, seq![p.change, c]) matches Some(
            b2,
        ) && same_balances(b, b2)),
{
    lemma_receipt_number_is_not_a_transfer(p.entry.transaction_no@);
    reveal_with_fuel(apply_changes, 3);
    reveal_strlit("IN");
    let c = BalanceChange::Withdraw {
        material_id: rec.material_id,
        location_id: rec.location_id,
        amount: rec.quantity,
    };
    assert(deletion_outcome(Some(rec)) == Ok::<BalanceChange, Seq<char>>(c));
    let k = (input.material_id, input.location_id);
    let b1 = b.insert(k, balance(b, input.material_id, input.location_id) + rec.quantity);
    assert(apply_change(b, p.change) == Some(b1));
    let b2 = b1.insert(k, b1[k] - rec.quantity);
    assert(apply_change(b1, c) == Some(b2));
    assert(seq![p.change, c].drop_first() =~= seq![c]);
    assert(seq![c].drop_first() =~= Seq::<BalanceChange>::empty());
    assert(apply_changes(b, seq![p.change, c]) == Some(b2));
    assert forall|m: i64, l: i64| #[trigger] balance(b2, m, l) == balance(b, m, l) by {
        if (m, l) == k {
        } else {
            assert(b2.contains_key((m, l)) == b.contains_key((m, l)));
        }
    }
}

/// The ledger row that an issue wrote, as read back.
pub open spec fn issue_row(rec: LedgerRecord, p: StockOutPlan, input: StockOperationInput, req: StockOutRequest) -> bool {
    &&& rec.transaction_no@ == p.entry.transaction_no@
    &&& rec.kind@ == "OUT"@
    &&& rec.material_id == input.material_id
    &&& rec.location_id == input.location_id
    &&& rec.quantity == req.quantity
}

/// An issue number is no transfer number.
proof fn lemma_issue_number_is_not_a_transfer(number: Seq<char>)
    requires
        is_transaction_number(number, "OUT"@),
    ensures
        !has_prefix(number, transfer_prefix()),
{
    reveal_strlit("OUT");
    reveal_strlit("TRANSFER-");
    assert(number.subrange(0, 3)[0] == number[0]);
    assert(number[0] == 'O');
    if has_prefix(number, transfer_prefix()) {
        assert(number.subrange(0, 9)[0] == number[0]);
    }
}

/// Deleting the row of an issue, right after it was made, gives back the
/// balances from before the issue.
pub proof fn law_deleting_an_issue_restores_balances(
    b: BalanceModel,
    p: StockOutPlan,
    input: StockOperationInput,
    req: StockOutRequest,
    rec: LedgerRecord,
)
    requires
        requests(req, input),
        is_stock_out_plan(p, input, req),
        balance(b, input.material_id, input.location_id) >= req.quantity,
        issue_row(rec, p, input, req),
    ensures
        deletion_outcome(Some(rec)) matches Ok(c) && apply_changes(b, seq![p.change, c]) == Some(b),
{
    lemma_issue_number_is_not_a_transfer(p.entry.transaction_no@);
    reveal_with_fuel(apply_changes, 3);
    reveal_strlit("IN");
    reveal_strlit("OUT");
    assert("IN"@.len() != "OUT"@.len());
    let c = BalanceChange::Deposit {
        material_id: rec.material_id,
        location_id: rec.location_id,
        amount: rec.quantity,
    };
    assert(deletion_outcome(Some(rec)) == Ok::<BalanceChange, Seq<char>>(c));
    let k = (input.material_id, input.location_id);
    let b1 = b.insert(k, b[k] - req.quantity);
    assert(apply_change(b, p.change) == Some(b1));
    let b2 = b1.insert(k, balance(b1, input.material_id, input.location_id) + rec.quantity);
    assert(apply_change(b1, c) == Some(b2));
    assert(b2 =~= b);
    assert(seq![p.change, c].drop_first() =~= seq![c]);
    assert(seq![c].drop_first() =~= Seq::<BalanceChange>::empty());
}

/// The balance of (`m`, `l`) once a row of `kind` with `old_quantity` at
/// (`old_material`, `old_location`) has been corrected to `new_quantity` at
/// (`new_material`, `new_location`): the old effect taken back, the new one
/// applied.
pub open spec fn corrected_balance(
    b: BalanceModel,
    kind: EntryKind,
    old_material: i64,
    old_location: i64,
    old_quantity: i64,
    new_material: i64,
    new_location: i64,
    new_quantity: i64,
    m: i64,
    l: i64,
) -> int {
    balance(b, m, l) - (if m == old_material && l == old_location {
        entry_effect(kind, old_quantity as int)
    } else {
        0
    }) + (if m == new_material && l == new_location {
        entry_effect(kind, new_quantity as int)
    } else {
        0
    })
}

/// A correction applies exactly its net change. With the current balances
/// read for the changed (material, location) pairs, it is refused exactly
/// when one of them would go negative; otherwise every balance becomes its
/// corrected value, so a receipt edited in place succeeds whenever the
/// corrected balance is not negative, even when later issues consumed part
/// of the quantity first recorded.
pub proof fn law_correction_applies_its_net_change(
    b: BalanceModel,
    kind: EntryKind,
    old_material: i64,
    old_location: i64,
    old_quantity: i64,
    new_material: i64,
    new_location: i64,
    new_quantity: i64,
    currents: Seq<i64>,
)
    requires
        currents.len() == net_deltas(
            kind,
            old_material,
            old_location,
            old_quantity,
            new_material,
            new_location,
            new_quantity,
        ).len(),
        forall|i: int|
            0 <= i < currents.len() ==> #[trigger] currents[i] == balance(
                b,
                net_deltas(
                    kind,
                    old_material,
                    old_location,
                    old_quantity,
                    new_material,
                    new_location,
                    new_quantity,
                )[i].material_id,
                net_deltas(
                    kind,
                    old_material,
                    old_location,
                    old_quantity,
                    new_material,
                    new_location,
                    new_quantity,
                )[i].location_id,
            ),
    ensures
        ({
            let ds = net_deltas(
                kind,
                old_material,
                old_location,
                old_quantity,
                new_material,
                new_location,
                new_quantity,
            );
            &&& (settlement(ds, currents) is Ok <==> forall|i: int|
                0 <= i < ds.len() ==> currents[i] + (#[trigger] ds[i]).delta >= 0)
            &&& (settlement(ds, currents) matches Ok(cs) ==> (apply_changes(b, cs) matches Some(b2)
                && forall|m: i64, l: i64|
                #[trigger] balance(b2, m, l) == corrected_balance(
                    b,
                    kind,
                    old_material,
                    old_location,
                    old_quantity,
                    new_material,
                    new_location,
                    new_quantity,
                    m,
                    l,
                )))
        }),
{
    let ds = net_deltas(
        kind,
        old_material,
        old_location,
        old_quantity,
        new_material,
        new_location,
        new_quantity,
    );
    reveal_with_fuel(settlement, 3);
    reveal_with_fuel(apply_changes, 3);
    let oe = entry_effect(kind, old_quantity as int);
    let ne = entry_effect(kind, new_quantity as int);
    if ds.len() >= 1 {
        assert(ds.drop_first().len() == ds.len() - 1);
        assert(currents.drop_first().len() == currents.len() - 1);
    }
    if ds.len() == 2 {
        assert(ds.drop_first()[0] == ds[1]);
        assert(currents.drop_first()[0] == currents[1]);
        assert(ds.drop_first().drop_first().len() == 0);
    }
    match settlement(ds, currents) {
        Ok(cs) => {
            if ds.len() == 0 {
                assert(cs =~= Seq::<BalanceChange>::empty());
            } else if ds.len() == 1 {
                let d = ds[0];
                let c = BalanceChange::Assign {
                    material_id: d.material_id,
                    location_id: d.location_id,
                    quantity: (currents[0] + d.delta) as i128,
                };
                assert(cs =~= seq![c]);
                assert(cs.drop_first() =~= Seq::<BalanceChange>::empty());
            } else {
                let d0 = ds[0];
                let d1 = ds[1];
                let c0 = BalanceChange::Assign {
                    material_id: d0.material_id,
                    location_id: d0.location_id,
                    quantity: (currents[0] + d0.delta) as i128,
                };
                let c1 = BalanceChange::Assign {
                    material_id: d1.material_id,
                    location_id: d1.location_id,
                    quantity: (currents[1] + d1.delta) as i128,
                };
                assert(cs =~= seq![c0, c1]);
                assert(cs.drop_first() =~= seq![c1]);
                assert(cs.drop_first().drop_first() =~= Seq::<BalanceChange>::empty());
            }
        },
        Err(_) => {},
    }
}

/// The transfer rows are recognised as a pair: neither can be deleted on
/// its own.
pub proof fn law_transfer_rows_cannot_be_deleted_alone(p: TransferPlan, rec: LedgerRecord, input: StockTransferInput, q: i64, source: Seq<char>, target: Seq<char>)
    requires
        is_transfer_plan(p, input, q, source, target),
        rec.transaction_no@ == p.out_entry.transaction_no@ || rec.transaction_no@
            == p.in_entry.transaction_no@,
    ensures
        deletion_outcome(Some(rec)) is Err,
{
    reveal_strlit("TRANSFER-");
    reveal_strlit("TRANSFER-OUT");
    reveal_strlit("TRANSFER-IN");
    let n = rec.transaction_no@;
    assert(n.subrange(0, 9) =~= transfer_prefix());
}

/// A transfer moves stock without creating or losing any: it goes through
/// exactly when the source balance covers the quantity, and then the
/// source loses and the target gains the quantity, while every other
/// balance stays as it was.
pub proof fn law_transfer_moves_stock(
    b: BalanceModel,
    p: TransferPlan,
    input: StockTransferInput,
    q: i64,
    source: Seq<char>,
    target: Seq<char>,
)
    requires
        transfer_error(input) is None,
        input.quantity == QuantityInput::Hundredths(q),
        is_transfer_plan(p, input, q, source, target),
    ensures
        (apply_changes(b, p.changes@) is Some <==> balance(b, input.material_id, input.from_location_id)
            >= q),
        apply_changes(b, p.changes@) matches Some(b2) ==> {
            &&& balance(b2, input.material_id, input.from_location_id) == balance(
                b,
                input.material_id,
                input.from_location_id,
            ) - q
            &&& balance(b2, input.material_id, input.to_location_id) == balance(
                b,
                input.material_id,
                input.to_location_id,
            ) + q
            &&& forall|m: i64, l: i64|
                !(m == input.material_id && (l == input.from_location_id || l
                    == input.to_location_id)) ==> #[trigger] balance(b2, m, l) == balance(b, m, l)
        },
{
    reveal_with_fuel(apply_changes, 3);
    let cs = p.changes@;
    assert(cs.drop_first() =~= seq![cs[1]]);
    assert(cs.drop_first().drop_first() =~= Seq::<BalanceChange>::empty());
}

/// Neither row of a transfer can be corrected on its own.
pub proof fn law_transfer_rows_cannot_be_edited_alone(
    p: TransferPlan,
    rec: LedgerRecord,
    input: StockTransferInput,
    q: i64,
    source: Seq<char>,
    target: Seq<char>,
    correction: StockTransactionUpdateInput,
)
    requires
        is_transfer_plan(p, input, q, source, target),
        rec.transaction_no@ == p.out_entry.transaction_no@ || rec.transaction_no@
            == p.in_entry.transaction_no@,
    ensures
        correction_error(correction, Some(rec)) is Some,
{
    reveal_strlit("TRANSFER-");
    reveal_strlit("TRANSFER-OUT");
    reveal_strlit("TRANSFER-IN");
    assert(rec.transaction_no@.subrange(0, 9) =~= transfer_prefix());
}

/// The quantity of a line, in hundredths (zero for a line that failed its
/// checks).
pub open spec fn line_quantity(input: StockOperationInput) -> int {
    match input.quantity {
        QuantityInput::Hundredths(h) => h as int,
        _ => 0,
    }
}

/// The total quantity of the lines of a batch at (`m`, `l`).
pub open spec fn batch_total_at(inputs: Seq<StockOperationInput>, m: i64, l: i64) -> int
    decreases inputs.len(),
{
    if inputs.len() == 0 {
        0
    } else {
        batch_total_at(inputs.drop_last(), m, l) + (if inputs.last().material_id == m
            && inputs.last().location_id == l {
            line_quantity(inputs.last())
        } else {
            0
        })
    }
}

/// The balance changes of a batch receipt, line by line.
pub open spec fn batch_deposits(ps: Seq<StockInPlan>) -> Seq<BalanceChange> {
    ps.map_values(|p: StockInPlan| p.change)
}

/// A batch receipt, executed in one transaction, adds to every balance
/// the total of its lines at that balance, and changes nothing else.
pub proof fn law_batch_receipt_adds_every_line(
    b: BalanceModel,
    ps: Seq<StockInPlan>,
    inputs: Seq<StockOperationInput>,
)
    requires
        ps.len() == inputs.len(),
        forall|i: int| 0 <= i < ps.len() ==> receives(#[trigger] ps[i], inputs[i]),
    ensures
        apply_changes(b, batch_deposits(ps)) matches Some(b2) && forall|m: i64, l: i64|
            #[trigger] balance(b2, m, l) == balance(b, m, l) + batch_total_at(inputs, m, l),
    decreases ps.len(),
{
    if ps.len() == 0 {
        assert(batch_deposits(ps) =~= Seq::<BalanceChange>::empty());
    } else {
        let init = ps.drop_last();
        let init_inputs = inputs.drop_last();
        assert forall|i: int| 0 <= i < init.len() implies receives(#[trigger] init[i], init_inputs[i]) by {
            assert(init[i] == ps[i]);
            assert(init_inputs[i] == inputs[i]);
        }
        law_batch_receipt_adds_every_line(b, init, init_inputs);
        let last = ps.last();
        assert(receives(ps[ps.len() - 1], inputs[inputs.len() - 1]));
        assert(batch_deposits(ps) =~= batch_deposits(init) + seq![last.change]);
        lemma_apply_concat(b, batch_deposits(init), seq![last.change]);
        let b1 = apply_changes(b, batch_deposits(init))->0;
        reveal_with_fuel(apply_changes, 2);
        assert(seq![last.change].drop_first() =~= Seq::<BalanceChange>::empty());
        let k = (inputs.last().material_id, inputs.last().location_id);
        let b2 = b1.insert(k, balance(b1, k.0, k.1) + line_quantity(inputs.last()));
        assert(apply_changes(b1, seq![last.change]) == Some(b2));
        assert forall|m: i64, l: i64| #[trigger] balance(b2, m, l) == balance(b, m, l) + batch_total_at(
            inputs,
            m,
            l,
        ) by {
            assert(balance(b1, m, l) == balance(b, m, l) + batch_total_at(init_inputs, m, l));
            if (m, l) != k {
                assert(b2.contains_key((m, l)) == b1.contains_key((m, l)));
            }
        }
    }
}

/// The balance changes of a batch issue, line by line.
pub open spec fn batch_withdrawals(ps: Seq<StockOutPlan>) -> Seq<BalanceChange> {
    ps.map_values(|p: StockOutPlan| p.change)
}

/// Every balance that a batch draws on covers the total of the batch's
/// lines at it.
pub open spec fn batch_covered(b: BalanceModel, inputs: Seq<StockOperationInput>) -> bool {
    forall|m: i64, l: i64|
        #[trigger] batch_total_at(inputs, m, l) > 0 ==> balance(b, m, l) >= batch_total_at(
            inputs,
            m,
            l,
        )
}

proof fn lemma_batch_total_non_negative(
    inputs: Seq<StockOperationInput>,
    reqs: Seq<StockOutRequest>,
    m: i64,
    l: i64,
)
    requires
        reqs.len() == inputs.len(),
        forall|i: int| 0 <= i < inputs.len() ==> requests(#[trigger] reqs[i], inputs[i]),
    ensures
        batch_total_at(inputs, m, l) >= 0,
    decreases inputs.len(),
{
    if inputs.len() > 0 {
        let n = inputs.len() - 1;
        assert forall|i: int| 0 <= i < inputs.drop_last().len() implies requests(
            #[trigger] reqs.drop_last()[i],
            inputs.drop_last()[i],
        ) by {
            assert(reqs.drop_last()[i] == reqs[i]);
            assert(inputs.drop_last()[i] == inputs[i]);
        }
        lemma_batch_total_non_negative(inputs.drop_last(), reqs.drop_last(), m, l);
        assert(requests(reqs[n], inputs[n]));
        assert(inputs.last() == inputs[n]);
    }
}

/// A batch issue, executed in one transaction, goes through exactly when
/// every balance it draws on covers the total of its lines there (two
/// lines of one material and location are covered together, not one by
/// one); it then takes that total from each such balance and changes
/// nothing else.
pub proof fn law_batch_issue_needs_every_total_covered(
    b: BalanceModel,
    ps: Seq<StockOutPlan>,
    inputs: Seq<StockOperationInput>,
    reqs: Seq<StockOutRequest>,
)
    requires
        ps.len() == inputs.len(),
        reqs.len() == inputs.len(),
        forall|i: int| 0 <= i < inputs.len() ==> requests(#[trigger] reqs[i], inputs[i]),
        forall|i: int| 0 <= i < inputs.len() ==> is_stock_out_plan(#[trigger] ps[i], inputs[i], reqs[i]),
    ensures
        (apply_changes(b, batch_withdrawals(ps)) is Some) == batch_covered(b, inputs),
        apply_changes(b, batch_withdrawals(ps)) matches Some(b2) ==> b2.dom() == b.dom() && forall|
            m: i64,
            l: i64,
        | #[trigger] balance(b2, m, l) == balance(b, m, l) - batch_total_at(inputs, m, l),
    decreases ps.len(),
{
    if ps.len() == 0 {
        assert(batch_withdrawals(ps) =~= Seq::<BalanceChange>::empty());
        assert(b.dom() =~= b.dom());
    } else {
        let n = ps.len() - 1;
        let init = ps.drop_last();
        let init_inputs = inputs.drop_last();
        let init_reqs = reqs.drop_last();
        assert forall|i: int| 0 <= i < init_inputs.len() implies requests(
            #[trigger] init_reqs[i],
            init_inputs[i],
        ) by {
            assert(init_reqs[i] == reqs[i]);
            assert(init_inputs[i] == inputs[i]);
        }
        assert forall|i: int| 0 <= i < init_inputs.len() implies is_stock_out_plan(
            #[trigger] init[i],
            init_inputs[i],
            init_reqs[i],
        ) by {
            assert(init[i] == ps[i]);
            assert(init_reqs[i] == reqs[i]);
            assert(init_inputs[i] == inputs[i]);
        }
        law_batch_issue_needs_every_total_covered(b, init, init_inputs, init_reqs);
        assert(requests(reqs[n], inputs[n]));
        assert(is_stock_out_plan(ps[n], inputs[n], reqs[n]));
        let last = ps.last();
        let q = reqs[n].quantity;
        let k = (inputs[n].material_id, inputs[n].location_id);
        assert(inputs.last() == inputs[n]);
        assert(line_quantity(inputs[n]) == q);
        assert(batch_withdrawals(ps) =~= batch_withdrawals(init) + seq![last.change]);
        lemma_apply_concat(b, batch_withdrawals(init), seq![last.change]);
        reveal_with_fuel(apply_changes, 2);
        assert(seq![last.change].drop_first() =~= Seq::<BalanceChange>::empty());
        assert forall|m: i64, l: i64| #[trigger] batch_total_at(inputs, m, l) == batch_total_at(
            init_inputs,
            m,
            l,
        ) + (if (m, l) == k { q as int } else { 0int }) by {}
        match apply_changes(b, batch_withdrawals(init)) {
            Some(b1) => {
                assert(balance(b1, k.0, k.1) == balance(b, k.0, k.1) - batch_total_at(
                    init_inputs,
                    k.0,
                    k.1,
                ));
                assert(b1.contains_key(k) == b.contains_key(k));
                if apply_changes(b, batch_withdrawals(ps)) is Some {
                    let b2 = b1.insert(k, b1[k] - q);
                    assert(b2.dom() =~= b.dom());
                    assert forall|m: i64, l: i64| #[trigger] balance(b2, m, l) == balance(b, m, l)
                        - batch_total_at(inputs, m, l) by {
                        assert(balance(b1, m, l) == balance(b, m, l) - batch_total_at(
                            init_inputs,
                            m,
                            l,
                        ));
                        if (m, l) != k {
                            assert(b2.contains_key((m, l)) == b1.contains_key((m, l)));
                        }
                    }
                    assert forall|m: i64, l: i64| #[trigger] batch_total_at(inputs, m, l) > 0
                        implies balance(b, m, l) >= batch_total_at(inputs, m, l) by {
                        assert(balance(b1, m, l) == balance(b, m, l) - batch_total_at(
                            init_inputs,
                            m,
                            l,
                        ));
                        if (m, l) != k {
                            assert(batch_total_at(init_inputs, m, l) > 0);
                        }
                    }
                } else {
                    assert(!batch_covered(b, inputs)) by {
                        lemma_batch_total_non_negative(init_inputs, init_reqs, k.0, k.1);
                        assert(batch_total_at(inputs, k.0, k.1) > 0);
                    }
                }
            },
            None => {
                let (m0, l0) = choose|m: i64, l: i64|
                    #[trigger] batch_total_at(init_inputs, m, l) > 0 && !(balance(b, m, l)
                        >= batch_total_at(init_inputs, m, l));
                assert(batch_total_at(inputs, m0, l0) >= batch_total_at(init_inputs, m0, l0));
                assert(!batch_covered(b, inputs));
            },
        }
    }
}

/// Every change that the operations plan keeps balances non-negative:
/// receipts, issues and transfers deposit positive quantities or withdraw
/// under guard, and a settled correction assigns no negative balance, so
/// by [`crate::ledger::law_changes_keep_balances_non_negative`] no
/// operation leaves a negative balance behind.
pub proof fn law_planned_changes_keep_balances_non_negative(
    receipt: StockInPlan,
    receipt_input: StockOperationInput,
    issue: StockOutPlan,
    issue_input: StockOperationInput,
    req: StockOutRequest,
    transfer: TransferPlan,
    transfer_input: StockTransferInput,
    q: i64,
    source: Seq<char>,
    target: Seq<char>,
    deltas: Seq<crate::correction::BalanceDelta>,
    currents: Seq<i64>,
)
    requires
        receives(receipt, receipt_input),
        is_stock_out_plan(issue, issue_input, req),
        is_transfer_plan(transfer, transfer_input, q, source, target),
        q > 0,
        forall|i: int|
            0 <= i < deltas.len() ==> -0x1_0000_0000_0000_0000_0000 <= #[trigger] deltas[i].delta
                <= 0x1_0000_0000_0000_0000_0000,
    ensures
        keeps_non_negative(receipt.change),
        keeps_non_negative(issue.change),
        all_keep_non_negative(transfer.changes@),
        settlement(deltas, currents) matches Ok(cs) ==> all_keep_non_negative(cs),
{
    lemma_settlement_keeps_non_negative(deltas, currents);
}

proof fn lemma_settlement_keeps_non_negative(
    deltas: Seq<crate::correction::BalanceDelta>,
    currents: Seq<i64>,
)
    requires
        forall|i: int|
            0 <= i < deltas.len() ==> -0x1_0000_0000_0000_0000_0000 <= #[trigger] deltas[i].delta
                <= 0x1_0000_0000_0000_0000_0000,
    ensures
        settlement(deltas, currents) matches Ok(cs) ==> all_keep_non_negative(cs),
    decreases deltas.len(),
{
    if deltas.len() > 0 && currents.len() > 0 {
        assert forall|i: int| 0 <= i < deltas.drop_first().len() implies -0x1_0000_0000_0000_0000_0000
            <= #[trigger] deltas.drop_first()[i].delta <= 0x1_0000_0000_0000_0000_0000 by {
            assert(deltas.drop_first()[i] == deltas[i + 1]);
        }
        assert(-0x1_0000_0000_0000_0000_0000 <= deltas[0].delta <= 0x1_0000_0000_0000_0000_0000);
        lemma_settlement_keeps_non_negative(deltas.drop_first(), currents.drop_first());
        match settlement(deltas, currents) {
            Ok(cs) => {
                let rest = settlement(deltas.drop_first(), currents.drop_first())->Ok_0;
                assert forall|i: int| 0 <= i < cs.len() implies keeps_non_negative(#[trigger] cs[i]) by {
                    if i > 0 {
                        assert(cs[i] == rest[i - 1]);
                    }
                }
            },
            Err(_) => {},
        }
    }
}

} // verus!
