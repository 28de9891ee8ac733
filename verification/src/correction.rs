//! Correcting the ledger: deleting one mistaken row and editing one row,
//! each with the exact reverse or net change to the balances.
use vstd::prelude::*;
use crate::inventory::{
    amount_message, check_operation, operation_error, MSG_NO_RECEIVING_UNIT,
};
use crate::ledger::{
    BalanceChange, EntryFields, EntryKind, LedgerRecord, clean, cleaned, entry_effect,
};
use crate::quantity::{QuantityInput, hundredths_text};
use crate::text::{has_prefix, starts_with_text, text_equals, trim_text, trimmed};

verus! {

/// Message for a ledger id that is not positive.
pub const MSG_INVALID_ENTRY: &'static str = "无效的流水记录";
/// Message when the guarded withdrawal that reverses a receipt finds too
/// little stock.
pub const MSG_DELETE_WOULD_GO_NEGATIVE: &'static str =
    "删除流水失败：删除入库记录会导致库存为负数，请先处理后续出库记录";
/// Message when the row to delete is gone.
pub const MSG_DELETE_ROW_FAILED: &'static str = "删除流水失败：流水记录删除失败，请重试";
/// Message when the row to edit is gone.
pub const MSG_UPDATE_ROW_FAILED: &'static str = "编辑流水失败：流水记录更新失败，请重试";

/// The ledger number prefix of the paired rows of a transfer.
pub open spec fn transfer_prefix() -> Seq<char> {
    "TRANSFER-"@
}

/// Checks a ledger id.
pub fn check_ledger_id(id: i64) -> (r: Result<(), String>)
    ensures
        match r {
            Ok(()) => id > 0,
            Err(e) => id <= 0 && e@ == MSG_INVALID_ENTRY@,
        },
{
    if id <= 0 {
        return Err(MSG_INVALID_ENTRY.to_owned());
    }
    Ok(())
}

/// What deleting `record` does: the balance change that reverses the row
/// (a guarded withdrawal for a receipt, a deposit for an issue), or why it
/// is refused.
pub open spec fn deletion_outcome(record: Option<LedgerRecord>) -> Result<BalanceChange, Seq<char>> {
    match record {
        None => Err("删除流水失败：找不到要删除的流水记录"@),
        Some(rec) => if has_prefix(rec.transaction_no@, transfer_prefix()) {
            Err("删除流水失败：库内倒库会生成成对流水，不能单独删除；如需纠正请执行反向倒库"@)
        } else if rec.kind@ == "IN"@ {
            Ok(
                BalanceChange::Withdraw {
                    material_id: rec.material_id,
                    location_id: rec.location_id,
                    amount: rec.quantity,
                },
            )
        } else if rec.kind@ == "OUT"@ {
            Ok(
                BalanceChange::Deposit {
                    material_id: rec.material_id,
                    location_id: rec.location_id,
                    amount: rec.quantity,
                },
            )
        } else {
            Err("删除流水失败：调整类流水暂不支持直接删除"@)
        },
    }
}

/// Plans the deletion of the ledger row `record` (as read by its id).
pub fn plan_entry_deletion(record: &Option<LedgerRecord>) -> (r: Result<BalanceChange, String>)
    ensures
        match r {
            Ok(c) => deletion_outcome(*record) == Ok::<BalanceChange, Seq<char>>(c),
            Err(e) => deletion_outcome(*record) == Err::<BalanceChange, Seq<char>>(e@),
        },
{
    match record {
        None => Err("删除流水失败：找不到要删除的流水记录".to_owned()),
        Some(rec) => {
            if starts_with_text(rec.transaction_no.as_str(), "TRANSFER-") {
                return Err(
                    "删除流水失败：库内倒库会生成成对流水，不能单独删除；如需纠正请执行反向倒库".to_owned(),
                );
            }
            if text_equals(rec.kind.as_str(), "IN") {
                Ok(
                    BalanceChange::Withdraw {
                        material_id: rec.material_id,
                        location_id: rec.location_id,
                        amount: rec.quantity,
                    },
                )
            } else if text_equals(rec.kind.as_str(), "OUT") {
                Ok(
                    BalanceChange::Deposit {
                        material_id: rec.material_id,
                        location_id: rec.location_id,
                        amount: rec.quantity,
                    },
                )
            } else {
                Err("删除流水失败：调整类流水暂不支持直接删除".to_owned())
            }
        },
    }
}

/// A request to correct one ledger row.
#[derive(Debug)]
pub struct StockTransactionUpdateInput {
    pub id: i64,
    pub material_id: i64,
    pub location_id: i64,
    pub quantity: QuantityInput,
    pub occurred_at: String,
    pub related_unit: Option<String>,
    pub destination: Option<String>,
    pub handler: Option<String>,
    pub receiver: Option<String>,
    pub remark: Option<String>,
    pub adjustment_basis: Option<String>,
}

/// The first rule that a correction breaks before the row is read.
pub open spec fn correction_input_error(input: StockTransactionUpdateInput) -> Option<Seq<char>> {
    if input.id <= 0 {
        Some(MSG_INVALID_ENTRY@)
    } else {
        operation_error(input.material_id, input.location_id, input.quantity, input.occurred_at@)
    }
}

/// Checks a correction before the row is read; gives the new quantity.
pub fn check_correction(input: &StockTransactionUpdateInput) -> (r: Result<i64, String>)
    ensures
        match r {
            Ok(q) => correction_input_error(*input) is None && input.quantity
                == QuantityInput::Hundredths(q) && q > 0,
            Err(e) => correction_input_error(*input) == Some(e@),
        },
{
    check_ledger_id(input.id)?;
    check_operation(
        input.material_id,
        input.location_id,
        input.quantity,
        input.occurred_at.as_str(),
    )
}

/// A change of one balance by `delta` hundredths.
#[derive(Clone, Copy, Debug, PartialEq, Eq, Structural)]
pub struct BalanceDelta {
    pub material_id: i64,
    pub location_id: i64,
    pub delta: i128,
}

/// `delta` at the given balance, or none where it is zero.
pub open spec fn delta_if_nonzero(material_id: i64, location_id: i64, delta: int) -> Seq<
    BalanceDelta,
> {
    if delta != 0 {
        seq![BalanceDelta { material_id, location_id, delta: delta as i128 }]
    } else {
        Seq::empty()
    }
}

/// The net balance changes of replacing a row of `kind` with `old_quantity`
/// at (`old_material`, `old_location`) by one with `new_quantity` at
/// (`new_material`, `new_location`): the old effect is taken back and the
/// new one applied, merged per balance, zero changes left out.
pub open spec fn net_deltas(
    kind: EntryKind,
    old_material: i64,
    old_location: i64,
    old_quantity: i64,
    new_material: i64,
    new_location: i64,
    new_quantity: i64,
) -> Seq<BalanceDelta> {
    let old_effect = entry_effect(kind, old_quantity as int);
    let new_effect = entry_effect(kind, new_quantity as int);
    if old_material == new_material && old_location == new_location {
        delta_if_nonzero(old_material, old_location, new_effect - old_effect)
    } else {
        delta_if_nonzero(old_material, old_location, -old_effect) + delta_if_nonzero(
            new_material,
            new_location,
            new_effect,
        )
    }
}

/// A correction of one row: the net balance changes, and the corrected
/// columns of the row (its number and kind do not change).
#[derive(Debug)]
pub struct UpdatePlan {
    pub kind: EntryKind,
    pub deltas: Vec<BalanceDelta>,
    pub fields: EntryFields,
}

/// What correcting `old` as `input` asks: refused for a missing row, a
/// transfer row, a row that is neither a receipt nor an issue, or an issue
/// left without a receiving unit.
pub open spec fn correction_error(
    input: StockTransactionUpdateInput,
    old: Option<LedgerRecord>,
) -> Option<Seq<char>> {
    match old {
        None => Some("编辑流水失败：找不到要编辑的流水记录"@),
        Some(rec) => if has_prefix(rec.transaction_no@, transfer_prefix()) {
            Some(
                "编辑流水失败：库内倒库会生成成对流水，不能单独编辑其中一条；请在物资分布中重新倒库"@,
            )
        } else if rec.kind@ != "IN"@ && rec.kind@ != "OUT"@ {
            Some("编辑流水失败：调整类流水暂不支持编辑"@)
        } else if rec.kind@ == "OUT"@ && cleaned(input.destination.deep_view()) is None {
            Some("编辑流水失败："@ + MSG_NO_RECEIVING_UNIT@)
        } else {
            None
        },
    }
}

/// `p` corrects `rec` as `input` asks, with the new quantity `q`.
pub open spec fn corrects(
    p: UpdatePlan,
    input: StockTransactionUpdateInput,
    rec: LedgerRecord,
    q: i64,
) -> bool {
    &&& p.kind == (if rec.kind@ == "IN"@ { EntryKind::In } else { EntryKind::Out })
    &&& p.deltas@ == net_deltas(
        p.kind,
        rec.material_id,
        rec.location_id,
        rec.quantity,
        input.material_id,
        input.location_id,
        q,
    )
    &&& p.fields.material_id == input.material_id
    &&& p.fields.location_id == input.location_id
    &&& p.fields.quantity == q
    &&& p.fields.occurred_at@ == trimmed(input.occurred_at@)
    &&& p.fields.related_unit.deep_view() == cleaned(input.related_unit.deep_view())
    &&& p.fields.destination.deep_view() == (if p.kind == EntryKind::Out {
        cleaned(input.destination.deep_view())
    } else {
        None
    })
    &&& p.fields.handler.deep_view() == cleaned(input.handler.deep_view())
    &&& p.fields.receiver.deep_view() == cleaned(input.receiver.deep_view())
    &&& p.fields.remark.deep_view() == cleaned(input.remark.deep_view())
    &&& p.fields.adjustment_basis.deep_view() == cleaned(input.adjustment_basis.deep_view())
}

fn nonzero_delta(material_id: i64, location_id: i64, delta: i128, out: &mut Vec<BalanceDelta>)
    ensures
        final(out)@ == old(out)@ + delta_if_nonzero(material_id, location_id, delta as int),
{
    if delta != 0 {
        out.push(BalanceDelta { material_id, location_id, delta });
    }
    assert(final(out)@ =~= old(out)@ + delta_if_nonzero(material_id, location_id, delta as int));
}

/// Plans the correction of the row `old` (as read by `input.id`) once
/// `input` has passed [`check_correction`] with the new quantity `q`.
pub fn plan_entry_update(
    input: &StockTransactionUpdateInput,
    q: i64,
    old: &Option<LedgerRecord>,
) -> (r: Result<UpdatePlan, String>)
    requires
        input.quantity == QuantityInput::Hundredths(q),
        q > 0,
    ensures
        match r {
            Ok(p) => correction_error(*input, *old) is None && (*old matches Some(rec) && corrects(
                p,
                *input,
                rec,
                q,
            )),
            Err(e) => correction_error(*input, *old) == Some(e@),
        },
{
    let rec = match old {
        None => {
            return Err("编辑流水失败：找不到要编辑的流水记录".to_owned());
        },
        Some(rec) => rec,
    };
    if starts_with_text(rec.transaction_no.as_str(), "TRANSFER-") {
        return Err(
            "编辑流水失败：库内倒库会生成成对流水，不能单独编辑其中一条；请在物资分布中重新倒库".to_owned(),
        );
    }
    let is_in = text_equals(rec.kind.as_str(), "IN");
    let is_out = text_equals(rec.kind.as_str(), "OUT");
    proof {
        reveal_strlit("IN");
        reveal_strlit("OUT");
        assert("IN"@.len() != "OUT"@.len());
    }
    if !is_in && !is_out {
        return Err("编辑流水失败：调整类流水暂不支持编辑".to_owned());
    }
    let destination = if is_out {
        match clean(&input.destination) {
            Some(d) => Some(d),
            None => {
                let mut e = "编辑流水失败：".to_owned();
                e.append(MSG_NO_RECEIVING_UNIT);
                return Err(e);
            },
        }
    } else {
        None
    };
    let kind = if is_in { EntryKind::In } else { EntryKind::Out };
    let old_effect: i128 = if is_in { rec.quantity as i128 } else { -(rec.quantity as i128) };
    let new_effect: i128 = if is_in { q as i128 } else { -(q as i128) };
    let mut deltas: Vec<BalanceDelta> = Vec::new();
    if rec.material_id == input.material_id && rec.location_id == input.location_id {
        nonzero_delta(rec.material_id, rec.location_id, new_effect - old_effect, &mut deltas);
    } else {
        nonzero_delta(rec.material_id, rec.location_id, -old_effect, &mut deltas);
        nonzero_delta(input.material_id, input.location_id, new_effect, &mut deltas);
    }
    proof {
        assert(deltas@ =~= net_deltas(
            kind,
            rec.material_id,
            rec.location_id,
            rec.quantity,
            input.material_id,
            input.location_id,
            q,
        ));
    }
    let fields = EntryFields {
        material_id: input.material_id,
        location_id: input.location_id,
        quantity: q,
        occurred_at: trim_text(input.occurred_at.as_str()),
        related_unit: clean(&input.related_unit),
        destination,
        handler: clean(&input.handler),
        receiver: clean(&input.receiver),
        remark: clean(&input.remark),
        adjustment_basis: clean(&input.adjustment_basis),
    };
    Ok(UpdatePlan { kind, deltas, fields })
}

/// The message for a correction that would leave a balance negative.
pub open spec fn negative_correction_message(current: int, delta: int) -> Seq<char> {
    "编辑流水失败：修改后会导致库存为负数（当前 "@ + hundredths_text(current) + "，变化 "@
        + hundredths_text(delta) + "），请先检查后续业务记录"@
}

/// The balances corrected by `deltas`, given the `currents` read for them,
/// or the message for the first one that would go negative.
pub open spec fn settlement(deltas: Seq<BalanceDelta>, currents: Seq<i64>) -> Result<
    Seq<BalanceChange>,
    Seq<char>,
>
    decreases deltas.len(),
{
    if deltas.len() == 0 || currents.len() == 0 {
        Ok(Seq::empty())
    } else {
        let d = deltas[0];
        let corrected = currents[0] + d.delta;
        if corrected < 0 {
            Err(negative_correction_message(currents[0] as int, d.delta as int))
        } else {
            match settlement(deltas.drop_first(), currents.drop_first()) {
                Ok(rest) => Ok(
                    seq![
                        BalanceChange::Assign {
                            material_id: d.material_id,
                            location_id: d.location_id,
                            quantity: corrected as i128,
                        },
                    ] + rest,
                ),
                Err(e) => Err(e),
            }
        }
    }
}

/// Settles a correction once the current balance of every changed
/// (material, location) has been read: each becomes its current value plus
/// its delta, unless one of them would go negative.
pub fn settle_update(deltas: &Vec<BalanceDelta>, currents: &Vec<i64>) -> (r: Result<
    Vec<BalanceChange>,
    String,
>)
    requires
        deltas@.len() == currents@.len(),
        forall|i: int|
            0 <= i < deltas@.len() ==> -0x1_0000_0000_0000_0000_0000 <= #[trigger] deltas@[i].delta
                <= 0x1_0000_0000_0000_0000_0000,
    ensures
        match r {
            Ok(cs) => settlement(deltas@, currents@) == Ok::<Seq<BalanceChange>, Seq<char>>(cs@),
            Err(e) => settlement(deltas@, currents@) == Err::<Seq<BalanceChange>, Seq<char>>(e@),
        },
{
    let mut changes: Vec<BalanceChange> = Vec::new();
    let mut i: usize = 0;
    proof {
        assert(deltas@.skip(0) =~= deltas@);
        assert(currents@.skip(0) =~= currents@);
        match settlement(deltas@, currents@) {
            Ok(rest) => {
                assert(changes@ + rest =~= rest);
            },
            Err(_) => {},
        }
    }
    while i < deltas.len()
        invariant
            deltas@.len() == currents@.len(),
            i <= deltas@.len(),
            forall|j: int|
                0 <= j < deltas@.len() ==> -0x1_0000_0000_0000_0000_0000
                    <= #[trigger] deltas@[j].delta <= 0x1_0000_0000_0000_0000_0000,
            settlement(deltas@, currents@) == match settlement(
                deltas@.skip(i as int),
                currents@.skip(i as int),
            ) {
                Ok(rest) => Ok(changes@ + rest),
                Err(e) => Err::<Seq<BalanceChange>, Seq<char>>(e),
            },
        decreases deltas@.len() - i,
    {
        let d = deltas[i];
        let current = currents[i];
        assert(-0x1_0000_0000_0000_0000_0000 <= deltas@[i as int].delta
            <= 0x1_0000_0000_0000_0000_0000);
        let corrected: i128 = current as i128 + d.delta;
        assert(deltas@.skip(i as int)[0] == d);
        assert(currents@.skip(i as int)[0] == current);
        assert(deltas@.skip(i as int).drop_first() =~= deltas@.skip(i + 1));
        assert(currents@.skip(i as int).drop_first() =~= currents@.skip(i + 1));
        if corrected < 0 {
            let mut e = amount_message(
                "编辑流水失败：修改后会导致库存为负数（当前 ",
                current as i128,
                "，变化 ",
            );
            crate::quantity::push_hundredths(&mut e, d.delta);
            e.append("），请先检查后续业务记录");
            assert(e@ =~= negative_correction_message(current as int, d.delta as int));
            return Err(e);
        }
        let c = BalanceChange::Assign {
            material_id: d.material_id,
            location_id: d.location_id,
            quantity: corrected,
        };
        let ghost before = changes@;
        changes.push(c);
        proof {
            match settlement(deltas@.skip(i + 1), currents@.skip(i + 1)) {
                Ok(rest) => {
                    assert(before + (seq![c] + rest) =~= changes@ + rest);
                },
                Err(_) => {},
            }
        }
        i = i + 1;
    }
    assert(deltas@.skip(i as int) =~= Seq::<BalanceDelta>::empty());
    assert(changes@ + Seq::<BalanceChange>::empty() =~= changes@);
    Ok(changes)
}

} // verus!
