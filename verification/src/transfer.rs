//! Moving stock between two locations: one guarded withdrawal, one
//! deposit, and a pair of ledger rows so that every view stays consistent.
use vstd::prelude::*;
use crate::inventory::{MSG_NO_DATE, MSG_TOO_PRECISE, quantity_positive};
use crate::ledger::{
    BalanceChange, EntryFields, EntryKind, NewLedgerEntry, clean, cleaned, is_transaction_number,
    transaction_no,
};
use crate::quantity::QuantityInput;
use crate::text::{concat, trim_text, trimmed};

verus! {

/// Message when the source location's stock does not cover the transfer.
pub const MSG_TRANSFER_SHORTAGE: &'static str = "转库失败：原库位库存不足，转库已取消";
/// Message when a material or location is missing from a position
/// request.
pub const MSG_INVALID_POSITION: &'static str = "无效的物资或存放位置";

/// A request to move stock of one material between two locations.
#[derive(Debug)]
pub struct StockTransferInput {
    pub material_id: i64,
    pub from_location_id: i64,
    pub to_location_id: i64,
    pub quantity: QuantityInput,
    pub occurred_at: String,
    pub handler: Option<String>,
    pub remark: Option<String>,
    pub adjustment_basis: Option<String>,
}

/// The first rule that a transfer breaks before anything is read.
pub open spec fn transfer_error(input: StockTransferInput) -> Option<Seq<char>> {
    if input.material_id <= 0 || input.from_location_id <= 0 || input.to_location_id <= 0 {
        Some("请选择物资和库位"@)
    } else if input.from_location_id == input.to_location_id {
        Some("转入库位不能与原库位相同"@)
    } else if !quantity_positive(input.quantity) {
        Some("转移数量必须大于 0"@)
    } else if input.quantity is TooPrecise {
        Some(MSG_TOO_PRECISE@)
    } else if trimmed(input.occurred_at@).len() == 0 {
        Some(MSG_NO_DATE@)
    } else {
        None
    }
}

/// Checks a transfer; gives its quantity in hundredths.
pub fn validate_transfer(input: &StockTransferInput) -> (r: Result<i64, String>)
    ensures
        match r {
            Ok(q) => transfer_error(*input) is None && input.quantity == QuantityInput::Hundredths(q)
                && q > 0,
            Err(e) => transfer_error(*input) == Some(e@),
        },
{
    if input.material_id <= 0 || input.from_location_id <= 0 || input.to_location_id <= 0 {
        return Err("请选择物资和库位".to_owned());
    }
    if input.from_location_id == input.to_location_id {
        return Err("转入库位不能与原库位相同".to_owned());
    }
    let q = match input.quantity {
        QuantityInput::NotPositive => {
            return Err("转移数量必须大于 0".to_owned());
        },
        QuantityInput::TooPrecise => {
            return Err(MSG_TOO_PRECISE.to_owned());
        },
        QuantityInput::Hundredths(h) => {
            if h <= 0 {
                return Err("转移数量必须大于 0".to_owned());
            }
            h
        },
    };
    let date = trim_text(input.occurred_at.as_str());
    if date.as_str().is_empty() {
        return Err(MSG_NO_DATE.to_owned());
    }
    Ok(q)
}

/// A transfer: the balance changes in order (withdraw at the source,
/// deposit at the target) and the two ledger rows.
#[derive(Debug)]
pub struct TransferPlan {
    pub changes: Vec<BalanceChange>,
    pub out_entry: NewLedgerEntry,
    pub in_entry: NewLedgerEntry,
}

/// The default remark of a transfer between two named locations.
pub open spec fn transfer_remark(source: Seq<char>, target: Seq<char>) -> Seq<char> {
    "库内调拨："@ + source + " → "@ + target
}

/// `f` is one side of the transfer `input` of `q` at `location_id`.
pub open spec fn transfer_side(
    f: EntryFields,
    input: StockTransferInput,
    q: i64,
    location_id: i64,
    destination: Option<Seq<char>>,
    source: Seq<char>,
    target: Seq<char>,
) -> bool {
    &&& f.material_id == input.material_id
    &&& f.location_id == location_id
    &&& f.quantity == q
    &&& f.occurred_at@ == trimmed(input.occurred_at@)
    &&& f.related_unit.deep_view() == Some("库内调拨"@)
    &&& f.destination.deep_view() == destination
    &&& f.handler.deep_view() == cleaned(input.handler.deep_view())
    &&& f.receiver.deep_view() == None::<Seq<char>>
    &&& f.remark.deep_view() == Some(
        match cleaned(input.remark.deep_view()) {
            Some(r) => r,
            None => transfer_remark(source, target),
        },
    )
    &&& f.adjustment_basis.deep_view() == Some(
        match cleaned(input.adjustment_basis.deep_view()) {
            Some(b) => b,
            None => "库内调拨"@,
        },
    )
}

/// `p` moves `q` of the material of `input` from the source location
/// (named `source`) to the target (named `target`).
pub open spec fn is_transfer_plan(
    p: TransferPlan,
    input: StockTransferInput,
    q: i64,
    source: Seq<char>,
    target: Seq<char>,
) -> bool {
    &&& p.changes@ == seq![
        BalanceChange::Withdraw {
            material_id: input.material_id,
            location_id: input.from_location_id,
            amount: q,
        },
        BalanceChange::Deposit {
            material_id: input.material_id,
            location_id: input.to_location_id,
            amount: q,
        },
    ]
    &&& p.out_entry.kind == EntryKind::Out
    &&& is_transaction_number(p.out_entry.transaction_no@, "TRANSFER-OUT"@)
    &&& transfer_side(
        p.out_entry.fields,
        input,
        q,
        input.from_location_id,
        Some(target),
        source,
        target,
    )
    &&& p.in_entry.kind == EntryKind::In
    &&& is_transaction_number(p.in_entry.transaction_no@, "TRANSFER-IN"@)
    &&& transfer_side(p.in_entry.fields, input, q, input.to_location_id, None, source, target)
}

/// Plans a transfer once the two locations have been looked up:
/// `source_name` is the name of the source location, `target_name` that of
/// the target among the locations in use.
pub fn plan_transfer(
    input: &StockTransferInput,
    q: i64,
    source_name: &Option<String>,
    target_name: &Option<String>,
) -> (r: Result<TransferPlan, String>)
    ensures
        match r {
            Ok(p) => (*source_name matches Some(s) && (*target_name matches Some(t)
                && is_transfer_plan(p, *input, q, s@, t@))),
            Err(e) => match (*source_name, *target_name) {
                (None, _) => e@ == "转库失败：原存放位置不存在或已停用"@,
                (Some(_), None) => e@ == "转库失败：转入存放位置不存在或已停用"@,
                (Some(_), Some(_)) => false,
            },
        },
{
    let source = match source_name {
        Some(s) => s,
        None => {
            return Err("转库失败：原存放位置不存在或已停用".to_owned());
        },
    };
    let target = match target_name {
        Some(t) => t,
        None => {
            return Err("转库失败：转入存放位置不存在或已停用".to_owned());
        },
    };
    let basis = match clean(&input.adjustment_basis) {
        Some(b) => b,
        None => "库内调拨".to_owned(),
    };
    let remark = match clean(&input.remark) {
        Some(r) => r,
        None => {
            let mut r = concat("库内调拨：", source.as_str());
            r.append(" → ");
            r.append(target.as_str());
            r
        },
    };
    let occurred_at = trim_text(input.occurred_at.as_str());
    let handler = clean(&input.handler);
    let out_fields = EntryFields {
        material_id: input.material_id,
        location_id: input.from_location_id,
        quantity: q,
        occurred_at: occurred_at.clone(),
        related_unit: Some("库内调拨".to_owned()),
        destination: Some(target.clone()),
        handler: handler.clone(),
        receiver: None,
        remark: Some(remark.clone()),
        adjustment_basis: Some(basis.clone()),
    };
    let in_fields = EntryFields {
        material_id: input.material_id,
        location_id: input.to_location_id,
        quantity: q,
        occurred_at,
        related_unit: Some("库内调拨".to_owned()),
        destination: None,
        handler,
        receiver: None,
        remark: Some(remark),
        adjustment_basis: Some(basis),
    };
    let mut changes: Vec<BalanceChange> = Vec::new();
    changes.push(
        BalanceChange::Withdraw {
            material_id: input.material_id,
            location_id: input.from_location_id,
            amount: q,
        },
    );
    changes.push(
        BalanceChange::Deposit {
            material_id: input.material_id,
            location_id: input.to_location_id,
            amount: q,
        },
    );
    let out_entry = NewLedgerEntry {
        transaction_no: transaction_no("TRANSFER-OUT"),
        kind: EntryKind::Out,
        fields: out_fields,
    };
    let in_entry = NewLedgerEntry {
        transaction_no: transaction_no("TRANSFER-IN"),
        kind: EntryKind::In,
        fields: in_fields,
    };
    let p = TransferPlan { changes, out_entry, in_entry };
    assert(p.changes@ =~= seq![
        BalanceChange::Withdraw {
            material_id: input.material_id,
            location_id: input.from_location_id,
            amount: q,
        },
        BalanceChange::Deposit {
            material_id: input.material_id,
            location_id: input.to_location_id,
            amount: q,
        },
    ]);
    Ok(p)
}

/// Checks the material and location of a position to clear.
pub fn check_inventory_position(material_id: i64, location_id: i64) -> (r: Result<(), String>)
    ensures
        match r {
            Ok(()) => material_id > 0 && location_id > 0,
            Err(e) => (material_id <= 0 || location_id <= 0) && e@ == MSG_INVALID_POSITION@,
        },
{
    if material_id <= 0 || location_id <= 0 {
        return Err(MSG_INVALID_POSITION.to_owned());
    }
    Ok(())
}

} // verus!
