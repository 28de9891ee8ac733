//! What the plans write is what was asked: every column of a planned
//! ledger row, every balance change and every query value comes from the
//! field of the request it belongs to, and a well-formed request is never
//! refused by the checks.
use vstd::prelude::*;
use crate::attachment::{MAX_FILE_SIZE, file_error, target_error};
use crate::correction::{
    StockTransactionUpdateInput, UpdatePlan, correction_error, correction_input_error, corrects,
    deletion_outcome,
};
use crate::inventory::{
    StockInPlan, StockOperationInput, StockOutPlan, StockOutRequest, input_error, is_stock_out_plan,
    receives, requests,
};
use crate::inventory_page::{InventoryPageInput, InventoryPageQuery, is_page_query};
use crate::ledger::{BalanceChange, EntryKind, LedgerRecord, cleaned};
use crate::quantity::QuantityInput;
use crate::text::{has_prefix, trimmed};
use crate::transfer::{StockTransferInput, TransferPlan, is_transfer_plan, transfer_error};

verus! {

/// A receipt writes an "IN" row of exactly the material, location and
/// quantity asked for, each text column holding the cleaned text of its
/// own request field (no destination), and deposits that quantity at that
/// material and location.
pub proof fn law_receipt_records_the_request(p: StockInPlan, input: StockOperationInput)
    requires
        receives(p, input),
    ensures
        input.quantity == QuantityInput::Hundredths(p.entry.fields.quantity),
        p.entry.fields.quantity > 0,
        p.entry.kind == EntryKind::In,
        p.entry.fields.material_id == input.material_id,
        p.entry.fields.location_id == input.location_id,
        p.entry.fields.occurred_at@ == trimmed(input.occurred_at@),
        p.entry.fields.related_unit.deep_view() == cleaned(input.related_unit.deep_view()),
        p.entry.fields.destination is None,
        p.entry.fields.handler.deep_view() == cleaned(input.handler.deep_view()),
        p.entry.fields.receiver.deep_view() == cleaned(input.receiver.deep_view()),
        p.entry.fields.remark.deep_view() == cleaned(input.remark.deep_view()),
        p.entry.fields.adjustment_basis.deep_view() == cleaned(input.adjustment_basis.deep_view()),
        p.change == (BalanceChange::Deposit {
            material_id: input.material_id,
            location_id: input.location_id,
            amount: p.entry.fields.quantity,
        }),
{
}

/// An issue writes an "OUT" row of exactly the material, location and
/// quantity asked for, with the cleaned destination of the request, each
/// other text column holding the cleaned text of its own request field,
/// and withdraws that quantity at that material and location.
pub proof fn law_issue_records_the_request(
    p: StockOutPlan,
    input: StockOperationInput,
    req: StockOutRequest,
)
    requires
        requests(req, input),
        is_stock_out_plan(p, input, req),
    ensures
        input.quantity == QuantityInput::Hundredths(p.entry.fields.quantity),
        p.entry.fields.quantity > 0,
        p.entry.kind == EntryKind::Out,
        p.entry.fields.material_id == input.material_id,
        p.entry.fields.location_id == input.location_id,
        p.entry.fields.occurred_at@ == trimmed(input.occurred_at@),
        p.entry.fields.related_unit.deep_view() == cleaned(input.related_unit.deep_view()),
        cleaned(input.destination.deep_view()) is Some,
        p.entry.fields.destination.deep_view() == cleaned(input.destination.deep_view()),
        p.entry.fields.handler.deep_view() == cleaned(input.handler.deep_view()),
        p.entry.fields.receiver.deep_view() == cleaned(input.receiver.deep_view()),
        p.entry.fields.remark.deep_view() == cleaned(input.remark.deep_view()),
        p.entry.fields.adjustment_basis.deep_view() == cleaned(input.adjustment_basis.deep_view()),
        p.change == (BalanceChange::Withdraw {
            material_id: input.material_id,
            location_id: input.location_id,
            amount: p.entry.fields.quantity,
        }),
{
}

/// A well-formed receipt or issue is accepted by the checks: a positive
/// material and location, an exact positive quantity and a date that is
/// not blank leave nothing to refuse.
pub proof fn law_well_formed_operations_are_accepted(input: StockOperationInput, h: i64)
    requires
        input.material_id > 0,
        input.location_id > 0,
        input.quantity == QuantityInput::Hundredths(h),
        h > 0,
        trimmed(input.occurred_at@).len() > 0,
    ensures
        input_error(input) is None,
{
}

/// A well-formed correction is accepted by the checks made before its
/// row is read: a positive id, material and location, an exact positive
/// quantity and a date that is not blank.
pub proof fn law_well_formed_corrections_are_accepted(input: StockTransactionUpdateInput, h: i64)
    requires
        input.id > 0,
        input.material_id > 0,
        input.location_id > 0,
        input.quantity == QuantityInput::Hundredths(h),
        h > 0,
        trimmed(input.occurred_at@).len() > 0,
    ensures
        correction_input_error(input) is None,
{
}

/// A correction rewrites the row as asked: the row keeps its kind, and its
/// material, location and quantity become those of the request (the row
/// `(kind, material, location, quantity)` that
/// [`crate::consistency::law_correction_keeps_ledger_consistent`] puts in
/// the ledger), each text column holding the cleaned text of its own
/// request field; only an issue keeps a destination.
pub proof fn law_correction_writes_the_requested_row(
    p: UpdatePlan,
    input: StockTransactionUpdateInput,
    rec: LedgerRecord,
    q: i64,
)
    requires
        corrects(p, input, rec, q),
        input.quantity == QuantityInput::Hundredths(q),
    ensures
        rec.kind@ == "IN"@ ==> p.kind == EntryKind::In,
        rec.kind@ != "IN"@ ==> p.kind == EntryKind::Out,
        (p.kind, p.fields.material_id, p.fields.location_id, p.fields.quantity) == (
            p.kind,
            input.material_id,
            input.location_id,
            q,
        ),
        p.fields.occurred_at@ == trimmed(input.occurred_at@),
        p.fields.related_unit.deep_view() == cleaned(input.related_unit.deep_view()),
        p.kind == EntryKind::Out ==> p.fields.destination.deep_view() == cleaned(
            input.destination.deep_view(),
        ),
        p.kind == EntryKind::In ==> p.fields.destination is None,
        p.fields.handler.deep_view() == cleaned(input.handler.deep_view()),
        p.fields.receiver.deep_view() == cleaned(input.receiver.deep_view()),
        p.fields.remark.deep_view() == cleaned(input.remark.deep_view()),
        p.fields.adjustment_basis.deep_view() == cleaned(input.adjustment_basis.deep_view()),
{
}

/// Every well-formed transfer is accepted: a positive material, two
/// different positive locations (in either order), an exact positive
/// quantity and a date that is not blank leave nothing to refuse; and the
/// refusal "转入库位不能与原库位相同" comes only when the two locations are
/// the same.
pub proof fn law_well_formed_transfers_are_accepted(input: StockTransferInput, h: i64)
    ensures
        (input.material_id > 0 && input.from_location_id > 0 && input.to_location_id > 0
            && input.from_location_id != input.to_location_id && input.quantity
            == QuantityInput::Hundredths(h) && h > 0 && trimmed(input.occurred_at@).len() > 0)
            ==> transfer_error(input) is None,
        transfer_error(input) == Some("转入库位不能与原库位相同"@) ==> input.from_location_id
            == input.to_location_id,
{
    reveal_strlit("转入库位不能与原库位相同");
    reveal_strlit("请选择物资和库位");
    reveal_strlit("转移数量必须大于 0");
    reveal_strlit("数量最多只能有两位小数，系统不会自动四舍五入");
    reveal_strlit("请选择业务日期");
    assert("转入库位不能与原库位相同"@ != "请选择物资和库位"@) by {
        assert("转入库位不能与原库位相同"@[0] != "请选择物资和库位"@[0]);
    }
    assert("转入库位不能与原库位相同"@ != "转移数量必须大于 0"@) by {
        assert("转入库位不能与原库位相同"@[1] != "转移数量必须大于 0"@[1]);
    }
    assert("转入库位不能与原库位相同"@ != "数量最多只能有两位小数，系统不会自动四舍五入"@) by {
        assert("转入库位不能与原库位相同"@[0] != "数量最多只能有两位小数，系统不会自动四舍五入"@[0]);
    }
    assert("转入库位不能与原库位相同"@ != "请选择业务日期"@) by {
        assert("转入库位不能与原库位相同"@[0] != "请选择业务日期"@[0]);
    }
}

/// A transfer writes an "OUT" row at the source location and an "IN" row
/// at the target location, both of the material and quantity moved, and
/// withdraws that quantity at the source before depositing it at the
/// target. The handler column holds the cleaned handler of the request and
/// the receiver column is empty; the related unit is "库内调拨", the remark
/// and basis are those of the request, else "库内调拨：<source> → <target>"
/// and "库内调拨"; the issuing row names the target as its destination.
pub proof fn law_transfer_records_the_request(
    p: TransferPlan,
    input: StockTransferInput,
    q: i64,
    source: Seq<char>,
    target: Seq<char>,
)
    requires
        is_transfer_plan(p, input, q, source, target),
    ensures
        p.out_entry.kind == EntryKind::Out,
        p.in_entry.kind == EntryKind::In,
        p.out_entry.fields.material_id == input.material_id,
        p.in_entry.fields.material_id == input.material_id,
        p.out_entry.fields.location_id == input.from_location_id,
        p.in_entry.fields.location_id == input.to_location_id,
        p.out_entry.fields.quantity == q,
        p.in_entry.fields.quantity == q,
        p.out_entry.fields.destination.deep_view() == Some(target),
        p.in_entry.fields.destination is None,
        p.out_entry.fields.handler.deep_view() == cleaned(input.handler.deep_view()),
        p.in_entry.fields.handler.deep_view() == cleaned(input.handler.deep_view()),
        p.out_entry.fields.receiver is None,
        p.in_entry.fields.receiver is None,
        p.out_entry.fields.occurred_at@ == trimmed(input.occurred_at@),
        p.in_entry.fields.occurred_at@ == trimmed(input.occurred_at@),
        p.out_entry.fields.related_unit.deep_view() == Some("库内调拨"@),
        p.in_entry.fields.related_unit.deep_view() == Some("库内调拨"@),
        cleaned(input.remark.deep_view()) matches Some(r) ==> p.out_entry.fields.remark.deep_view()
            == Some(r) && p.in_entry.fields.remark.deep_view() == Some(r),
        cleaned(input.remark.deep_view()) is None ==> p.out_entry.fields.remark.deep_view() == Some(
            "库内调拨："@ + source + " → "@ + target,
        ) && p.in_entry.fields.remark.deep_view() == Some("库内调拨："@ + source + " → "@ + target),
        cleaned(input.adjustment_basis.deep_view()) matches Some(a) ==> p.out_entry.fields.adjustment_basis.deep_view()
            == Some(a) && p.in_entry.fields.adjustment_basis.deep_view() == Some(a),
        cleaned(input.adjustment_basis.deep_view()) is None ==> p.out_entry.fields.adjustment_basis.deep_view()
            == Some("库内调拨"@) && p.in_entry.fields.adjustment_basis.deep_view() == Some("库内调拨"@),
        p.changes@.len() == 2,
        p.changes@[0] == (BalanceChange::Withdraw {
            material_id: input.material_id,
            location_id: input.from_location_id,
            amount: q,
        }),
        p.changes@[1] == (BalanceChange::Deposit {
            material_id: input.material_id,
            location_id: input.to_location_id,
            amount: q,
        }),
{
}

/// A page query carries what was asked: the page (at least 1), the page
/// size (100, 200 or 500, else 100), the offset of its first row, a known
/// total passed through unchanged when it is not negative (a negative one
/// becomes 0, none stays none), the location filter when its id is
/// positive, and a keyword or unit filter exactly when that text is not
/// blank.
pub proof fn law_page_query_carries_the_request(q: InventoryPageQuery, input: InventoryPageInput)
    requires
        is_page_query(q, input),
    ensures
        input.page >= 1 ==> q.page == input.page,
        input.page < 1 ==> q.page == 1,
        (input.page_size == 100 || input.page_size == 200 || input.page_size == 500) ==> q.page_size
            == input.page_size,
        !(input.page_size == 100 || input.page_size == 200 || input.page_size == 500)
            ==> q.page_size == 100,
        q.offset == (q.page - 1) * q.page_size,
        input.known_total matches Some(t) ==> (t >= 0 ==> q.known_total == Some(t)),
        input.known_total matches Some(t) ==> (t < 0 ==> q.known_total == Some(0i64)),
        input.known_total is None ==> q.known_total is None,
        input.location_id matches Some(id) ==> (id > 0 ==> q.location_id == Some(id)),
        (input.location_id is None || input.location_id->0 <= 0) ==> q.location_id is None,
        (q.keyword is Some) == (cleaned(input.keyword.deep_view()) is Some),
        (q.unit is Some) == (cleaned(input.unit.deep_view()) is Some),
        cleaned(input.keyword.deep_view()) matches Some(k) ==> q.keyword.deep_view() == Some(
            "%"@ + k + "%"@,
        ),
        cleaned(input.unit.deep_view()) matches Some(u) ==> q.unit.deep_view() == Some(
            "%"@ + u + "%"@,
        ),
{
}

/// A receipt or issue that breaks a rule is refused: a material or
/// location that is not positive, a quantity that is not an exact
/// positive amount, or a blank date.
pub proof fn law_broken_operations_are_refused(input: StockOperationInput)
    requires
        input.material_id <= 0 || input.location_id <= 0 || !(input.quantity matches QuantityInput::Hundredths(
            h,
        ) && h > 0) || trimmed(input.occurred_at@).len() == 0,
    ensures
        input_error(input) is Some,
{
}

/// A transfer that breaks a rule is refused: a material or location that
/// is not positive, the same location on both sides, a quantity that is
/// not an exact positive amount, or a blank date.
pub proof fn law_broken_transfers_are_refused(input: StockTransferInput)
    requires
        input.material_id <= 0 || input.from_location_id <= 0 || input.to_location_id <= 0
            || input.from_location_id == input.to_location_id || !(input.quantity matches QuantityInput::Hundredths(
            h,
        ) && h > 0) || trimmed(input.occurred_at@).len() == 0,
    ensures
        transfer_error(input) is Some,
{
}

/// Deleting a ledger row reverses exactly that row: a receipt by
/// withdrawing its quantity at its material and location, an issue by
/// depositing it there. A missing row, a row of a transfer (numbered
/// `TRANSFER-...`) and any other kind of row are refused.
pub proof fn law_deletion_reverses_exactly_the_row(record: Option<LedgerRecord>)
    ensures
        record is None ==> deletion_outcome(record) is Err,
        record matches Some(rec) ==> (has_prefix(rec.transaction_no@, "TRANSFER-"@) ==> deletion_outcome(
            record,
        ) is Err),
        record matches Some(rec) ==> (!has_prefix(rec.transaction_no@, "TRANSFER-"@) && rec.kind@
            == "IN"@ ==> deletion_outcome(record) == Ok::<BalanceChange, Seq<char>>(
            BalanceChange::Withdraw {
                material_id: rec.material_id,
                location_id: rec.location_id,
                amount: rec.quantity,
            },
        )),
        record matches Some(rec) ==> (!has_prefix(rec.transaction_no@, "TRANSFER-"@) && rec.kind@
            == "OUT"@ ==> deletion_outcome(record) == Ok::<BalanceChange, Seq<char>>(
            BalanceChange::Deposit {
                material_id: rec.material_id,
                location_id: rec.location_id,
                amount: rec.quantity,
            },
        )),
        record matches Some(rec) ==> (rec.kind@ != "IN"@ && rec.kind@ != "OUT"@ ==> deletion_outcome(
            record,
        ) is Err),
{
    reveal_strlit("IN");
    reveal_strlit("OUT");
    assert("IN"@.len() != "OUT"@.len());
}

/// A correction of an existing row is accepted exactly when the row is a
/// receipt or an issue that is not half of a transfer, and, for an issue,
/// the request names a receiving unit that is not blank.
pub proof fn law_corrections_accepted_exactly_for_plain_rows(
    input: StockTransactionUpdateInput,
    rec: LedgerRecord,
)
    ensures
        correction_error(input, None) is Some,
        (correction_error(input, Some(rec)) is None) == (!has_prefix(rec.transaction_no@, "TRANSFER-"@)
            && (rec.kind@ == "IN"@ || (rec.kind@ == "OUT"@ && cleaned(input.destination.deep_view()) is Some))),
{
    reveal_strlit("IN");
    reveal_strlit("OUT");
    assert("IN"@.len() != "OUT"@.len());
}

/// An image may be attached exactly to a material or a ledger row (owner
/// type "MATERIAL" or "TRANSACTION") with a positive id, and exactly from
/// a regular file of 1 byte to 15 MB.
pub proof fn law_attachment_checks_accept_exactly_valid_targets(
    entity_type: Seq<char>,
    entity_id: i64,
    is_file: bool,
    len: u64,
)
    ensures
        (target_error(entity_type, entity_id) is None) == ((entity_type == "MATERIAL"@
            || entity_type == "TRANSACTION"@) && entity_id > 0),
        (file_error(is_file, len) is None) == (is_file && 0 < len && len <= 15 * 1024 * 1024),
        MAX_FILE_SIZE == 15 * 1024 * 1024,
{
}

} // verus!
