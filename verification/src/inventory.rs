//! Receiving and issuing stock: input validation and the plans that the
//! database executes in one transaction per request.
use vstd::prelude::*;
use crate::ledger::{
    BalanceChange, EntryFields, EntryKind, NewLedgerEntry, clean, cleaned, is_transaction_number,
    transaction_no,
};
use crate::quantity::{QuantityInput, hundredths_text, push_hundredths};
use crate::text::{trim_text, trimmed};

verus! {

/// Message when no material is chosen.
pub const MSG_NO_MATERIAL: &'static str = "请选择物资";
/// Message when no location is chosen.
pub const MSG_NO_LOCATION: &'static str = "请选择存放位置";
/// Message for a quantity that is not greater than zero.
pub const MSG_QUANTITY_NOT_POSITIVE: &'static str = "数量必须大于 0";
/// Message for a quantity with more than two decimals.
pub const MSG_TOO_PRECISE: &'static str = "数量最多只能有两位小数，系统不会自动四舍五入";
/// Message when the business date is blank.
pub const MSG_NO_DATE: &'static str = "请选择业务日期";
/// Message when an issue has no destination.
pub const MSG_NO_DESTINATION: &'static str = "出库去向不能为空";
/// Message when a batch issue line (or an issue being corrected) has no
/// receiving unit.
pub const MSG_NO_RECEIVING_UNIT: &'static str = "领用单位不能为空";
/// Message for an empty batch.
pub const MSG_EMPTY_BATCH: &'static str = "请至少添加一项物资";
/// Message when the guarded withdrawal of an issue finds too little stock.
pub const MSG_OUT_BALANCE_CHANGED: &'static str = "出库登记失败：库存余额发生变化，本次出库已取消，请重试";
/// Message when a guarded withdrawal of a batch issue finds too little
/// stock.
pub const MSG_BATCH_OUT_BALANCE_CHANGED: &'static str =
    "批量出库失败：库存余额发生变化，本批出库已取消，请重试";

/// A request to receive or issue stock.
#[derive(Debug)]
pub struct StockOperationInput {
    pub material_id: i64,
    pub location_id: i64,
    pub quantity: QuantityInput,
    pub occurred_at: String,
    pub related_unit: Option<String>,
    pub destination: Option<String>,
    pub handler: Option<String>,
    pub receiver: Option<String>,
    pub remark: Option<String>,
    pub adjustment_basis: Option<String>,
}

/// The quantity counts as greater than zero.
pub open spec fn quantity_positive(q: QuantityInput) -> bool {
    match q {
        QuantityInput::NotPositive => false,
        QuantityInput::TooPrecise => true,
        QuantityInput::Hundredths(h) => h > 0,
    }
}

/// The first rule that a receipt or issue breaks, if any.
pub open spec fn operation_error(
    material_id: i64,
    location_id: i64,
    quantity: QuantityInput,
    occurred_at: Seq<char>,
) -> Option<Seq<char>> {
    if material_id <= 0 {
        Some(MSG_NO_MATERIAL@)
    } else if location_id <= 0 {
        Some(MSG_NO_LOCATION@)
    } else if !quantity_positive(quantity) {
        Some(MSG_QUANTITY_NOT_POSITIVE@)
    } else if quantity is TooPrecise {
        Some(MSG_TOO_PRECISE@)
    } else if trimmed(occurred_at).len() == 0 {
        Some(MSG_NO_DATE@)
    } else {
        None
    }
}

/// The first rule that `input` breaks, if any.
pub open spec fn input_error(input: StockOperationInput) -> Option<Seq<char>> {
    operation_error(input.material_id, input.location_id, input.quantity, input.occurred_at@)
}

/// Checks a receipt or issue; gives its quantity in hundredths.
pub fn check_operation(
    material_id: i64,
    location_id: i64,
    quantity: QuantityInput,
    occurred_at: &str,
) -> (r: Result<i64, String>)
    ensures
        match r {
            Ok(h) => operation_error(material_id, location_id, quantity, occurred_at@) is None
                && quantity == QuantityInput::Hundredths(h) && h > 0,
            Err(e) => operation_error(material_id, location_id, quantity, occurred_at@) == Some(
                e@,
            ),
        },
{
    if material_id <= 0 {
        return Err(MSG_NO_MATERIAL.to_owned());
    }
    if location_id <= 0 {
        return Err(MSG_NO_LOCATION.to_owned());
    }
    let h = match quantity {
        QuantityInput::NotPositive => {
            return Err(MSG_QUANTITY_NOT_POSITIVE.to_owned());
        },
        QuantityInput::TooPrecise => {
            return Err(MSG_TOO_PRECISE.to_owned());
        },
        QuantityInput::Hundredths(h) => {
            if h <= 0 {
                return Err(MSG_QUANTITY_NOT_POSITIVE.to_owned());
            }
            h
        },
    };
    let date = trim_text(occurred_at);
    if date.as_str().is_empty() {
        return Err(MSG_NO_DATE.to_owned());
    }
    Ok(h)
}

/// Checks a receipt or issue; gives its quantity in hundredths.
pub fn validate(input: &StockOperationInput) -> (r: Result<i64, String>)
    ensures
        match r {
            Ok(h) => input_error(*input) is None && input.quantity == QuantityInput::Hundredths(h)
                && h > 0,
            Err(e) => input_error(*input) == Some(e@),
        },
{
    check_operation(
        input.material_id,
        input.location_id,
        input.quantity,
        input.occurred_at.as_str(),
    )
}

/// `f` holds what `input` asks to record, with `quantity` and
/// `destination`: the date trimmed and every optional text cleaned.
pub open spec fn records_operation(
    f: EntryFields,
    input: StockOperationInput,
    quantity: i64,
    destination: Option<Seq<char>>,
) -> bool {
    &&& f.material_id == input.material_id
    &&& f.location_id == input.location_id
    &&& f.quantity == quantity
    &&& f.occurred_at@ == trimmed(input.occurred_at@)
    &&& f.related_unit.deep_view() == cleaned(input.related_unit.deep_view())
    &&& f.destination.deep_view() == destination
    &&& f.handler.deep_view() == cleaned(input.handler.deep_view())
    &&& f.receiver.deep_view() == cleaned(input.receiver.deep_view())
    &&& f.remark.deep_view() == cleaned(input.remark.deep_view())
    &&& f.adjustment_basis.deep_view() == cleaned(input.adjustment_basis.deep_view())
}

/// The ledger columns that `input` asks to record.
fn operation_fields(input: &StockOperationInput, quantity: i64, destination: Option<String>) -> (f:
    EntryFields)
    ensures
        records_operation(f, *input, quantity, destination.deep_view()),
{
    EntryFields {
        material_id: input.material_id,
        location_id: input.location_id,
        quantity,
        occurred_at: trim_text(input.occurred_at.as_str()),
        related_unit: clean(&input.related_unit),
        destination,
        handler: clean(&input.handler),
        receiver: clean(&input.receiver),
        remark: clean(&input.remark),
        adjustment_basis: clean(&input.adjustment_basis),
    }
}

/// A receipt: one "IN" ledger row and one deposit.
#[derive(Debug)]
pub struct StockInPlan {
    pub entry: NewLedgerEntry,
    pub change: BalanceChange,
}

/// `p` receives `quantity` of what `input` names: an "IN" row numbered
/// `IN-<uuid>` without a destination, and a deposit of the quantity.
pub open spec fn is_stock_in_plan(p: StockInPlan, input: StockOperationInput, quantity: i64) -> bool {
    &&& quantity > 0
    &&& p.entry.kind == EntryKind::In
    &&& is_transaction_number(p.entry.transaction_no@, "IN"@)
    &&& records_operation(p.entry.fields, input, quantity, None)
    &&& p.change == BalanceChange::Deposit {
        material_id: input.material_id,
        location_id: input.location_id,
        amount: quantity,
    }
}

/// `p` receives what `input` asks for.
pub open spec fn receives(p: StockInPlan, input: StockOperationInput) -> bool {
    input.quantity matches QuantityInput::Hundredths(q) && is_stock_in_plan(p, input, q)
}

/// Plans a receipt.
pub fn plan_stock_in(input: &StockOperationInput) -> (r: Result<StockInPlan, String>)
    ensures
        match r {
            Ok(p) => input_error(*input) is None && receives(p, *input),
            Err(e) => input_error(*input) == Some(e@),
        },
{
    let q = validate(input)?;
    let fields = operation_fields(input, q, None);
    let entry = NewLedgerEntry { transaction_no: transaction_no("IN"), kind: EntryKind::In, fields };
    Ok(StockInPlan {
        entry,
        change: BalanceChange::Deposit {
            material_id: input.material_id,
            location_id: input.location_id,
            amount: q,
        },
    })
}

/// The first invalid line of a batch, if any.
pub open spec fn first_input_error(inputs: Seq<StockOperationInput>) -> Option<Seq<char>>
    decreases inputs.len(),
{
    if inputs.len() == 0 {
        None
    } else {
        match input_error(inputs[0]) {
            Some(e) => Some(e),
            None => first_input_error(inputs.drop_first()),
        }
    }
}

/// A batch without a first invalid line has no invalid line.
proof fn lemma_no_first_error(inputs: Seq<StockOperationInput>)
    requires
        first_input_error(inputs) is None,
    ensures
        forall|k: int| 0 <= k < inputs.len() ==> input_error(#[trigger] inputs[k]) is None,
    decreases inputs.len(),
{
    if inputs.len() > 0 {
        lemma_no_first_error(inputs.drop_first());
        assert forall|k: int| 0 <= k < inputs.len() implies input_error(#[trigger] inputs[k]) is None by {
            if k > 0 {
                assert(inputs[k] == inputs.drop_first()[k - 1]);
            }
        }
    }
}

/// Plans a batch receipt: every line is checked before anything is
/// written, and the lines are received in order in one transaction.
pub fn plan_stock_in_batch(inputs: &Vec<StockOperationInput>) -> (r: Result<
    Vec<StockInPlan>,
    String,
>)
    ensures
        match r {
            Ok(ps) => {
                &&& inputs@.len() > 0
                &&& first_input_error(inputs@) is None
                &&& ps@.len() == inputs@.len()
                &&& forall|i: int| 0 <= i < inputs@.len() ==> receives(#[trigger] ps@[i], inputs@[i])
            },
            Err(e) => if inputs@.len() == 0 {
                e@ == MSG_EMPTY_BATCH@
            } else {
                first_input_error(inputs@) == Some(e@)
            },
        },
{
    if inputs.len() == 0 {
        return Err(MSG_EMPTY_BATCH.to_owned());
    }
    let mut i: usize = 0;
    assert(inputs@.skip(0) =~= inputs@);
    while i < inputs.len()
        invariant
            i <= inputs@.len(),
            first_input_error(inputs@) == first_input_error(inputs@.skip(i as int)),
        decreases inputs@.len() - i,
    {
        assert(inputs@.skip(i as int)[0] == inputs@[i as int]);
        assert(inputs@.skip(i as int).drop_first() =~= inputs@.skip(i + 1));
        validate(&inputs[i])?;
        i = i + 1;
    }
    assert(inputs@.skip(i as int) =~= Seq::<StockOperationInput>::empty());
    proof {
        lemma_no_first_error(inputs@);
    }
    let mut plans: Vec<StockInPlan> = Vec::new();
    let mut j: usize = 0;
    while j < inputs.len()
        invariant
            j <= inputs@.len(),
            plans@.len() == j,
            forall|k: int| 0 <= k < inputs@.len() ==> input_error(#[trigger] inputs@[k]) is None,
            forall|k: int| 0 <= k < j ==> receives(#[trigger] plans@[k], inputs@[k]),
        decreases inputs@.len() - j,
    {
        match plan_stock_in(&inputs[j]) {
            Ok(p) => plans.push(p),
            Err(e) => {
                assert(false);
                return Err(e);
            },
        }
        j = j + 1;
    }
    Ok(plans)
}

/// An issue that passed its checks: the quantity and the cleaned
/// destination.
#[derive(Debug)]
pub struct StockOutRequest {
    pub quantity: i64,
    pub destination: String,
}

/// `req` is what `input` asks to issue.
pub open spec fn requests(req: StockOutRequest, input: StockOperationInput) -> bool {
    &&& input.quantity == QuantityInput::Hundredths(req.quantity)
    &&& req.quantity > 0
    &&& cleaned(input.destination.deep_view()) == Some(req.destination@)
}

/// The first rule that an issue breaks, with `missing` as the message for
/// a blank destination.
pub open spec fn issue_error(input: StockOperationInput, missing: Seq<char>) -> Option<Seq<char>> {
    match input_error(input) {
        Some(e) => Some(e),
        None => if cleaned(input.destination.deep_view()) is None {
            Some(missing)
        } else {
            None
        },
    }
}

fn check_issue(input: &StockOperationInput, missing: &str) -> (r: Result<StockOutRequest, String>)
    ensures
        match r {
            Ok(req) => issue_error(*input, missing@) is None && requests(req, *input),
            Err(e) => issue_error(*input, missing@) == Some(e@),
        },
{
    let q = validate(input)?;
    match clean(&input.destination) {
        Some(destination) => Ok(StockOutRequest { quantity: q, destination }),
        None => Err(missing.to_owned()),
    }
}

/// Checks an issue before the stock is read.
pub fn prepare_stock_out(input: &StockOperationInput) -> (r: Result<StockOutRequest, String>)
    ensures
        match r {
            Ok(req) => issue_error(*input, MSG_NO_DESTINATION@) is None && requests(req, *input),
            Err(e) => issue_error(*input, MSG_NO_DESTINATION@) == Some(e@),
        },
{
    check_issue(input, MSG_NO_DESTINATION)
}

/// An issue: one "OUT" ledger row and one guarded withdrawal.
#[derive(Debug)]
pub struct StockOutPlan {
    pub entry: NewLedgerEntry,
    pub change: BalanceChange,
}

/// `p` issues what `req` allows of `input`: an "OUT" row numbered
/// `OUT-<uuid>` with the cleaned destination, and a withdrawal of the
/// quantity.
pub open spec fn is_stock_out_plan(
    p: StockOutPlan,
    input: StockOperationInput,
    req: StockOutRequest,
) -> bool {
    &&& p.entry.kind == EntryKind::Out
    &&& is_transaction_number(p.entry.transaction_no@, "OUT"@)
    &&& records_operation(p.entry.fields, input, req.quantity, Some(req.destination@))
    &&& p.change == BalanceChange::Withdraw {
        material_id: input.material_id,
        location_id: input.location_id,
        amount: req.quantity,
    }
}

fn stock_out_plan_for(input: &StockOperationInput, req: &StockOutRequest) -> (p: StockOutPlan)
    ensures
        is_stock_out_plan(p, *input, *req),
{
    let fields = operation_fields(input, req.quantity, Some(req.destination.clone()));
    StockOutPlan {
        entry: NewLedgerEntry { transaction_no: transaction_no("OUT"), kind: EntryKind::Out, fields },
        change: BalanceChange::Withdraw {
            material_id: input.material_id,
            location_id: input.location_id,
            amount: req.quantity,
        },
    }
}

/// `prefix`, the amount in hundredths as a decimal number, then `suffix`.
pub fn amount_message(prefix: &str, amount: i128, suffix: &str) -> (r: String)
    ensures
        r@ == prefix@ + hundredths_text(amount as int) + suffix@,
{
    let mut r = prefix.to_owned();
    push_hundredths(&mut r, amount);
    r.append(suffix);
    r
}

/// The message for an issue that exceeds the `available` stock.
pub open spec fn shortage_message(available: int) -> Seq<char> {
    "库存不足，当前可用库存为 "@ + hundredths_text(available)
}

/// Plans an issue once the `available` balance has been read: refused
/// when it does not cover the quantity, else an "OUT" row and a guarded
/// withdrawal.
pub fn plan_stock_out(input: &StockOperationInput, req: &StockOutRequest, available: i64) -> (r:
    Result<StockOutPlan, String>)
    requires
        requests(*req, *input),
    ensures
        match r {
            Ok(p) => available >= req.quantity && is_stock_out_plan(p, *input, *req),
            Err(e) => available < req.quantity && e@ == shortage_message(available as int),
        },
{
    if available < req.quantity {
        let e = amount_message("库存不足，当前可用库存为 ", available as i128, "");
        proof {
            reveal_strlit("");
        }
        assert(e@ =~= shortage_message(available as int));
        return Err(e);
    }
    Ok(stock_out_plan_for(input, req))
}

/// The first line of a batch issue that breaks a rule, if any.
pub open spec fn first_issue_error(inputs: Seq<StockOperationInput>) -> Option<Seq<char>>
    decreases inputs.len(),
{
    if inputs.len() == 0 {
        None
    } else {
        match issue_error(inputs[0], MSG_NO_RECEIVING_UNIT@) {
            Some(e) => Some(e),
            None => first_issue_error(inputs.drop_first()),
        }
    }
}

/// Checks every line of a batch issue before any stock is read.
pub fn prepare_stock_out_batch(inputs: &Vec<StockOperationInput>) -> (r: Result<
    Vec<StockOutRequest>,
    String,
>)
    ensures
        match r {
            Ok(reqs) => {
                &&& inputs@.len() > 0
                &&& first_issue_error(inputs@) is None
                &&& reqs@.len() == inputs@.len()
                &&& forall|i: int| 0 <= i < inputs@.len() ==> requests(#[trigger] reqs@[i], inputs@[i])
            },
            Err(e) => if inputs@.len() == 0 {
                e@ == MSG_EMPTY_BATCH@
            } else {
                first_issue_error(inputs@) == Some(e@)
            },
        },
{
    if inputs.len() == 0 {
        return Err(MSG_EMPTY_BATCH.to_owned());
    }
    let mut reqs: Vec<StockOutRequest> = Vec::new();
    let mut i: usize = 0;
    assert(inputs@.skip(0) =~= inputs@);
    while i < inputs.len()
        invariant
            i <= inputs@.len(),
            reqs@.len() == i,
            first_issue_error(inputs@) == first_issue_error(inputs@.skip(i as int)),
            forall|k: int| 0 <= k < i ==> requests(#[trigger] reqs@[k], inputs@[k]),
        decreases inputs@.len() - i,
    {
        assert(inputs@.skip(i as int)[0] == inputs@[i as int]);
        assert(inputs@.skip(i as int).drop_first() =~= inputs@.skip(i + 1));
        let req = check_issue(&inputs[i], MSG_NO_RECEIVING_UNIT)?;
        reqs.push(req);
        i = i + 1;
    }
    assert(inputs@.skip(i as int) =~= Seq::<StockOperationInput>::empty());
    Ok(reqs)
}

/// The message for a batch line that exceeds the `available` stock.
pub open spec fn batch_shortage_message(available: int) -> Seq<char> {
    "批量出库失败：物资库存不足，当前可用库存为 "@ + hundredths_text(available)
}

/// Checks one line of a batch issue against its `available` balance.
pub fn check_batch_line(req: &StockOutRequest, available: i64) -> (r: Result<(), String>)
    ensures
        match r {
            Ok(()) => available >= req.quantity,
            Err(e) => available < req.quantity && e@ == batch_shortage_message(available as int),
        },
{
    if available < req.quantity {
        let e = amount_message("批量出库失败：物资库存不足，当前可用库存为 ", available as i128, "");
        proof {
            reveal_strlit("");
        }
        assert(e@ =~= batch_shortage_message(available as int));
        return Err(e);
    }
    Ok(())
}

/// Plans a batch issue whose lines have all passed their checks: one
/// issue per line, in order.
pub fn plan_stock_out_batch(inputs: &Vec<StockOperationInput>, reqs: &Vec<StockOutRequest>) -> (r:
    Vec<StockOutPlan>)
    requires
        reqs@.len() == inputs@.len(),
        forall|i: int| 0 <= i < inputs@.len() ==> requests(#[trigger] reqs@[i], inputs@[i]),
    ensures
        r@.len() == inputs@.len(),
        forall|i: int|
            0 <= i < inputs@.len() ==> is_stock_out_plan(#[trigger] r@[i], inputs@[i], reqs@[i]),
{
    let mut plans: Vec<StockOutPlan> = Vec::new();
    let mut i: usize = 0;
    while i < inputs.len()
        invariant
            i <= inputs@.len(),
            reqs@.len() == inputs@.len(),
            plans@.len() == i,
            forall|k: int| 0 <= k < i ==> is_stock_out_plan(#[trigger] plans@[k], inputs@[k], reqs@[k]),
        decreases inputs@.len() - i,
    {
        plans.push(stock_out_plan_for(&inputs[i], &reqs[i]));
        i = i + 1;
    }
    plans
}

} // verus!
