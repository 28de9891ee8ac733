use kylin_stock::correction::{
    check_correction, check_ledger_id, plan_entry_deletion, plan_entry_update, settle_update,
    BalanceDelta, StockTransactionUpdateInput,
};
use kylin_stock::inventory::{
    check_batch_line, plan_stock_in, plan_stock_in_batch, plan_stock_out, plan_stock_out_batch,
    prepare_stock_out, prepare_stock_out_batch, validate, StockOperationInput,
};
use kylin_stock::ledger::{
    clean, transaction_no, transaction_number, BalanceChange, EntryKind, LedgerRecord,
};
use kylin_stock::quantity::{hundredths_string, QuantityInput};
use kylin_stock::transfer::{
    check_inventory_position, plan_transfer, validate_transfer, StockTransferInput,
};
use std::collections::HashMap;

/// The balance table as the database holds it, in hundredths.
type Balances = HashMap<(i64, i64), i128>;

fn apply(balances: &mut Balances, changes: &[BalanceChange]) -> bool {
    let mut next = balances.clone();
    for change in changes {
        match *change {
            BalanceChange::Deposit { material_id, location_id, amount } => {
                *next.entry((material_id, location_id)).or_insert(0) += amount as i128;
            }
            BalanceChange::Withdraw { material_id, location_id, amount } => {
                match next.get_mut(&(material_id, location_id)) {
                    Some(b) if *b >= amount as i128 => *b -= amount as i128,
                    _ => return false,
                }
            }
            BalanceChange::Assign { material_id, location_id, quantity } => {
                next.insert((material_id, location_id), quantity);
            }
        }
    }
    *balances = next;
    true
}

fn balance(balances: &Balances, material_id: i64, location_id: i64) -> i128 {
    *balances.get(&(material_id, location_id)).unwrap_or(&0)
}

fn input(hundredths: i64) -> StockOperationInput {
    StockOperationInput {
        material_id: 1,
        location_id: 1,
        quantity: QuantityInput::Hundredths(hundredths),
        occurred_at: "2026-08-16T00:00:00.000Z".into(),
        related_unit: Some("测试单位".into()),
        destination: None,
        handler: Some("测试经办人".into()),
        receiver: None,
        remark: Some("自动化测试".into()),
        adjustment_basis: None,
    }
}

fn update_input(id: i64, hundredths: i64) -> StockTransactionUpdateInput {
    StockTransactionUpdateInput {
        id,
        material_id: 1,
        location_id: 1,
        quantity: QuantityInput::Hundredths(hundredths),
        occurred_at: "2026-08-17T00:00:00.000Z".into(),
        related_unit: Some("修正来源单位".into()),
        destination: None,
        handler: Some("修正经办人".into()),
        receiver: None,
        remark: Some("修正错账".into()),
        adjustment_basis: Some("更正单".into()),
    }
}

fn record(number: &str, kind: &str, location_id: i64, quantity: i64) -> LedgerRecord {
    LedgerRecord {
        transaction_no: number.into(),
        kind: kind.into(),
        material_id: 1,
        location_id,
        quantity,
    }
}

#[test]
fn validation_rules_in_order() {
    let mut bad = input(100);
    bad.material_id = 0;
    assert_eq!(validate(&bad), Err("请选择物资".to_string()));
    let mut bad = input(100);
    bad.location_id = -1;
    assert_eq!(validate(&bad), Err("请选择存放位置".to_string()));
    let mut bad = input(100);
    bad.quantity = QuantityInput::NotPositive;
    assert_eq!(validate(&bad), Err("数量必须大于 0".to_string()));
    assert_eq!(validate(&input(0)), Err("数量必须大于 0".to_string()));
    let mut bad = input(100);
    bad.quantity = QuantityInput::TooPrecise;
    let error = validate(&bad).unwrap_err();
    assert!(error.contains("两位小数"));
    let mut bad = input(100);
    bad.occurred_at = "   ".into();
    assert_eq!(validate(&bad), Err("请选择业务日期".to_string()));
    assert_eq!(validate(&input(123)), Ok(123));
}

#[test]
fn receipt_plan_records_row_and_deposit() {
    let plan = plan_stock_in(&input(1000)).expect("stock in succeeds");
    assert!(plan.entry.transaction_no.starts_with("IN-"));
    assert_eq!(plan.entry.transaction_no.len(), 35);
    assert_eq!(plan.entry.kind, EntryKind::In);
    assert_eq!(plan.entry.kind.code(), "IN");
    assert_eq!(plan.entry.fields.destination, None);
    assert_eq!(plan.entry.fields.related_unit.as_deref(), Some("测试单位"));
    assert_eq!(
        plan.change,
        BalanceChange::Deposit { material_id: 1, location_id: 1, amount: 1000 }
    );
    let mut balances = Balances::new();
    assert!(apply(&mut balances, &[plan.change]));
    assert_eq!(balance(&balances, 1, 1), 1000);
}

#[test]
fn issue_decrements_balance_and_records_destination() {
    let mut balances = Balances::new();
    assert!(apply(&mut balances, &[plan_stock_in(&input(1000)).unwrap().change]));
    let mut outbound = input(300);
    outbound.destination = Some(" 一车间 ".into());
    outbound.receiver = Some("张三".into());
    let request = prepare_stock_out(&outbound).expect("valid issue");
    assert_eq!(request.destination, "一车间");
    let plan = plan_stock_out(&outbound, &request, balance(&balances, 1, 1) as i64)
        .expect("stock out succeeds");
    assert!(plan.entry.transaction_no.starts_with("OUT-"));
    assert_eq!(plan.entry.kind.code(), "OUT");
    assert_eq!(plan.entry.fields.destination.as_deref(), Some("一车间"));
    assert!(apply(&mut balances, &[plan.change]));
    assert_eq!(balance(&balances, 1, 1), 700);
}

#[test]
fn insufficient_stock_is_refused_with_the_available_amount() {
    let mut outbound = input(600);
    outbound.destination = Some("XX项目".into());
    let request = prepare_stock_out(&outbound).expect("valid issue");
    let error = plan_stock_out(&outbound, &request, 500).err().expect("shortage");
    assert_eq!(error, "库存不足，当前可用库存为 5");
    assert!(error.contains("库存不足"));
    let error = plan_stock_out(&outbound, &request, 250).err().expect("shortage");
    assert_eq!(error, "库存不足，当前可用库存为 2.5");
}

#[test]
fn issue_without_destination_is_refused_before_reading_stock() {
    let error = prepare_stock_out(&input(100)).err().expect("missing destination");
    assert_eq!(error, "出库去向不能为空");
    let mut blank = input(100);
    blank.destination = Some("  ".into());
    assert_eq!(prepare_stock_out(&blank).err().unwrap(), "出库去向不能为空");
}

#[test]
fn batch_receipt_plans_every_line() {
    let mut second = input(250);
    second.material_id = 2;
    let plans = plan_stock_in_batch(&vec![input(1000), second]).expect("batch");
    assert_eq!(plans.len(), 2);
    assert_eq!(
        plans[1].change,
        BalanceChange::Deposit { material_id: 2, location_id: 1, amount: 250 }
    );
    assert_eq!(
        plan_stock_in_batch(&vec![]).err().unwrap(),
        "请至少添加一项物资"
    );
    let mut bad = input(100);
    bad.location_id = 0;
    assert_eq!(
        plan_stock_in_batch(&vec![input(100), bad]).err().unwrap(),
        "请选择存放位置"
    );
}

#[test]
fn batch_issue_checks_every_line() {
    let mut line = input(300);
    line.destination = Some("二车间".into());
    let requests = prepare_stock_out_batch(&vec![line]).expect("valid batch");
    assert_eq!(requests.len(), 1);
    assert_eq!(check_batch_line(&requests[0], 300), Ok(()));
    assert_eq!(
        check_batch_line(&requests[0], 299).err().unwrap(),
        "批量出库失败：物资库存不足，当前可用库存为 2.99"
    );
    let mut line = input(300);
    line.destination = Some("二车间".into());
    let inputs = vec![line];
    let plans = plan_stock_out_batch(&inputs, &requests);
    assert_eq!(
        plans[0].change,
        BalanceChange::Withdraw { material_id: 1, location_id: 1, amount: 300 }
    );
    assert_eq!(
        prepare_stock_out_batch(&vec![input(100)]).err().unwrap(),
        "领用单位不能为空"
    );
}

#[test]
fn deleting_a_receipt_reverses_it() {
    let mut balances = Balances::new();
    let plan = plan_stock_in(&input(1000)).unwrap();
    assert!(apply(&mut balances, &[plan.change]));
    let change = plan_entry_deletion(&Some(record(&plan.entry.transaction_no, "IN", 1, 1000)))
        .expect("deletion");
    assert!(apply(&mut balances, &[change]));
    assert_eq!(balance(&balances, 1, 1), 0);
}

#[test]
fn deleting_a_consumed_receipt_fails_its_guard() {
    let mut balances = Balances::new();
    balances.insert((1, 1), 200);
    let change = plan_entry_deletion(&Some(record("IN-x", "IN", 1, 1000))).unwrap();
    assert!(!apply(&mut balances, &[change]));
    assert_eq!(balance(&balances, 1, 1), 200);
}

#[test]
fn deletion_refusals() {
    assert_eq!(
        plan_entry_deletion(&None).err().unwrap(),
        "删除流水失败：找不到要删除的流水记录"
    );
    assert!(plan_entry_deletion(&Some(record("TRANSFER-OUT-1", "OUT", 1, 100)))
        .err()
        .unwrap()
        .contains("不能单独删除"));
    assert_eq!(
        plan_entry_deletion(&Some(record("ADJ-1", "ADJUST", 1, 100))).err().unwrap(),
        "删除流水失败：调整类流水暂不支持直接删除"
    );
    assert_eq!(
        plan_entry_deletion(&Some(record("OUT-1", "OUT", 1, 100))),
        Ok(BalanceChange::Deposit { material_id: 1, location_id: 1, amount: 100 })
    );
    assert_eq!(check_ledger_id(0), Err("无效的流水记录".to_string()));
    assert_eq!(check_ledger_id(5), Ok(()));
}

fn correct(
    balances: &mut Balances,
    old: LedgerRecord,
    input: &StockTransactionUpdateInput,
) -> Result<(), String> {
    let q = check_correction(input)?;
    let plan = plan_entry_update(input, q, &Some(old))?;
    let currents: Vec<i64> = plan
        .deltas
        .iter()
        .map(|d| balance(balances, d.material_id, d.location_id) as i64)
        .collect();
    let changes = settle_update(&plan.deltas, &currents)?;
    assert!(apply(balances, &changes));
    Ok(())
}

#[test]
fn editing_receipt_quantity_applies_the_net_change() {
    let mut balances = Balances::new();
    balances.insert((1, 1), 1000);
    correct(&mut balances, record("IN-a", "IN", 1, 1000), &update_input(7, 1250))
        .expect("edit transaction");
    assert_eq!(balance(&balances, 1, 1), 1250);
    let q = check_correction(&update_input(7, 1250)).unwrap();
    let plan = plan_entry_update(&update_input(7, 1250), q, &Some(record("IN-a", "IN", 1, 1000)))
        .unwrap();
    assert_eq!(plan.fields.remark.as_deref(), Some("修正错账"));
    assert_eq!(plan.fields.destination, None);
    assert_eq!(
        plan.deltas,
        vec![BalanceDelta { material_id: 1, location_id: 1, delta: 250 }]
    );
}

#[test]
fn moving_a_receipt_to_another_location_moves_its_stock() {
    let mut balances = Balances::new();
    balances.insert((1, 1), 1000);
    let mut correction = update_input(7, 1000);
    correction.location_id = 4;
    correct(&mut balances, record("IN-a", "IN", 1, 1000), &correction).expect("move");
    assert_eq!(balance(&balances, 1, 1), 0);
    assert_eq!(balance(&balances, 1, 4), 1000);
    let mut outbound = input(300);
    outbound.location_id = 4;
    outbound.destination = Some("四号库领用测试".into());
    let request = prepare_stock_out(&outbound).unwrap();
    let plan = plan_stock_out(&outbound, &request, balance(&balances, 1, 4) as i64).unwrap();
    assert!(apply(&mut balances, &[plan.change]));
    assert_eq!(balance(&balances, 1, 4), 700);
}

#[test]
fn editing_receipt_below_consumed_quantity_is_refused() {
    let mut balances = Balances::new();
    balances.insert((1, 1), 200);
    let error = correct(&mut balances, record("IN-a", "IN", 1, 1000), &update_input(7, 500))
        .expect_err("negative balance edit must fail");
    assert!(error.contains("库存为负数"));
    assert_eq!(
        error,
        "编辑流水失败：修改后会导致库存为负数（当前 2，变化 -5），请先检查后续业务记录"
    );
    assert_eq!(balance(&balances, 1, 1), 200);
}

#[test]
fn editing_an_issue_needs_a_receiving_unit() {
    let q = check_correction(&update_input(7, 100)).unwrap();
    let error = plan_entry_update(&update_input(7, 100), q, &Some(record("OUT-a", "OUT", 1, 100)))
        .err()
        .unwrap();
    assert_eq!(error, "编辑流水失败：领用单位不能为空");
    let mut with_unit = update_input(7, 300);
    with_unit.destination = Some("三车间".into());
    let mut balances = Balances::new();
    balances.insert((1, 1), 500);
    correct(&mut balances, record("OUT-a", "OUT", 1, 100), &with_unit).expect("edit issue");
    assert_eq!(balance(&balances, 1, 1), 300);
    assert_eq!(
        check_correction(&update_input(0, 100)),
        Err("无效的流水记录".to_string())
    );
    assert!(plan_entry_update(&update_input(7, 100), q, &None).is_err());
    assert!(plan_entry_update(
        &update_input(7, 100),
        q,
        &Some(record("TRANSFER-IN-a", "IN", 1, 100))
    )
    .err()
    .unwrap()
    .contains("不能单独编辑"));
    assert_eq!(
        plan_entry_update(&update_input(7, 100), q, &Some(record("A-1", "ADJUST", 1, 100)))
            .err()
            .unwrap(),
        "编辑流水失败：调整类流水暂不支持编辑"
    );
}

fn transfer_input(hundredths: i64) -> StockTransferInput {
    StockTransferInput {
        material_id: 1,
        from_location_id: 1,
        to_location_id: 2,
        quantity: QuantityInput::Hundredths(hundredths),
        occurred_at: " 2026-09-01 ".into(),
        handler: None,
        remark: None,
        adjustment_basis: None,
    }
}

#[test]
fn transfer_moves_stock_and_records_both_sides() {
    let input = transfer_input(400);
    let q = validate_transfer(&input).expect("valid transfer");
    let plan = plan_transfer(&input, q, &Some("1号库".into()), &Some("2号库".into()))
        .expect("plan");
    assert!(plan.out_entry.transaction_no.starts_with("TRANSFER-OUT-"));
    assert!(plan.in_entry.transaction_no.starts_with("TRANSFER-IN-"));
    assert_eq!(
        plan.out_entry.fields.remark.as_deref(),
        Some("库内调拨：1号库 → 2号库")
    );
    assert_eq!(plan.out_entry.fields.adjustment_basis.as_deref(), Some("库内调拨"));
    assert_eq!(plan.out_entry.fields.destination.as_deref(), Some("2号库"));
    assert_eq!(plan.in_entry.fields.destination, None);
    assert_eq!(plan.in_entry.fields.occurred_at, "2026-09-01");
    let mut balances = Balances::new();
    balances.insert((1, 1), 1000);
    assert!(apply(&mut balances, &plan.changes));
    assert_eq!(balance(&balances, 1, 1), 600);
    assert_eq!(balance(&balances, 1, 2), 400);
    let mut short = Balances::new();
    short.insert((1, 1), 100);
    assert!(!apply(&mut short, &plan.changes));
    assert!(plan_entry_deletion(&Some(record(&plan.in_entry.transaction_no, "IN", 2, 400))).is_err());
}

#[test]
fn transfer_refusals() {
    let mut same = transfer_input(100);
    same.to_location_id = 1;
    assert_eq!(
        validate_transfer(&same).err().unwrap(),
        "转入库位不能与原库位相同"
    );
    let mut none = transfer_input(100);
    none.material_id = 0;
    assert_eq!(validate_transfer(&none).err().unwrap(), "请选择物资和库位");
    let mut zero = transfer_input(100);
    zero.quantity = QuantityInput::NotPositive;
    assert_eq!(validate_transfer(&zero).err().unwrap(), "转移数量必须大于 0");
    let input = transfer_input(100);
    assert_eq!(
        plan_transfer(&input, 100, &None, &Some("2号库".into())).err().unwrap(),
        "转库失败：原存放位置不存在或已停用"
    );
    assert_eq!(
        plan_transfer(&input, 100, &Some("1号库".into()), &None).err().unwrap(),
        "转库失败：转入存放位置不存在或已停用"
    );
    assert_eq!(
        check_inventory_position(0, 1),
        Err("无效的物资或存放位置".to_string())
    );
    assert_eq!(check_inventory_position(1, 1), Ok(()));
}

#[test]
fn cleaning_optional_text() {
    assert_eq!(clean(&Some("  一车间\t".into())), Some("一车间".to_string()));
    assert_eq!(clean(&Some("\u{3000} ".into())), None);
    assert_eq!(clean(&None), None);
    let once = clean(&Some(" a b ".into()));
    assert_eq!(clean(&once), once);
}

#[test]
fn transaction_numbers_are_kind_and_uuid() {
    let number = transaction_no("IN");
    assert_eq!(number.len(), 35);
    assert!(number.starts_with("IN-"));
    assert!(number[3..].chars().all(|c| c.is_ascii_hexdigit() && !c.is_ascii_uppercase()));
    assert_eq!(&number[15..16], "4");
    assert!(["8", "9", "a", "b"].contains(&&number[19..20]));
    assert_ne!(transaction_no("IN"), transaction_no("IN"));
}

#[test]
fn hundredths_print_as_decimals() {
    assert_eq!(hundredths_string(0), "0");
    assert_eq!(hundredths_string(500), "5");
    assert_eq!(hundredths_string(250), "2.5");
    assert_eq!(hundredths_string(5), "0.05");
    assert_eq!(hundredths_string(-300), "-3");
    assert_eq!(hundredths_string(123456), "1234.56");
    assert_eq!(
        hundredths_string(i128::MIN),
        "-1701411834604692317316873037158841057.28"
    );
}

#[test]
fn batch_receipt_adds_the_total_of_each_balance() {
    let mut second = input(250);
    second.location_id = 2;
    let plans = plan_stock_in_batch(&vec![input(1000), second, input(5)]).expect("batch");
    let changes: Vec<BalanceChange> = plans.iter().map(|p| p.change).collect();
    let mut balances = Balances::new();
    balances.insert((1, 1), 10);
    assert!(apply(&mut balances, &changes));
    assert_eq!(balance(&balances, 1, 1), 1015);
    assert_eq!(balance(&balances, 1, 2), 250);
}

#[test]
fn planned_changes_never_leave_a_negative_balance() {
    let mut balances = Balances::new();
    balances.insert((1, 1), 100);
    let mut outbound = input(300);
    outbound.destination = Some("一车间".into());
    let request = prepare_stock_out(&outbound).unwrap();
    let lines = vec![outbound];
    let plans = plan_stock_out_batch(&lines, &vec![request]);
    assert!(!apply(&mut balances, &[plans[0].change]));
    assert_eq!(balance(&balances, 1, 1), 100);
    let settled = settle_update(
        &vec![BalanceDelta { material_id: 1, location_id: 1, delta: -100 }],
        &vec![100],
    )
    .expect("settles to zero");
    assert_eq!(
        settled,
        vec![BalanceChange::Assign { material_id: 1, location_id: 1, quantity: 0 }]
    );
    assert!(settle_update(
        &vec![BalanceDelta { material_id: 1, location_id: 1, delta: -101 }],
        &vec![100],
    )
    .is_err());
}

/// The ledger as the balances see it: kind, material, location, hundredths.
type Rows = Vec<(EntryKind, i64, i64, i64)>;

fn ledger_total(rows: &Rows, material_id: i64, location_id: i64) -> i128 {
    rows.iter()
        .filter(|r| r.1 == material_id && r.2 == location_id)
        .map(|r| match r.0 {
            EntryKind::In => r.3 as i128,
            EntryKind::Out => -(r.3 as i128),
        })
        .sum()
}

fn agrees(balances: &Balances, rows: &Rows) -> bool {
    [(1, 1), (1, 2), (1, 4)]
        .iter()
        .all(|&(m, l)| balance(balances, m, l) == ledger_total(rows, m, l))
}

#[test]
fn ledger_and_balances_stay_consistent() {
    let mut balances = Balances::new();
    let mut rows: Rows = Vec::new();
    let receipt = plan_stock_in(&input(1000)).unwrap();
    assert!(apply(&mut balances, &[receipt.change]));
    rows.push((receipt.entry.kind, 1, 1, 1000));
    assert!(agrees(&balances, &rows));

    let mut outbound = input(300);
    outbound.destination = Some("一车间".into());
    let request = prepare_stock_out(&outbound).unwrap();
    let issue = plan_stock_out(&outbound, &request, balance(&balances, 1, 1) as i64).unwrap();
    assert!(apply(&mut balances, &[issue.change]));
    rows.push((issue.entry.kind, 1, 1, 300));
    assert!(agrees(&balances, &rows));
    assert_eq!(balance(&balances, 1, 1), 700);

    let transfer = transfer_input(200);
    let q = validate_transfer(&transfer).unwrap();
    let plan = plan_transfer(&transfer, q, &Some("1号库".into()), &Some("2号库".into())).unwrap();
    assert!(apply(&mut balances, &plan.changes));
    rows.push((plan.out_entry.kind, 1, 1, 200));
    rows.push((plan.in_entry.kind, 1, 2, 200));
    assert!(agrees(&balances, &rows));

    let mut moved = update_input(1, 1000);
    moved.location_id = 4;
    correct(&mut balances, record("IN-a", "IN", 1, 1000), &moved).unwrap_err();
    assert!(agrees(&balances, &rows));
    correct(&mut balances, record("IN-a", "IN", 1, 1000), &update_input(1, 1200)).unwrap();
    rows[0] = (EntryKind::In, 1, 1, 1200);
    assert!(agrees(&balances, &rows));

    let change = plan_entry_deletion(&Some(record("OUT-b", "OUT", 1, 300))).unwrap();
    assert!(apply(&mut balances, &[change]));
    rows.remove(1);
    assert!(agrees(&balances, &rows));
    assert_eq!(balance(&balances, 1, 1), 1000);
    assert_eq!(balance(&balances, 1, 2), 200);
}

#[test]
fn transaction_numbers_print_the_uuid_bits() {
    assert_eq!(
        transaction_number("OUT", 0x0123_4567_89ab_4def_8123_4567_89ab_cdef),
        "OUT-0123456789ab4def8123456789abcdef"
    );
    assert_eq!(
        transaction_number("TRANSFER-IN", 0),
        format!("TRANSFER-IN-{}", "0".repeat(32))
    );
}

#[test]
fn unicode_white_space_counts_as_blank() {
    assert_eq!(clean(&Some("\u{3000}\u{a0}\t\n".to_string())), None);
    assert_eq!(clean(&Some("\u{2003}一车间\u{85}".to_string())), Some("一车间".to_string()));
    // A zero-width space has no White_Space property: it is kept.
    assert_eq!(clean(&Some("\u{200b}".to_string())), Some("\u{200b}".to_string()));
    let mut blank_date = input(100);
    blank_date.occurred_at = "\u{2028}\u{3000}".into();
    assert_eq!(validate(&blank_date), Err("请选择业务日期".to_string()));
}

#[test]
fn batch_issue_needs_the_total_of_each_balance() {
    let mut first = input(300);
    first.destination = Some("一车间".into());
    let mut second = input(300);
    second.destination = Some("二车间".into());
    let lines = vec![first, second];
    let reqs = prepare_stock_out_batch(&lines).expect("valid lines");
    // Each line alone is covered by 500, both together are not.
    assert!(check_batch_line(&reqs[0], 500).is_ok());
    assert!(check_batch_line(&reqs[1], 500).is_ok());
    let plans = plan_stock_out_batch(&lines, &reqs);
    let changes: Vec<BalanceChange> = plans.iter().map(|p| p.change).collect();
    let mut short = Balances::new();
    short.insert((1, 1), 500);
    assert!(!apply(&mut short, &changes));
    assert_eq!(balance(&short, 1, 1), 500);
    let mut enough = Balances::new();
    enough.insert((1, 1), 600);
    assert!(apply(&mut enough, &changes));
    assert_eq!(balance(&enough, 1, 1), 0);
}
