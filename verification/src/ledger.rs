//! The stock ledger: ledger rows, balance changes, and the model of the
//! balance table that the changes act on.
//!
//! Balances are kept per (material, location) in hundredths of a unit. A
//! plan of the inventory operations is a sequence of [`BalanceChange`]s
//! that the database applies in order inside one transaction; the first
//! change that cannot be applied aborts the whole transaction.
use vstd::prelude::*;
use crate::text::{has_prefix, trim_text, trimmed};

verus! {

/// The balance table: (material id, location id) to hundredths of a unit.
pub type BalanceModel = Map<(i64, i64), int>;

/// The balance of a material at a location; a missing row counts as zero.
pub open spec fn balance(b: BalanceModel, material_id: i64, location_id: i64) -> int {
    if b.contains_key((material_id, location_id)) {
        b[(material_id, location_id)]
    } else {
        0
    }
}

/// One write to the balance table.
#[derive(Clone, Copy, Debug, PartialEq, Eq, Structural)]
pub enum BalanceChange {
    /// Adds `amount` to the balance, creating the row if it is missing.
    Deposit { material_id: i64, location_id: i64, amount: i64 },
    /// Subtracts `amount` from an existing row whose balance is at least
    /// `amount`; fails otherwise (the guarded update affects no row).
    Withdraw { material_id: i64, location_id: i64, amount: i64 },
    /// Sets the balance to `quantity`, creating the row if it is missing.
    Assign { material_id: i64, location_id: i64, quantity: i128 },
}

/// The table after one change, or `None` where the change fails.
pub open spec fn apply_change(b: BalanceModel, c: BalanceChange) -> Option<BalanceModel> {
    match c {
        BalanceChange::Deposit { material_id, location_id, amount } => Some(
            b.insert((material_id, location_id), balance(b, material_id, location_id) + amount),
        ),
        BalanceChange::Withdraw { material_id, location_id, amount } => {
            if b.contains_key((material_id, location_id)) && b[(material_id, location_id)]
                >= amount {
                Some(b.insert((material_id, location_id), b[(material_id, location_id)] - amount))
            } else {
                None
            }
        },
        BalanceChange::Assign { material_id, location_id, quantity } => Some(
            b.insert((material_id, location_id), quantity as int),
        ),
    }
}

/// The table after a sequence of changes applied in order, or `None` where
/// one of them fails.
pub open spec fn apply_changes(b: BalanceModel, cs: Seq<BalanceChange>) -> Option<BalanceModel>
    decreases cs.len(),
{
    if cs.len() == 0 {
        Some(b)
    } else {
        match apply_change(b, cs[0]) {
            Some(b1) => apply_changes(b1, cs.drop_first()),
            None => None,
        }
    }
}

/// No balance row is negative.
pub open spec fn non_negative(b: BalanceModel) -> bool {
    forall|k: (i64, i64)| b.contains_key(k) ==> #[trigger] b[k] >= 0
}

/// A change that cannot by itself make a balance negative.
pub open spec fn keeps_non_negative(c: BalanceChange) -> bool {
    match c {
        BalanceChange::Deposit { amount, .. } => amount >= 0,
        BalanceChange::Withdraw { .. } => true,
        BalanceChange::Assign { quantity, .. } => quantity >= 0,
    }
}

/// Every change of `cs` keeps balances non-negative.
pub open spec fn all_keep_non_negative(cs: Seq<BalanceChange>) -> bool {
    forall|i: int| 0 <= i < cs.len() ==> keeps_non_negative(#[trigger] cs[i])
}

/// Balances never go negative: a sequence of changes that each keep
/// balances non-negative, applied to a table without negative rows, leaves
/// no negative row wherever it succeeds.
pub proof fn law_changes_keep_balances_non_negative(b: BalanceModel, cs: Seq<BalanceChange>)
    requires
        non_negative(b),
        all_keep_non_negative(cs),
    ensures
        apply_changes(b, cs) matches Some(b2) ==> non_negative(b2),
    decreases cs.len(),
{
    if cs.len() > 0 {
        assert(keeps_non_negative(cs[0]));
        match apply_change(b, cs[0]) {
            Some(b1) => {
                assert(non_negative(b1));
                assert forall|i: int| 0 <= i < cs.drop_first().len() implies keeps_non_negative(
                    #[trigger] cs.drop_first()[i],
                ) by {
                    assert(cs.drop_first()[i] == cs[i + 1]);
                }
                law_changes_keep_balances_non_negative(b1, cs.drop_first());
            },
            None => {},
        }
    }
}

/// Applying `s + t` is applying `s`, then `t`.
pub proof fn lemma_apply_concat(b: BalanceModel, s: Seq<BalanceChange>, t: Seq<BalanceChange>)
    ensures
        apply_changes(b, s + t) == match apply_changes(b, s) {
            Some(b1) => apply_changes(b1, t),
            None => None,
        },
    decreases s.len(),
{
    if s.len() == 0 {
        assert(s + t =~= t);
    } else {
        assert((s + t)[0] == s[0]);
        assert((s + t).drop_first() =~= s.drop_first() + t);
        match apply_change(b, s[0]) {
            Some(b1) => lemma_apply_concat(b1, s.drop_first(), t),
            None => {},
        }
    }
}

/// The direction of a ledger row.
#[derive(Clone, Copy, Debug, PartialEq, Eq, Structural)]
pub enum EntryKind {
    /// Stock received ("IN").
    In,
    /// Stock issued ("OUT").
    Out,
}

impl EntryKind {
    /// The value stored in the ledger's `type` column.
    pub fn code(&self) -> (r: &'static str)
        ensures
            r@ == kind_code(*self),
    {
        match self {
            EntryKind::In => "IN",
            EntryKind::Out => "OUT",
        }
    }
}

/// The ledger's `type` value of a kind.
pub open spec fn kind_code(k: EntryKind) -> Seq<char> {
    match k {
        EntryKind::In => "IN"@,
        EntryKind::Out => "OUT"@,
    }
}

/// The effect that a row of `kind` and `quantity` has on its balance.
pub open spec fn entry_effect(kind: EntryKind, quantity: int) -> int {
    match kind {
        EntryKind::In => quantity,
        EntryKind::Out => -quantity,
    }
}

/// The editable columns of a ledger row.
#[derive(Debug)]
pub struct EntryFields {
    pub material_id: i64,
    pub location_id: i64,
    /// Hundredths of a unit.
    pub quantity: i64,
    pub occurred_at: String,
    pub related_unit: Option<String>,
    pub destination: Option<String>,
    pub handler: Option<String>,
    pub receiver: Option<String>,
    pub remark: Option<String>,
    pub adjustment_basis: Option<String>,
}

/// A ledger row to insert.
#[derive(Debug)]
pub struct NewLedgerEntry {
    pub transaction_no: String,
    pub kind: EntryKind,
    pub fields: EntryFields,
}

/// A ledger row as read back for deletion or correction.
#[derive(Debug)]
pub struct LedgerRecord {
    pub transaction_no: String,
    /// The `type` column: "IN", "OUT" or "ADJUST".
    pub kind: String,
    pub material_id: i64,
    pub location_id: i64,
    /// Hundredths of a unit.
    pub quantity: i64,
}

/// An optional text after trimming, with blank text dropped.
pub open spec fn cleaned(value: Option<Seq<char>>) -> Option<Seq<char>> {
    match value {
        Some(s) => if trimmed(s).len() > 0 {
            Some(trimmed(s))
        } else {
            None
        },
        None => None,
    }
}

/// Trims an optional text and drops it when nothing is left.
pub fn clean(value: &Option<String>) -> (r: Option<String>)
    ensures
        r.deep_view() == cleaned(value.deep_view()),
{
    match value {
        Some(v) => {
            let t = trim_text(v.as_str());
            if t.as_str().is_empty() {
                None
            } else {
                Some(t)
            }
        },
        None => None,
    }
}

/// Cleaning twice is cleaning once.
pub proof fn law_clean_is_idempotent(value: Option<Seq<char>>)
    ensures
        cleaned(cleaned(value)) == cleaned(value),
{
    if let Some(s) = value {
        if trimmed(s).len() > 0 {
            lemma_trim_result_ends(s);
            lemma_trim_of_unpadded(trimmed(s));
        }
    }
}

/// A nonempty trim starts and ends with a non-whitespace character.
proof fn lemma_trim_result_ends(s: Seq<char>)
    ensures
        trimmed(s).len() > 0 ==> !crate::text::char_is_whitespace(trimmed(s)[0])
            && !crate::text::char_is_whitespace(trimmed(s).last()),
{
    let a = crate::text::leading_ws(s);
    lemma_leading_bound(s);
    let t = s.skip(a as int);
    lemma_trailing_bound(t);
    let k = crate::text::trailing_ws(t);
    if t.len() - k > 0 {
        lemma_leading_stops(s);
        assert(t[0] == s[a as int]);
        lemma_trailing_stops(t);
        assert(trimmed(s)[0] == t[0]);
        assert(trimmed(s).last() == t[t.len() - k - 1]);
    }
}

proof fn lemma_leading_bound(s: Seq<char>)
    ensures
        crate::text::leading_ws(s) <= s.len(),
    decreases s.len(),
{
    if s.len() > 0 {
        lemma_leading_bound(s.drop_first());
    }
}

proof fn lemma_trailing_bound(s: Seq<char>)
    ensures
        crate::text::trailing_ws(s) <= s.len(),
    decreases s.len(),
{
    if s.len() > 0 {
        lemma_trailing_bound(s.drop_last());
    }
}

proof fn lemma_leading_stops(s: Seq<char>)
    ensures
        crate::text::leading_ws(s) < s.len() ==> !crate::text::char_is_whitespace(
            s[crate::text::leading_ws(s) as int],
        ),
    decreases s.len(),
{
    if s.len() > 0 && crate::text::char_is_whitespace(s[0]) {
        lemma_leading_stops(s.drop_first());
        let a = crate::text::leading_ws(s.drop_first());
        if a < s.drop_first().len() {
            assert(s.drop_first()[a as int] == s[a + 1int]);
        }
    }
}

proof fn lemma_trailing_stops(s: Seq<char>)
    ensures
        crate::text::trailing_ws(s) < s.len() ==> !crate::text::char_is_whitespace(
            s[s.len() - crate::text::trailing_ws(s) - 1],
        ),
    decreases s.len(),
{
    if s.len() > 0 && crate::text::char_is_whitespace(s.last()) {
        let d = s.drop_last();
        lemma_trailing_stops(d);
        let k = crate::text::trailing_ws(d);
        if k < d.len() {
            assert(d[d.len() - k - 1] == s[s.len() - (k + 1) - 1]);
        }
    }
}

/// A nonempty text with non-whitespace ends is its own trim.
proof fn lemma_trim_of_unpadded(t: Seq<char>)
    requires
        t.len() > 0,
        !crate::text::char_is_whitespace(t[0]),
        !crate::text::char_is_whitespace(t.last()),
    ensures
        trimmed(t) == t,
{
    assert(crate::text::leading_ws(t) == 0);
    assert(t.skip(0) =~= t);
    assert(crate::text::trailing_ws(t) == 0);
    assert(t.take(t.len() as int) =~= t);
}

/// The lowercase hexadecimal digit of `d`, for `d` from 0 to 15.
pub open spec fn hex_digit(d: int) -> char {
    if d < 10 {
        (48 + d) as char
    } else {
        (87 + d) as char
    }
}

/// The last `n` hexadecimal digits of `v` in lowercase, most significant
/// first.
pub open spec fn hex_text(v: nat, n: nat) -> Seq<char>
    decreases n,
{
    if n == 0 {
        Seq::empty()
    } else {
        hex_text(v / 16, (n - 1) as nat).push(hex_digit((v % 16) as int))
    }
}

proof fn lemma_hex_text_len(v: nat, n: nat)
    ensures
        hex_text(v, n).len() == n,
    decreases n,
{
    if n > 0 {
        lemma_hex_text_len(v / 16, (n - 1) as nat);
    }
}

/// `v`, read as the 128 bits of a UUID (most significant first), is a
/// version 4 UUID of the RFC 4122 variant: its version nibble is 4 and its
/// two variant bits are `10`.
pub open spec fn is_v4_uuid(v: u128) -> bool {
    (v >> 76u32) & 0xfu128 == 4 && (v >> 62u32) & 0x3u128 == 2
}

/// `s` is a version 4 UUID in the simple format: the 32 lowercase
/// hexadecimal digits of its 128 bits.
pub open spec fn is_simple_uuid(s: Seq<char>) -> bool {
    exists|v: u128| #[trigger] is_v4_uuid(v) && s == hex_text(v as nat, 32)
}

/// `Uuid::new_v4`, read with `Uuid::as_u128`: the 128 bits of a random
/// UUID. Which bits is left open; the version and variant bits are those
/// of a version 4 UUID, as the source sets them.
#[verifier::external_body]
fn random_uuid() -> (r: u128)
    ensures
        is_v4_uuid(r),
{
    uuid::Uuid::new_v4().as_u128()
}

/// `Uuid::simple` written with `Display`, of the UUID built by
/// `Uuid::from_u128`: the 32 lowercase hexadecimal digits of `bits`.
#[verifier::external_body]
fn uuid_simple_text(bits: u128) -> (r: String)
    ensures
        r@ == hex_text(bits as nat, 32),
{
    uuid::Uuid::from_u128(bits).simple().to_string()
}

/// `number` is a transaction number of `kind`: the kind, a hyphen and a
/// version 4 UUID in the simple format.
pub open spec fn is_transaction_number(number: Seq<char>, kind: Seq<char>) -> bool {
    &&& number.len() == kind.len() + 33
    &&& number.subrange(0, kind.len() as int) == kind
    &&& number[kind.len() as int] == '-'
    &&& is_simple_uuid(number.subrange(kind.len() + 1int, number.len() as int))
}

/// The transaction number of `kind` for the UUID whose 128 bits are
/// `bits`: the kind, a hyphen and the UUID in the simple format.
pub fn transaction_number(kind: &str, bits: u128) -> (r: String)
    ensures
        r@ == kind@ + "-"@ + hex_text(bits as nat, 32),
{
    let id = uuid_simple_text(bits);
    let mut r = kind.to_owned();
    r.append("-");
    r.append(id.as_str());
    r
}

/// A fresh transaction number: `kind`, a hyphen and a random version 4
/// UUID, drawn anew on every call.
pub fn transaction_no(kind: &str) -> (r: String)
    ensures
        is_transaction_number(r@, kind@),
        has_prefix(r@, kind@),
{
    let bits = random_uuid();
    let r = transaction_number(kind, bits);
    proof {
        reveal_strlit("-");
        lemma_hex_text_len(bits as nat, 32);
        let id = hex_text(bits as nat, 32);
        assert(r@.subrange(0, kind@.len() as int) =~= kind@);
        assert(r@.subrange(kind@.len() + 1int, r@.len() as int) =~= id);
        assert(is_v4_uuid(bits) && id == hex_text(bits as nat, 32));
    }
    r
}

} // verus!
