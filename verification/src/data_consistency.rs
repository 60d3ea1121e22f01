//! Data consistency health check: turns the records found to be inconsistent (orphan references,
//! negative positions, legacy data, gaps in generated valuations) into health issues, one per kind
//! of problem.

use vstd::prelude::*;

use crate::calendar::CalendarDate;
use crate::decimal::{
    decimal_checked_sub_parts, decimal_display_text, decimal_round_dp_parts, parts_below_zero,
    DecimalParts, DecimalValue,
};
use crate::fingerprint::{compute_data_hash, data_hash_text};
use crate::health_model::{
    account_item_view, asset_item_view, issues_view, items_view, migrate_classifications_view,
    opt_text, to_activities_view, to_holdings_view, AffectedItem, AffectedItemView, FixAction,
    HealthCategory,
    query_view, HealthIssue, HealthIssueView, NavigateAction, NavigateActionView, QueryParam,
    Severity,
};
use crate::text::{decimal_text, sorted_texts, string_from, text_order, texts, usize_decimal};

verus! {

/// Types of data consistency issues.
#[derive(Clone, Copy, Debug, PartialEq, Eq, Hash, Structural)]
pub enum ConsistencyIssueType {
    /// Activity references a non-existent account
    OrphanActivityAccount,
    /// Activity references a non-existent asset
    OrphanActivityAsset,
    /// Holding has negative quantity for non-liability asset
    NegativePosition,
    /// Asset has legacy sector/country data not migrated to taxonomy
    LegacyClassification,
    /// Account has negative total portfolio value in its history
    NegativeAccountBalance,
    /// Cash account had a negative balance at some point (may be a bank overdraft)
    NegativeCashBalance,
    /// A sell activity has no matching lot disposal row for realized P&L attribution
    MissingLotDisposalForSell,
    /// Holdings snapshots exist for a date but the generated valuation read model has no row
    MissingGeneratedValuation,
    /// A generated valuation row has incomplete value coverage
    IncompleteValuationValue,
    /// A generated valuation row has incomplete cost-basis coverage
    IncompleteValuationBasis,
    /// A generated valuation row has an unknown performance flow boundary
    UnknownPerformanceFlowSource,
}

/// Data about a consistency issue.
#[derive(Clone, Debug)]
pub struct ConsistencyIssueInfo {
    /// Type of consistency issue
    pub issue_type: ConsistencyIssueType,
    /// ID of the affected record (activity_id, asset_id, etc.)
    pub record_id: String,
    /// Human-readable description (used as display name for affected items)
    pub description: String,
    /// Related account ID (if applicable)
    pub account_id: Option<String>,
    /// Related asset ID (if applicable)
    pub asset_id: Option<String>,
    /// First date the balance went negative (NegativeAccountBalance only)
    pub first_negative_date: Option<CalendarDate>,
    /// Cash balance on first_negative_date, in account currency (NegativeAccountBalance only)
    pub cash_balance: Option<DecimalValue>,
    /// Total portfolio value on first_negative_date, in account currency (NegativeAccountBalance only)
    pub total_value_at_date: Option<DecimalValue>,
    /// Account currency (NegativeAccountBalance only)
    pub account_currency: Option<String>,
    /// Activity date for activity-specific issues
    pub activity_date: Option<CalendarDate>,
    /// Asset display symbol for activity-specific issues
    pub asset_symbol: Option<String>,
    /// Asset display name for activity-specific issues
    pub asset_name: Option<String>,
    /// Activity quantity for activity-specific issues
    pub quantity: Option<DecimalValue>,
    /// Activity proceeds for activity-specific issues
    pub proceeds: Option<DecimalValue>,
}

/// The records of `infos` that have type `t`, in order.
pub open spec fn of_type(infos: Seq<ConsistencyIssueInfo>, t: ConsistencyIssueType) -> Seq<
    ConsistencyIssueInfo,
>
    decreases infos.len(),
{
    if infos.len() == 0 {
        Seq::empty()
    } else {
        let rest = of_type(infos.drop_last(), t);
        if infos.last().issue_type == t {
            rest.push(infos.last())
        } else {
            rest
        }
    }
}

/// The records behind a sequence of references.
pub open spec fn derefs(s: Seq<&ConsistencyIssueInfo>) -> Seq<ConsistencyIssueInfo> {
    s.map_values(|r: &ConsistencyIssueInfo| *r)
}

/// The records of `infos` that have type `t`.
fn collect_type(infos: &[ConsistencyIssueInfo], t: ConsistencyIssueType) -> (g: Vec<
    &ConsistencyIssueInfo,
>)
    ensures
        derefs(g@) == of_type(infos@, t),
{
    let mut g: Vec<&ConsistencyIssueInfo> = Vec::new();
    let mut i: usize = 0;
    while i < infos.len()
        invariant
            i <= infos@.len(),
            derefs(g@) == of_type(infos@.take(i as int), t),
        decreases infos.len() - i,
    {
        assert(infos@.take(i + 1).drop_last() =~= infos@.take(i as int));
        if infos[i].issue_type == t {
            g.push(&infos[i]);
            assert(derefs(g@) =~= of_type(infos@.take(i as int), t).push(infos@[i as int]));
        }
        i += 1;
    }
    assert(infos@.take(infos@.len() as int) =~= infos@);
    g
}

/// The title for `n` records: `one` for a single record, else the count followed by `many`.
pub open spec fn count_title(n: nat, one: Seq<char>, many: Seq<char>) -> Seq<char> {
    if n == 1 {
        one
    } else {
        decimal_text(n) + many
    }
}

fn count_title_text(n: usize, one: &str, many: &str) -> (s: String)
    ensures
        s@ == count_title(n as nat, one@, many@),
{
    if n == 1 {
        string_from(one)
    } else {
        let mut s = usize_decimal(n);
        s.append(many);
        s
    }
}

/// The record ids of `g`, in order.
pub open spec fn record_ids(g: Seq<ConsistencyIssueInfo>) -> Seq<Seq<char>> {
    g.map_values(|i: ConsistencyIssueInfo| i.record_id@)
}

fn record_ids_of(g: &Vec<&ConsistencyIssueInfo>) -> (ids: Vec<String>)
    ensures
        texts(ids@) == record_ids(derefs(g@)),
{
    let mut ids: Vec<String> = Vec::new();
    let mut i: usize = 0;
    while i < g.len()
        invariant
            i <= g@.len(),
            texts(ids@) == record_ids(derefs(g@)).take(i as int),
        decreases g.len() - i,
    {
        let id = g[i].record_id.clone();
        assert(id@ == derefs(g@)[i as int].record_id@);
        let ghost before = ids@;
        ids.push(id);
        assert(texts(ids@) =~= texts(before).push(id@));
        assert(record_ids(derefs(g@)).take(i + 1) =~= record_ids(derefs(g@)).take(i as int).push(
            record_ids(derefs(g@))[i as int],
        ));
        i += 1;
    }
    assert(record_ids(derefs(g@)).take(g@.len() as int) =~= record_ids(derefs(g@)));
    ids
}

/// `prefix:hash`, the id of an issue.
pub open spec fn issue_id(prefix: Seq<char>, hash: Seq<char>) -> Seq<char> {
    prefix + ":"@ + hash
}

fn issue_id_text(prefix: &str, hash: &String) -> (s: String)
    ensures
        s@ == issue_id(prefix@, hash@),
{
    let mut s = string_from(prefix);
    s.append(":");
    s.append(hash.as_str());
    proof {
        reveal_strlit(":");
    }
    s
}

/// The issue for records counted by their ids (orphan references, negative positions).
pub open spec fn record_issue_view(
    g: Seq<ConsistencyIssueInfo>,
    prefix: Seq<char>,
    severity: Severity,
    one: Seq<char>,
    many: Seq<char>,
    message: Seq<char>,
    navigate: NavigateActionView,
) -> HealthIssueView {
    let hash = data_hash_text(record_ids(g));
    HealthIssueView {
        id: issue_id(prefix, hash),
        severity,
        category: HealthCategory::DataConsistency,
        title: count_title(g.len(), one, many),
        message,
        details: None,
        affected_count: g.len() as u32,
        affected_items: None,
        navigate_action: Some(navigate),
        fix_action: None,
        data_hash: Some(hash),
    }
}

fn build_record_issue(
    g: &Vec<&ConsistencyIssueInfo>,
    prefix: &str,
    severity: Severity,
    one: &str,
    many: &str,
    message: &str,
    navigate: NavigateAction,
) -> (issue: HealthIssue)
    ensures
        issue@ == record_issue_view(derefs(g@), prefix@, severity, one@, many@, message@, navigate@),
{
    let count = g.len();
    let ids = record_ids_of(g);
    let data_hash = compute_data_hash(ids.as_slice());
    HealthIssue {
        id: issue_id_text(prefix, &data_hash),
        severity,
        category: HealthCategory::DataConsistency,
        title: count_title_text(count, one, many),
        message: string_from(message),
        details: None,
        affected_count: count as u32,
        affected_items: None,
        navigate_action: Some(navigate),
        fix_action: None,
        data_hash: Some(data_hash),
    }
}

/// The parts joined with `sep` between them.
pub open spec fn join(parts: Seq<Seq<char>>, sep: Seq<char>) -> Seq<char>
    decreases parts.len(),
{
    if parts.len() == 0 {
        Seq::empty()
    } else if parts.len() == 1 {
        parts[0]
    } else {
        join(parts.drop_last(), sep) + sep + parts.last()
    }
}

/// Appends `part` to `joined`, which joins `parts` with `"\n\n"`; `started` tells whether
/// `parts` holds any part yet.
fn join_push(joined: &mut String, parts: Ghost<Seq<Seq<char>>>, started: bool, part: &String)
    requires
        old(joined)@ == join(parts@, "\n\n"@),
        started == (parts@.len() > 0),
    ensures
        final(joined)@ == join(parts@.push(part@), "\n\n"@),
{
    assert(parts@.push(part@).drop_last() =~= parts@);
    if started {
        joined.append("\n\n");
    }
    joined.append(part.as_str());
    assert(parts@.len() == 0 ==> final(joined)@ =~= part@);
}

/// The asset ids that the records of `g` carry, in order.
pub open spec fn present_asset_ids(g: Seq<ConsistencyIssueInfo>) -> Seq<Seq<char>>
    decreases g.len(),
{
    if g.len() == 0 {
        Seq::empty()
    } else {
        let rest = present_asset_ids(g.drop_last());
        match g.last().asset_id {
            Some(a) => rest.push(a@),
            None => rest,
        }
    }
}

fn present_asset_ids_of(g: &Vec<&ConsistencyIssueInfo>) -> (ids: Vec<String>)
    ensures
        texts(ids@) == present_asset_ids(derefs(g@)),
{
    let mut ids: Vec<String> = Vec::new();
    let mut i: usize = 0;
    while i < g.len()
        invariant
            i <= g@.len(),
            texts(ids@) == present_asset_ids(derefs(g@).take(i as int)),
        decreases g.len() - i,
    {
        assert(derefs(g@).take(i + 1).drop_last() =~= derefs(g@).take(i as int));
        assert(derefs(g@).take(i + 1).last() == *g@[i as int]);
        match &g[i].asset_id {
            Some(a) => {
                let ghost before = ids@;
                ids.push(a.clone());
                assert(texts(ids@) =~= texts(before).push(a@));
            },
            None => {},
        }
        i += 1;
    }
    assert(derefs(g@).take(g@.len() as int) =~= derefs(g@));
    ids
}

/// The issue for assets whose legacy classification data awaits migration.
pub open spec fn legacy_issue_view(g: Seq<ConsistencyIssueInfo>) -> HealthIssueView {
    let ids = present_asset_ids(g);
    let hash = data_hash_text(ids);
    HealthIssueView {
        id: issue_id("legacy_classification"@, hash),
        severity: Severity::Info,
        category: HealthCategory::DataConsistency,
        title: count_title(
            g.len(),
            "1 asset has old classification data"@,
            " assets have old classification data"@,
        ),
        message: "Some assets have legacy sector/country data that can be migrated to the new classification system."@,
        details: None,
        affected_count: g.len() as u32,
        affected_items: None,
        navigate_action: None,
        fix_action: Some(migrate_classifications_view(ids)),
        data_hash: Some(hash),
    }
}

fn build_legacy_issue(g: &Vec<&ConsistencyIssueInfo>) -> (issue: HealthIssue)
    ensures
        issue@ == legacy_issue_view(derefs(g@)),
{
    let count = g.len();
    let asset_ids = present_asset_ids_of(g);
    let data_hash = compute_data_hash(asset_ids.as_slice());
    HealthIssue {
        id: issue_id_text("legacy_classification", &data_hash),
        severity: Severity::Info,
        category: HealthCategory::DataConsistency,
        title: count_title_text(
            count,
            "1 asset has old classification data",
            " assets have old classification data",
        ),
        message: string_from(
            "Some assets have legacy sector/country data that can be migrated to the new classification system.",
        ),
        details: None,
        affected_count: count as u32,
        affected_items: None,
        navigate_action: None,
        fix_action: Some(FixAction::migrate_classifications(asset_ids)),
        data_hash: Some(data_hash),
    }
}

/// `"First went negative on <date>."`, or nothing without a date.
pub open spec fn date_line(d: Option<CalendarDate>) -> Seq<char> {
    match d {
        Some(d) => "First went negative on "@ + d.text() + "."@,
        None => Seq::empty(),
    }
}

fn date_line_text(d: &Option<CalendarDate>) -> (s: String)
    ensures
        s@ == date_line(*d),
{
    match d {
        Some(d) => {
            let mut s = string_from("First went negative on ");
            s.append(d.to_iso_string().as_str());
            s.append(".");
            s
        },
        None => String::new(),
    }
}

/// A decimal given by its parts, rounded to `dp` places and written out.
pub open spec fn rounded_text(p: DecimalParts, dp: u32) -> Seq<char> {
    decimal_display_text(decimal_round_dp_parts(p, dp))
}

/// The likely cause of a negative portfolio balance, from the signs of its cash and investments.
pub open spec fn balance_cause(cash: DecimalParts, investments: DecimalParts) -> Seq<char> {
    if parts_below_zero(cash) && !parts_below_zero(investments) {
        "→ Likely missing Transfer In or deposit before a buy transaction."@
    } else if !parts_below_zero(cash) && parts_below_zero(investments) {
        "→ Likely missing Buy transaction before a Sell."@
    } else {
        "→ Multiple data issues — check activities around this date."@
    }
}

/// Whether the investments of a negative-balance record (its total value less its cash) can be
/// computed: where they cannot, the subtraction overflows.
pub open spec fn balance_computable(i: ConsistencyIssueInfo) -> bool {
    match (i.account_currency, i.cash_balance, i.total_value_at_date) {
        (Some(_), Some(cash), Some(total)) => decimal_checked_sub_parts(
            total.parts(),
            cash.parts(),
        ) is Some,
        _ => true,
    }
}

/// The detail lines of a negative portfolio balance: date, cash and investments, likely cause.
/// Only records with a currency, a cash balance and a total value have them.
pub open spec fn balance_detail(i: ConsistencyIssueInfo) -> Option<Seq<char>> {
    match (i.account_currency, i.cash_balance, i.total_value_at_date) {
        (Some(ccy), Some(cash), Some(total)) => {
            let inv = decimal_checked_sub_parts(total.parts(), cash.parts())->0;
            Some(
                i.description@ + "\n"@ + date_line(i.first_negative_date) + "\n"@ + "Cash: "@
                    + rounded_text(cash.parts(), 2) + " "@ + ccy@ + " | Investments: "@
                    + rounded_text(inv, 2) + " "@ + ccy@ + "\n"@ + balance_cause(cash.parts(), inv),
            )
        },
        _ => None,
    }
}

fn balance_detail_text(i: &ConsistencyIssueInfo) -> (r: Option<String>)
    requires
        balance_computable(*i),
    ensures
        opt_text(r) == balance_detail(*i),
{
    match (&i.account_currency, &i.cash_balance, &i.total_value_at_date) {
        (Some(ccy), Some(cash), Some(total)) => {
            match total.checked_sub(cash) {
                Some(investments) => {
                    let cash_below = cash.below_zero();
                    let inv_below = investments.below_zero();
                    let cause = if cash_below && !inv_below {
                        "→ Likely missing Transfer In or deposit before a buy transaction."
                    } else if !cash_below && inv_below {
                        "→ Likely missing Buy transaction before a Sell."
                    } else {
                        "→ Multiple data issues — check activities around this date."
                    };
                    let mut s = i.description.clone();
                    s.append("\n");
                    s.append(date_line_text(&i.first_negative_date).as_str());
                    s.append("\n");
                    s.append("Cash: ");
                    s.append(cash.round_dp(2).to_text().as_str());
                    s.append(" ");
                    s.append(ccy.as_str());
                    s.append(" | Investments: ");
                    s.append(investments.round_dp(2).to_text().as_str());
                    s.append(" ");
                    s.append(ccy.as_str());
                    s.append("\n");
                    s.append(cause);
                    Some(s)
                },
                None => None,
            }
        },
        _ => None,
    }
}

/// The detail lines of a negative cash balance. Only records with a currency and a cash balance
/// have them.
pub open spec fn cash_detail(i: ConsistencyIssueInfo) -> Option<Seq<char>> {
    match (i.account_currency, i.cash_balance) {
        (Some(ccy), Some(cash)) => Some(
            i.description@ + "\n"@ + date_line(i.first_negative_date) + "\nCash: "@
                + rounded_text(cash.parts(), 2) + " "@ + ccy@
                + "\n→ This may be a bank overdraft or a missing deposit entry."@,
        ),
        _ => None,
    }
}

fn cash_detail_text(i: &ConsistencyIssueInfo) -> (r: Option<String>)
    ensures
        opt_text(r) == cash_detail(*i),
{
    match (&i.account_currency, &i.cash_balance) {
        (Some(ccy), Some(cash)) => {
            let mut s = i.description.clone();
            s.append("\n");
            s.append(date_line_text(&i.first_negative_date).as_str());
            s.append("\nCash: ");
            s.append(cash.round_dp(2).to_text().as_str());
            s.append(" ");
            s.append(ccy.as_str());
            s.append("\n→ This may be a bank overdraft or a missing deposit entry.");
            Some(s)
        },
        _ => None,
    }
}

/// The present details of the records of `g`, in order; `detail` says which record has which.
pub open spec fn present_details(
    g: Seq<ConsistencyIssueInfo>,
    detail: spec_fn(ConsistencyIssueInfo) -> Option<Seq<char>>,
) -> Seq<Seq<char>>
    decreases g.len(),
{
    if g.len() == 0 {
        Seq::empty()
    } else {
        let rest = present_details(g.drop_last(), detail);
        match detail(g.last()) {
            Some(d) => rest.push(d),
            None => rest,
        }
    }
}

/// The details of a balance issue: the joined detail lines, when they are not empty.
pub open spec fn joined_details(parts: Seq<Seq<char>>) -> Option<Seq<char>> {
    let d = join(parts, "\n\n"@);
    if d.len() > 0 {
        Some(d)
    } else {
        None
    }
}

/// The items of accounts named by the record ids and descriptions of `g`.
pub open spec fn account_items(g: Seq<ConsistencyIssueInfo>) -> Seq<AffectedItemView> {
    g.map_values(|i: ConsistencyIssueInfo| account_item_view(i.record_id@, i.description@))
}

fn account_items_of(g: &Vec<&ConsistencyIssueInfo>) -> (items: Vec<AffectedItem>)
    ensures
        items_view(items@) == account_items(derefs(g@)),
{
    let mut items: Vec<AffectedItem> = Vec::new();
    let mut i: usize = 0;
    while i < g.len()
        invariant
            i <= g@.len(),
            items_view(items@) == account_items(derefs(g@)).take(i as int),
        decreases g.len() - i,
    {
        let item = AffectedItem::account(g[i].record_id.clone(), g[i].description.clone());
        let ghost before = items@;
        items.push(item);
        assert(items_view(items@) =~= items_view(before).push(item@));
        assert(account_items(derefs(g@)).take(i + 1) =~= account_items(derefs(g@)).take(i as int).push(
            account_items(derefs(g@))[i as int],
        ));
        i += 1;
    }
    assert(account_items(derefs(g@)).take(g@.len() as int) =~= account_items(derefs(g@)));
    items
}

/// Whether the balance detail of a record is the balance or the cash kind.
pub open spec fn detail_of(cash_only: bool) -> spec_fn(ConsistencyIssueInfo) -> Option<Seq<char>> {
    if cash_only {
        |i: ConsistencyIssueInfo| cash_detail(i)
    } else {
        |i: ConsistencyIssueInfo| balance_detail(i)
    }
}

fn balance_details_of(g: &Vec<&ConsistencyIssueInfo>, cash_only: bool) -> (d: String)
    requires
        !cash_only ==> forall|k: int| 0 <= k < g@.len() ==> balance_computable(#[trigger] *g@[k]),
    ensures
        d@ == join(present_details(derefs(g@), detail_of(cash_only)), "\n\n"@),
{
    let ghost detail = detail_of(cash_only);
    let mut d = String::new();
    let mut started = false;
    let mut i: usize = 0;
    while i < g.len()
        invariant
            i <= g@.len(),
            detail == detail_of(cash_only),
            !cash_only ==> forall|k: int| 0 <= k < g@.len() ==> balance_computable(#[trigger] *g@[k]),
            d@ == join(present_details(derefs(g@).take(i as int), detail), "\n\n"@),
            started == (present_details(derefs(g@).take(i as int), detail).len() > 0),
        decreases g.len() - i,
    {
        let ghost parts = present_details(derefs(g@).take(i as int), detail);
        assert(derefs(g@).take(i + 1).drop_last() =~= derefs(g@).take(i as int));
        assert(derefs(g@).take(i + 1).last() == *g@[i as int]);
        let line = if cash_only {
            cash_detail_text(g[i])
        } else {
            balance_detail_text(g[i])
        };
        match line {
            Some(text) => {
                join_push(&mut d, Ghost(parts), started, &text);
                started = true;
            },
            None => {},
        }
        i += 1;
    }
    assert(derefs(g@).take(g@.len() as int) =~= derefs(g@));
    d
}

/// The issue for accounts whose balance went negative: their portfolio total when `cash_only` is
/// false, their cash when it is true.
pub open spec fn balance_issue_view(g: Seq<ConsistencyIssueInfo>, cash_only: bool) -> HealthIssueView {
    let hash = data_hash_text(record_ids(g));
    HealthIssueView {
        id: issue_id(
            if cash_only {
                "negative_cash_balance"@
            } else {
                "negative_account_balance"@
            },
            hash,
        ),
        severity: if cash_only {
            Severity::Info
        } else {
            Severity::Warning
        },
        category: HealthCategory::DataConsistency,
        title: if cash_only {
            count_title(
                g.len(),
                "Cash account had a negative balance"@,
                " cash accounts had a negative balance"@,
            )
        } else {
            count_title(
                g.len(),
                "Account has negative portfolio balance"@,
                " accounts have negative portfolio balance"@,
            )
        },
        message: if cash_only {
            "One or more cash accounts show a negative balance in their history. This may be a normal bank overdraft or a missing deposit entry."@
        } else {
            "One or more accounts show a negative total value in their history. This is usually caused by missing buy transactions. Review your activities to fix this."@
        },
        details: joined_details(present_details(g, detail_of(cash_only))),
        affected_count: g.len() as u32,
        affected_items: Some(account_items(g)),
        navigate_action: Some(to_activities_view(None)),
        fix_action: None,
        data_hash: Some(hash),
    }
}

fn build_balance_issue(g: &Vec<&ConsistencyIssueInfo>, cash_only: bool) -> (issue: HealthIssue)
    requires
        !cash_only ==> forall|k: int| 0 <= k < g@.len() ==> balance_computable(#[trigger] *g@[k]),
    ensures
        issue@ == balance_issue_view(derefs(g@), cash_only),
{
    let count = g.len();
    let ids = record_ids_of(g);
    let data_hash = compute_data_hash(ids.as_slice());
    let affected_items = account_items_of(g);
    let details = balance_details_of(g, cash_only);
    let details = if details.as_str().is_empty() {
        None
    } else {
        Some(details)
    };
    let (prefix, severity, title, message) = if cash_only {
        (
            "negative_cash_balance",
            Severity::Info,
            count_title_text(
                count,
                "Cash account had a negative balance",
                " cash accounts had a negative balance",
            ),
            "One or more cash accounts show a negative balance in their history. This may be a normal bank overdraft or a missing deposit entry.",
        )
    } else {
        (
            "negative_account_balance",
            Severity::Warning,
            count_title_text(
                count,
                "Account has negative portfolio balance",
                " accounts have negative portfolio balance",
            ),
            "One or more accounts show a negative total value in their history. This is usually caused by missing buy transactions. Review your activities to fix this.",
        )
    };
    HealthIssue {
        id: issue_id_text(prefix, &data_hash),
        severity,
        category: HealthCategory::DataConsistency,
        title,
        message: string_from(message),
        details,
        affected_count: count as u32,
        affected_items: Some(affected_items),
        navigate_action: Some(NavigateAction::to_activities(None)),
        fix_action: None,
        data_hash: Some(data_hash),
    }
}

/// The text of an optional date, or `absent` without one.
pub open spec fn date_text_or(d: Option<CalendarDate>, absent: Seq<char>) -> Seq<char> {
    match d {
        Some(d) => d.text(),
        None => absent,
    }
}

fn date_text_or_text(d: &Option<CalendarDate>, absent: &str) -> (s: String)
    ensures
        s@ == date_text_or(*d, absent@),
{
    match d {
        Some(d) => d.to_iso_string(),
        None => string_from(absent),
    }
}

/// The parts of an optional decimal, or of zero without one.
pub open spec fn parts_or_zero(d: Option<DecimalValue>) -> DecimalParts {
    match d {
        Some(d) => d.parts(),
        None => (false, 0u32, 0u32, 0u32, 0u32),
    }
}

/// Whether `v` holds a string equal to `s`.
fn contains_text(v: &Vec<String>, s: &String) -> (r: bool)
    ensures
        r == texts(v@).contains(s@),
{
    let mut i: usize = 0;
    while i < v.len()
        invariant
            i <= v@.len(),
            forall|k: int| 0 <= k < i ==> texts(v@)[k] != s@,
        decreases v.len() - i,
    {
        if v[i] == *s {
            assert(texts(v@)[i as int] == s@);
            return true;
        }
        i += 1;
    }
    false
}

/// The identity key of a sale without a lot disposal: record id, date, quantity and proceeds.
pub open spec fn lot_key(i: ConsistencyIssueInfo) -> Seq<char> {
    i.record_id@ + ":"@ + date_text_or(i.activity_date, Seq::empty()) + ":"@
        + decimal_display_text(parts_or_zero(i.quantity)) + ":"@ + decimal_display_text(
        parts_or_zero(i.proceeds),
    )
}

fn lot_key_text(i: &ConsistencyIssueInfo) -> (s: String)
    ensures
        s@ == lot_key(*i),
{
    let quantity = match &i.quantity {
        Some(q) => q.to_text(),
        None => DecimalValue::zero().to_text(),
    };
    let proceeds = match &i.proceeds {
        Some(p) => p.to_text(),
        None => DecimalValue::zero().to_text(),
    };
    let mut s = i.record_id.clone();
    s.append(":");
    s.append(date_text_or_text(&i.activity_date, "").as_str());
    s.append(":");
    s.append(quantity.as_str());
    s.append(":");
    s.append(proceeds.as_str());
    proof {
        reveal_strlit("");
    }
    s
}

/// The keys of the records of `g` under `key`, in order.
pub open spec fn keys_of(g: Seq<ConsistencyIssueInfo>, key: spec_fn(ConsistencyIssueInfo) -> Seq<char>) -> Seq<Seq<char>> {
    g.map_values(|i: ConsistencyIssueInfo| key(i))
}

/// The account ids that the records of `g` carry, in order.
pub open spec fn present_account_ids(g: Seq<ConsistencyIssueInfo>) -> Seq<Seq<char>>
    decreases g.len(),
{
    if g.len() == 0 {
        Seq::empty()
    } else {
        let rest = present_account_ids(g.drop_last());
        match g.last().account_id {
            Some(a) => rest.push(a@),
            None => rest,
        }
    }
}

/// One account item per account of the sales, for the first sale of each account.
pub open spec fn lot_items(g: Seq<ConsistencyIssueInfo>) -> Seq<AffectedItemView>
    decreases g.len(),
{
    if g.len() == 0 {
        Seq::empty()
    } else {
        let rest = lot_items(g.drop_last());
        match g.last().account_id {
            Some(a) => if present_account_ids(g.drop_last()).contains(a@) {
                rest
            } else {
                rest.push(account_item_view(a@, g.last().description@))
            },
            None => rest,
        }
    }
}

/// The asset of a sale as the details name it.
pub open spec fn sale_asset(i: ConsistencyIssueInfo) -> Seq<char> {
    match (i.asset_symbol, i.asset_name) {
        (Some(s), _) => s@,
        (None, Some(n)) => n@,
        _ => "asset"@,
    }
}

/// The quantity of a sale as the details give it.
pub open spec fn sale_quantity(i: ConsistencyIssueInfo) -> Seq<char> {
    match i.quantity {
        Some(q) => "Quantity: "@ + rounded_text(q.parts(), 6),
        None => "Quantity: unavailable"@,
    }
}

/// The proceeds of a sale as the details give them.
pub open spec fn sale_proceeds(i: ConsistencyIssueInfo) -> Seq<char> {
    match (i.proceeds, i.account_currency) {
        (Some(a), Some(c)) => "Proceeds: "@ + rounded_text(a.parts(), 2) + " "@ + c@,
        (Some(a), None) => "Proceeds: "@ + rounded_text(a.parts(), 2),
        _ => "Proceeds: unavailable"@,
    }
}

/// The detail lines of a sale without a lot disposal.
pub open spec fn lot_detail(i: ConsistencyIssueInfo) -> Seq<char> {
    i.description@ + "\nSell: "@ + sale_asset(i) + " on "@ + date_text_or(
        i.activity_date,
        "unknown date"@,
    ) + "\n"@ + sale_quantity(i) + " | "@ + sale_proceeds(i)
        + "\nReview the sell activity or rebuild account history so cost-basis lots are available."@
}

fn lot_detail_text(i: &ConsistencyIssueInfo) -> (s: String)
    ensures
        s@ == lot_detail(*i),
{
    let asset = match (&i.asset_symbol, &i.asset_name) {
        (Some(sym), _) => sym.clone(),
        (None, Some(n)) => n.clone(),
        _ => string_from("asset"),
    };
    let quantity = match &i.quantity {
        Some(q) => {
            let mut t = string_from("Quantity: ");
            t.append(q.round_dp(6).to_text().as_str());
            t
        },
        None => string_from("Quantity: unavailable"),
    };
    let proceeds = match (&i.proceeds, &i.account_currency) {
        (Some(a), Some(c)) => {
            let mut t = string_from("Proceeds: ");
            t.append(a.round_dp(2).to_text().as_str());
            t.append(" ");
            t.append(c.as_str());
            t
        },
        (Some(a), None) => {
            let mut t = string_from("Proceeds: ");
            t.append(a.round_dp(2).to_text().as_str());
            t
        },
        _ => string_from("Proceeds: unavailable"),
    };
    let mut s = i.description.clone();
    s.append("\nSell: ");
    s.append(asset.as_str());
    s.append(" on ");
    s.append(date_text_or_text(&i.activity_date, "unknown date").as_str());
    s.append("\n");
    s.append(quantity.as_str());
    s.append(" | ");
    s.append(proceeds.as_str());
    s.append("\nReview the sell activity or rebuild account history so cost-basis lots are available.");
    s
}

/// Optional when empty: `None` for an empty list.
pub open spec fn nonempty_items(items: Seq<AffectedItemView>) -> Option<Seq<AffectedItemView>> {
    if items.len() > 0 {
        Some(items)
    } else {
        None
    }
}

/// The navigation to the sell activities.
pub open spec fn sell_activities_view() -> NavigateActionView {
    NavigateActionView {
        route: "/activities"@,
        query: Some(seq![("types"@, "SELL"@)]),
        label: "View Activities"@,
    }
}

/// The issue for sales that could not be matched to a lot.
pub open spec fn lot_issue_view(g: Seq<ConsistencyIssueInfo>) -> HealthIssueView {
    let hash = data_hash_text(keys_of(g, |i: ConsistencyIssueInfo| lot_key(i)));
    HealthIssueView {
        id: issue_id("missing_lot_disposal_for_sell"@, hash),
        severity: Severity::Warning,
        category: HealthCategory::DataConsistency,
        title: count_title(g.len(), "Sale missing cost-basis match"@, " sales missing cost-basis matches"@),
        message: "A sale could not be matched to a lot, so realized gain/loss and performance attribution may be incomplete."@,
        details: joined_details(keys_of(g, |i: ConsistencyIssueInfo| lot_detail(i))),
        affected_count: g.len() as u32,
        affected_items: nonempty_items(lot_items(g)),
        navigate_action: Some(sell_activities_view()),
        fix_action: None,
        data_hash: Some(hash),
    }
}

fn build_lot_issue(g: &Vec<&ConsistencyIssueInfo>) -> (issue: HealthIssue)
    ensures
        issue@ == lot_issue_view(derefs(g@)),
{
    let ghost gs = derefs(g@);
    let ghost key = |i: ConsistencyIssueInfo| lot_key(i);
    let ghost detail = |i: ConsistencyIssueInfo| lot_detail(i);
    let count = g.len();
    let mut keys: Vec<String> = Vec::new();
    let mut seen: Vec<String> = Vec::new();
    let mut items: Vec<AffectedItem> = Vec::new();
    let mut details = String::new();
    let mut i: usize = 0;
    while i < count
        invariant
            i <= count == g@.len(),
            gs == derefs(g@),
            key == (|i: ConsistencyIssueInfo| lot_key(i)),
            detail == (|i: ConsistencyIssueInfo| lot_detail(i)),
            texts(keys@) == keys_of(gs.take(i as int), key),
            texts(seen@) == present_account_ids(gs.take(i as int)),
            items_view(items@) == lot_items(gs.take(i as int)),
            details@ == join(keys_of(gs.take(i as int), detail), "\n\n"@),
        decreases count - i,
    {
        let r = g[i];
        let ghost pre = gs.take(i as int);
        assert(gs.take(i + 1).drop_last() =~= pre);
        assert(gs.take(i + 1).last() == *r);
        assert(gs.take(i + 1) =~= pre.push(*r));
        let k = lot_key_text(r);
        let ghost keys_before = keys@;
        keys.push(k);
        assert(texts(keys@) =~= texts(keys_before).push(lot_key(*r)));
        assert(keys_of(gs.take(i + 1), key) =~= keys_of(pre, key).push(lot_key(*r)));
        match &r.account_id {
            Some(a) => {
                if !contains_text(&seen, a) {
                    let item = AffectedItem::account(a.clone(), r.description.clone());
                    let ghost items_before = items@;
                    items.push(item);
                    assert(items_view(items@) =~= items_view(items_before).push(item@));
                }
                let ghost seen_before = seen@;
                seen.push(a.clone());
                assert(texts(seen@) =~= texts(seen_before).push(a@));
            },
            None => {},
        }
        let line = lot_detail_text(r);
        assert(keys_of(gs.take(i + 1), detail) =~= keys_of(pre, detail).push(lot_detail(*r)));
        join_push(&mut details, Ghost(keys_of(pre, detail)), i > 0, &line);
        i += 1;
    }
    assert(gs.take(count as int) =~= gs);
    let data_hash = compute_data_hash(keys.as_slice());
    let affected_items = if items.len() == 0 {
        None
    } else {
        Some(items)
    };
    let details = if details.as_str().is_empty() {
        None
    } else {
        Some(details)
    };
    let navigate = NavigateAction {
        route: string_from("/activities"),
        query: Some(vec![QueryParam { key: string_from("types"), value: string_from("SELL") }]),
        label: string_from("View Activities"),
    };
    proof {
        assert(query_view(navigate.query->0@) =~= seq![("types"@, "SELL"@)]);
    }
    HealthIssue {
        id: issue_id_text("missing_lot_disposal_for_sell", &data_hash),
        severity: Severity::Warning,
        category: HealthCategory::DataConsistency,
        title: count_title_text(count, "Sale missing cost-basis match", " sales missing cost-basis matches"),
        message: string_from(
            "A sale could not be matched to a lot, so realized gain/loss and performance attribution may be incomplete.",
        ),
        details,
        affected_count: count as u32,
        affected_items,
        navigate_action: Some(navigate),
        fix_action: None,
        data_hash: Some(data_hash),
    }
}

/// The identity key of a valuation record: record id and date.
pub open spec fn valuation_key(i: ConsistencyIssueInfo) -> Seq<char> {
    i.record_id@ + ":"@ + date_text_or(i.activity_date, Seq::empty())
}

/// The key under which a valuation record's affected item is counted once: its asset, else its
/// account, else none.
pub open spec fn valuation_item_key(i: ConsistencyIssueInfo) -> Option<Seq<char>> {
    match i.asset_id {
        Some(a) => Some("asset:"@ + a@),
        None => match i.account_id {
            Some(c) => Some("account:"@ + c@),
            None => None,
        },
    }
}

/// The affected item of a valuation record that has an asset or an account.
pub open spec fn valuation_item(i: ConsistencyIssueInfo) -> AffectedItemView {
    match i.asset_id {
        Some(a) => asset_item_view(
            a@,
            match i.asset_symbol {
                Some(s) => s@,
                None => a@,
            },
            opt_text(i.asset_name),
        ),
        None => account_item_view(i.account_id->0@, i.description@),
    }
}

/// The item keys of the records of `g`, in order.
pub open spec fn valuation_item_keys(g: Seq<ConsistencyIssueInfo>) -> Seq<Seq<char>>
    decreases g.len(),
{
    if g.len() == 0 {
        Seq::empty()
    } else {
        let rest = valuation_item_keys(g.drop_last());
        match valuation_item_key(g.last()) {
            Some(k) => rest.push(k),
            None => rest,
        }
    }
}

/// One item per asset or account of the valuation records, for the first record of each.
pub open spec fn valuation_items(g: Seq<ConsistencyIssueInfo>) -> Seq<AffectedItemView>
    decreases g.len(),
{
    if g.len() == 0 {
        Seq::empty()
    } else {
        let rest = valuation_items(g.drop_last());
        match valuation_item_key(g.last()) {
            Some(k) => if valuation_item_keys(g.drop_last()).contains(k) {
                rest
            } else {
                rest.push(valuation_item(g.last()))
            },
            None => rest,
        }
    }
}

/// The detail lines of a valuation record.
pub open spec fn valuation_detail(i: ConsistencyIssueInfo) -> Seq<char> {
    i.description@ + "\nDate: "@ + date_text_or(i.activity_date, "unknown date"@)
}

/// The title of a valuation issue: `title` for one record, else the count, a space and `plural`.
pub open spec fn valuation_title(n: nat, title: Seq<char>, plural: Seq<char>) -> Seq<char> {
    if n == 1 {
        title
    } else {
        decimal_text(n) + " "@ + plural
    }
}

/// The issue for valuation records (missing or incomplete generated valuations).
pub open spec fn valuation_issue_view(
    g: Seq<ConsistencyIssueInfo>,
    prefix: Seq<char>,
    severity: Severity,
    title: Seq<char>,
    plural: Seq<char>,
    message: Seq<char>,
) -> HealthIssueView {
    let hash = data_hash_text(keys_of(g, |i: ConsistencyIssueInfo| valuation_key(i)));
    HealthIssueView {
        id: issue_id(prefix, hash),
        severity,
        category: HealthCategory::DataConsistency,
        title: valuation_title(g.len(), title, plural),
        message,
        details: joined_details(keys_of(g, |i: ConsistencyIssueInfo| valuation_detail(i))),
        affected_count: g.len() as u32,
        affected_items: nonempty_items(valuation_items(g)),
        navigate_action: Some(to_activities_view(None)),
        fix_action: None,
        data_hash: Some(hash),
    }
}

/// The issue for valuation records of one type (missing or incomplete generated valuations):
/// its id and hash come from the records' keys, its title from their count, its details and
/// affected items from the records themselves.
pub fn build_valuation_quality_issue(
    id_prefix: &str,
    issues: &Vec<&ConsistencyIssueInfo>,
    severity: Severity,
    title: &str,
    plural_title: &str,
    message: &str,
) -> (issue: HealthIssue)
    ensures
        issue@ == valuation_issue_view(
            derefs(issues@),
            id_prefix@,
            severity,
            title@,
            plural_title@,
            message@,
        ),
{
    let ghost gs = derefs(issues@);
    let ghost key = |i: ConsistencyIssueInfo| valuation_key(i);
    let ghost detail = |i: ConsistencyIssueInfo| valuation_detail(i);
    let count = issues.len();
    let mut keys: Vec<String> = Vec::new();
    let mut seen: Vec<String> = Vec::new();
    let mut items: Vec<AffectedItem> = Vec::new();
    let mut details = String::new();
    let mut i: usize = 0;
    while i < count
        invariant
            i <= count == issues@.len(),
            gs == derefs(issues@),
            key == (|i: ConsistencyIssueInfo| valuation_key(i)),
            detail == (|i: ConsistencyIssueInfo| valuation_detail(i)),
            texts(keys@) == keys_of(gs.take(i as int), key),
            texts(seen@) == valuation_item_keys(gs.take(i as int)),
            items_view(items@) == valuation_items(gs.take(i as int)),
            details@ == join(keys_of(gs.take(i as int), detail), "\n\n"@),
        decreases count - i,
    {
        let r = issues[i];
        let ghost pre = gs.take(i as int);
        assert(gs.take(i + 1).drop_last() =~= pre);
        assert(gs.take(i + 1).last() == *r);
        assert(gs.take(i + 1) =~= pre.push(*r));
        let mut k = r.record_id.clone();
        k.append(":");
        k.append(date_text_or_text(&r.activity_date, "").as_str());
        proof {
            reveal_strlit("");
        }
        let ghost keys_before = keys@;
        keys.push(k);
        assert(texts(keys@) =~= texts(keys_before).push(valuation_key(*r)));
        assert(keys_of(gs.take(i + 1), key) =~= keys_of(pre, key).push(valuation_key(*r)));
        let item_key: Option<String> = match &r.asset_id {
            Some(a) => {
                let mut t = string_from("asset:");
                t.append(a.as_str());
                Some(t)
            },
            None => match &r.account_id {
                Some(c) => {
                    let mut t = string_from("account:");
                    t.append(c.as_str());
                    Some(t)
                },
                None => None,
            },
        };
        assert(opt_text(item_key) == valuation_item_key(*r));
        match item_key {
            Some(t) => {
                if !contains_text(&seen, &t) {
                    let item = match &r.asset_id {
                        Some(a) => {
                            let symbol = match &r.asset_symbol {
                                Some(sym) => sym.clone(),
                                None => a.clone(),
                            };
                            AffectedItem::asset_with_name(a.clone(), symbol, r.asset_name.clone())
                        },
                        None => {
                            let c = match &r.account_id {
                                Some(c) => c.clone(),
                                None => String::new(),
                            };
                            AffectedItem::account(c, r.description.clone())
                        },
                    };
                    assert(item@ == valuation_item(*r));
                    let ghost items_before = items@;
                    items.push(item);
                    assert(items_view(items@) =~= items_view(items_before).push(item@));
                }
                let ghost seen_before = seen@;
                seen.push(t);
                assert(texts(seen@) =~= texts(seen_before).push(valuation_item_key(*r)->0));
            },
            None => {},
        }
        let mut line = r.description.clone();
        line.append("\nDate: ");
        line.append(date_text_or_text(&r.activity_date, "unknown date").as_str());
        assert(keys_of(gs.take(i + 1), detail) =~= keys_of(pre, detail).push(valuation_detail(*r)));
        join_push(&mut details, Ghost(keys_of(pre, detail)), i > 0, &line);
        i += 1;
    }
    assert(gs.take(count as int) =~= gs);
    let sorted_keys = sorted_texts(keys.as_slice());
    proof {
        crate::text::lemma_text_order_total();
        texts(keys@).lemma_sort_by_ensures(text_order());
        crate::fingerprint::lemma_data_hash_order_free(texts(sorted_keys@), texts(keys@));
    }
    let data_hash = compute_data_hash(sorted_keys.as_slice());
    let affected_items = if items.len() == 0 {
        None
    } else {
        Some(items)
    };
    let details = if details.as_str().is_empty() {
        None
    } else {
        Some(details)
    };
    let heading = if count == 1 {
        string_from(title)
    } else {
        let mut t = usize_decimal(count);
        t.append(" ");
        t.append(plural_title);
        t
    };
    HealthIssue {
        id: issue_id_text(id_prefix, &data_hash),
        severity,
        category: HealthCategory::DataConsistency,
        title: heading,
        message: string_from(message),
        details,
        affected_count: count as u32,
        affected_items,
        navigate_action: Some(NavigateAction::to_activities(None)),
        fix_action: None,
        data_hash: Some(data_hash),
    }
}

/// The earliest and the latest activity date of the records of `g`, when any has one.
pub open spec fn date_range(g: Seq<ConsistencyIssueInfo>) -> Option<(CalendarDate, CalendarDate)>
    decreases g.len(),
{
    if g.len() == 0 {
        None
    } else {
        let rest = date_range(g.drop_last());
        match g.last().activity_date {
            None => rest,
            Some(d) => match rest {
                None => Some((d, d)),
                Some((lo, hi)) => Some(
                    (
                        if lo.on_or_before(d) {
                            lo
                        } else {
                            d
                        },
                        if d.on_or_before(hi) {
                            hi
                        } else {
                            d
                        },
                    ),
                ),
            },
        }
    }
}

/// How many distinct accounts the records name.
pub enum AccountSpread {
    NoAccount,
    Single(Seq<char>),
    Several,
}

/// The accounts that the records of `g` name: none, a single one, or several.
pub open spec fn account_spread(g: Seq<ConsistencyIssueInfo>) -> AccountSpread
    decreases g.len(),
{
    if g.len() == 0 {
        AccountSpread::NoAccount
    } else {
        let rest = account_spread(g.drop_last());
        match g.last().account_id {
            None => rest,
            Some(a) => match rest {
                AccountSpread::NoAccount => AccountSpread::Single(a@),
                AccountSpread::Single(b) => if b == a@ {
                    AccountSpread::Single(b)
                } else {
                    AccountSpread::Several
                },
                AccountSpread::Several => AccountSpread::Several,
            },
        }
    }
}

/// The query of the transfer activities behind unknown flows: the transfer types, the date
/// range when known, and the account when there is exactly one.
pub open spec fn flow_query(g: Seq<ConsistencyIssueInfo>) -> Seq<(Seq<char>, Seq<char>)> {
    seq![("types"@, "TRANSFER_IN,TRANSFER_OUT"@)] + match date_range(g) {
        Some((lo, hi)) => seq![("from"@, lo.text()), ("to"@, hi.text())],
        None => Seq::empty(),
    } + match account_spread(g) {
        AccountSpread::Single(a) => seq![("account"@, a)],
        _ => Seq::empty(),
    }
}

/// The issue for valuation records whose performance flow boundary is unknown: a valuation
/// issue whose navigation opens the transfers concerned.
pub open spec fn flow_issue_view(
    g: Seq<ConsistencyIssueInfo>,
    prefix: Seq<char>,
    severity: Severity,
    title: Seq<char>,
    plural: Seq<char>,
    message: Seq<char>,
) -> HealthIssueView {
    HealthIssueView {
        navigate_action: Some(
            NavigateActionView {
                route: "/activities"@,
                query: Some(flow_query(g)),
                label: "View Activities"@,
            },
        ),
        ..valuation_issue_view(g, prefix, severity, title, plural, message)
    }
}

fn param(key: &str, value: String) -> (p: QueryParam)
    ensures
        p.key@ == key@,
        p.value@ == value@,
{
    QueryParam { key: string_from(key), value }
}

/// The issue for valuation records whose performance flow boundary is unknown: the valuation
/// issue of the same records, navigating to their transfer activities.
pub fn build_unknown_performance_flow_issue(
    id_prefix: &str,
    issues: &Vec<&ConsistencyIssueInfo>,
    severity: Severity,
    title: &str,
    plural_title: &str,
    message: &str,
) -> (issue: HealthIssue)
    ensures
        issue@ == flow_issue_view(
            derefs(issues@),
            id_prefix@,
            severity,
            title@,
            plural_title@,
            message@,
        ),
{
    let ghost gs = derefs(issues@);
    let mut issue = build_valuation_quality_issue(
        id_prefix,
        issues,
        severity,
        title,
        plural_title,
        message,
    );
    let mut range: Option<(CalendarDate, CalendarDate)> = None;
    let mut first_account: Option<String> = None;
    let mut several = false;
    let mut i: usize = 0;
    while i < issues.len()
        invariant
            i <= issues@.len(),
            gs == derefs(issues@),
            range == date_range(gs.take(i as int)),
            match account_spread(gs.take(i as int)) {
                AccountSpread::NoAccount => first_account is None && !several,
                AccountSpread::Single(a) => first_account matches Some(f) && f@ == a && !several,
                AccountSpread::Several => several,
            },
        decreases issues.len() - i,
    {
        let r = issues[i];
        assert(gs.take(i + 1).drop_last() =~= gs.take(i as int));
        assert(gs.take(i + 1).last() == *r);
        match &r.activity_date {
            Some(d) => {
                range = match range {
                    None => Some((*d, *d)),
                    Some((lo, hi)) => Some(
                        (
                            if lo.is_on_or_before(d) {
                                lo
                            } else {
                                *d
                            },
                            if d.is_on_or_before(&hi) {
                                hi
                            } else {
                                *d
                            },
                        ),
                    ),
                };
            },
            None => {},
        }
        match &r.account_id {
            Some(a) => {
                if !several {
                    match &first_account {
                        None => {
                            first_account = Some(a.clone());
                        },
                        Some(f) => {
                            if *f != *a {
                                several = true;
                            }
                        },
                    }
                }
            },
            None => {},
        }
        i += 1;
    }
    assert(gs.take(issues@.len() as int) =~= gs);
    let mut query: Vec<QueryParam> = Vec::new();
    query.push(param("types", string_from("TRANSFER_IN,TRANSFER_OUT")));
    match range {
        Some((lo, hi)) => {
            query.push(param("from", lo.to_iso_string()));
            query.push(param("to", hi.to_iso_string()));
        },
        None => {},
    }
    if !several {
        match first_account {
            Some(a) => {
                query.push(param("account", a));
            },
            None => {},
        }
    }
    assert(query_view(query@) =~= flow_query(gs));
    issue.navigate_action = Some(
        NavigateAction {
            route: string_from("/activities"),
            query: Some(query),
            label: string_from("View Activities"),
        },
    );
    issue
}

/// The issue that the records `g`, all of type `t`, give.
#[verifier::opaque]
pub open spec fn issue_for(t: ConsistencyIssueType, g: Seq<ConsistencyIssueInfo>) -> HealthIssueView {
    match t {
        ConsistencyIssueType::OrphanActivityAccount => record_issue_view(
            g,
            "orphan_activity_account"@,
            Severity::Error,
            "Transaction references missing account"@,
            " transactions reference missing accounts"@,
            "Some transactions point to accounts that no longer exist. This may cause calculation errors."@,
            to_activities_view(Some("orphan"@)),
        ),
        ConsistencyIssueType::OrphanActivityAsset => record_issue_view(
            g,
            "orphan_activity_asset"@,
            Severity::Error,
            "Transaction references missing asset"@,
            " transactions reference missing assets"@,
            "Some transactions point to assets that no longer exist. This may cause calculation errors."@,
            to_activities_view(Some("orphan"@)),
        ),
        ConsistencyIssueType::NegativePosition => record_issue_view(
            g,
            "negative_position"@,
            Severity::Warning,
            "Holding has negative quantity"@,
            " holdings have negative quantities"@,
            "Some holdings show negative quantities, which usually indicates missing or incorrect transactions."@,
            to_holdings_view(Some("negative"@)),
        ),
        ConsistencyIssueType::LegacyClassification => legacy_issue_view(g),
        ConsistencyIssueType::NegativeAccountBalance => balance_issue_view(g, false),
        ConsistencyIssueType::NegativeCashBalance => balance_issue_view(g, true),
        ConsistencyIssueType::MissingLotDisposalForSell => lot_issue_view(g),
        ConsistencyIssueType::MissingGeneratedValuation => valuation_issue_view(
            g,
            "missing_generated_valuation"@,
            Severity::Warning,
            "Generated valuation history is incomplete"@,
            "generated valuation rows are missing"@,
            "Some holdings snapshot dates do not have generated valuation rows. Rebuild account history after fixing missing prices, manual valuations, or FX rates."@,
        ),
        ConsistencyIssueType::IncompleteValuationValue => valuation_issue_view(
            g,
            "incomplete_valuation_value"@,
            Severity::Warning,
            "Valuation coverage is incomplete"@,
            "valuation rows have incomplete market value"@,
            "Some generated valuation rows have incomplete market value coverage. Performance protects correctness by marking affected returns unavailable or degraded; review missing prices or manual valuations."@,
        ),
        ConsistencyIssueType::IncompleteValuationBasis => valuation_issue_view(
            g,
            "incomplete_valuation_basis"@,
            Severity::Warning,
            "Cost basis coverage is incomplete"@,
            "positions have incomplete cost basis"@,
            "Some positions have missing or partial acquisition cost basis. Market value can still be shown, but gain/loss and cost-basis returns may be unavailable until the related activities are fixed."@,
        ),
        ConsistencyIssueType::UnknownPerformanceFlowSource => flow_issue_view(
            g,
            "unknown_performance_flow_source"@,
            Severity::Error,
            "Performance flow boundary is unknown"@,
            "valuation rows have unknown transfer classification"@,
            "Some generated valuation rows include a transfer or flow whose portfolio boundary is unknown. Review transfer activities on the affected dates and mark each transfer external or link it to its matching account."@,
        ),
    }
}

/// The order in which the issue types are reported.
pub open spec fn report_order() -> Seq<ConsistencyIssueType> {
    seq![
        ConsistencyIssueType::OrphanActivityAccount,
        ConsistencyIssueType::OrphanActivityAsset,
        ConsistencyIssueType::NegativePosition,
        ConsistencyIssueType::LegacyClassification,
        ConsistencyIssueType::NegativeAccountBalance,
        ConsistencyIssueType::NegativeCashBalance,
        ConsistencyIssueType::MissingLotDisposalForSell,
        ConsistencyIssueType::MissingGeneratedValuation,
        ConsistencyIssueType::IncompleteValuationValue,
        ConsistencyIssueType::IncompleteValuationBasis,
        ConsistencyIssueType::UnknownPerformanceFlowSource,
    ]
}

/// The issues of `infos` for the types `ts`, in that order: one per type that has records.
pub open spec fn issues_for_types(
    infos: Seq<ConsistencyIssueInfo>,
    ts: Seq<ConsistencyIssueType>,
) -> Seq<HealthIssueView>
    decreases ts.len(),
{
    if ts.len() == 0 {
        Seq::empty()
    } else {
        let rest = issues_for_types(infos, ts.drop_last());
        let g = of_type(infos, ts.last());
        if g.len() > 0 {
            rest.push(issue_for(ts.last(), g))
        } else {
            rest
        }
    }
}

/// The health issues that the records `infos` give: one per type of issue that has records, in
/// report order.
pub open spec fn analysis(infos: Seq<ConsistencyIssueInfo>) -> Seq<HealthIssueView> {
    issues_for_types(infos, report_order())
}

/// Whether every negative-balance record of `infos` that has its currency, cash and total has
/// investments that can be computed (its total less its cash does not overflow).
pub open spec fn balances_computable(infos: Seq<ConsistencyIssueInfo>) -> bool {
    forall|k: int|
        0 <= k < infos.len() && #[trigger] infos[k].issue_type
            == ConsistencyIssueType::NegativeAccountBalance ==> balance_computable(infos[k])
}

proof fn lemma_balances_of_type(infos: Seq<ConsistencyIssueInfo>)
    requires
        balances_computable(infos),
    ensures
        forall|k: int|
            0 <= k < of_type(infos, ConsistencyIssueType::NegativeAccountBalance).len()
                ==> balance_computable(
                #[trigger] of_type(infos, ConsistencyIssueType::NegativeAccountBalance)[k],
            ),
    decreases infos.len(),
{
    if infos.len() > 0 {
        let d = infos.drop_last();
        assert forall|k: int|
            0 <= k < d.len() && #[trigger] d[k].issue_type
                == ConsistencyIssueType::NegativeAccountBalance implies balance_computable(d[k]) by {
            assert(d[k] == infos[k]);
        }
        lemma_balances_of_type(d);
        let t = ConsistencyIssueType::NegativeAccountBalance;
        let rest = of_type(d, t);
        let all = of_type(infos, t);
        assert(infos[infos.len() - 1] == infos.last());
        assert forall|k: int| 0 <= k < all.len() implies balance_computable(#[trigger] all[k]) by {
            if k < rest.len() {
                assert(all[k] == rest[k]);
            }
        }
    }
}

fn build_issue(t: ConsistencyIssueType, g: &Vec<&ConsistencyIssueInfo>) -> (issue: HealthIssue)
    requires
        t == ConsistencyIssueType::NegativeAccountBalance ==> forall|k: int|
            0 <= k < g@.len() ==> balance_computable(#[trigger] *g@[k]),
    ensures
        issue@ == issue_for(t, derefs(g@)),
{
    reveal(issue_for);
    match t {
        ConsistencyIssueType::OrphanActivityAccount => build_record_issue(
            g,
            "orphan_activity_account",
            Severity::Error,
            "Transaction references missing account",
            " transactions reference missing accounts",
            "Some transactions point to accounts that no longer exist. This may cause calculation errors.",
            NavigateAction::to_activities(Some("orphan")),
        ),
        ConsistencyIssueType::OrphanActivityAsset => build_record_issue(
            g,
            "orphan_activity_asset",
            Severity::Error,
            "Transaction references missing asset",
            " transactions reference missing assets",
            "Some transactions point to assets that no longer exist. This may cause calculation errors.",
            NavigateAction::to_activities(Some("orphan")),
        ),
        ConsistencyIssueType::NegativePosition => build_record_issue(
            g,
            "negative_position",
            Severity::Warning,
            "Holding has negative quantity",
            " holdings have negative quantities",
            "Some holdings show negative quantities, which usually indicates missing or incorrect transactions.",
            NavigateAction::to_holdings(Some("negative")),
        ),
        ConsistencyIssueType::LegacyClassification => build_legacy_issue(g),
        ConsistencyIssueType::NegativeAccountBalance => build_balance_issue(g, false),
        ConsistencyIssueType::NegativeCashBalance => build_balance_issue(g, true),
        ConsistencyIssueType::MissingLotDisposalForSell => build_lot_issue(g),
        ConsistencyIssueType::MissingGeneratedValuation => build_valuation_quality_issue(
            "missing_generated_valuation",
            g,
            Severity::Warning,
            "Generated valuation history is incomplete",
            "generated valuation rows are missing",
            "Some holdings snapshot dates do not have generated valuation rows. Rebuild account history after fixing missing prices, manual valuations, or FX rates.",
        ),
        ConsistencyIssueType::IncompleteValuationValue => build_valuation_quality_issue(
            "incomplete_valuation_value",
            g,
            Severity::Warning,
            "Valuation coverage is incomplete",
            "valuation rows have incomplete market value",
            "Some generated valuation rows have incomplete market value coverage. Performance protects correctness by marking affected returns unavailable or degraded; review missing prices or manual valuations.",
        ),
        ConsistencyIssueType::IncompleteValuationBasis => build_valuation_quality_issue(
            "incomplete_valuation_basis",
            g,
            Severity::Warning,
            "Cost basis coverage is incomplete",
            "positions have incomplete cost basis",
            "Some positions have missing or partial acquisition cost basis. Market value can still be shown, but gain/loss and cost-basis returns may be unavailable until the related activities are fixed.",
        ),
        ConsistencyIssueType::UnknownPerformanceFlowSource => build_unknown_performance_flow_issue(
            "unknown_performance_flow_source",
            g,
            Severity::Error,
            "Performance flow boundary is unknown",
            "valuation rows have unknown transfer classification",
            "Some generated valuation rows include a transfer or flow whose portfolio boundary is unknown. Review transfer activities on the affected dates and mark each transfer external or link it to its matching account.",
        ),
    }
}

/// Health check that detects data consistency problems.
pub struct DataConsistencyCheck;

impl DataConsistencyCheck {
    /// Creates a new data consistency check.
    pub fn new() -> (check: DataConsistencyCheck) {
        DataConsistencyCheck
    }

    /// The identifier of this check.
    pub fn id(&self) -> (id: &'static str)
        ensures
            id@ == "data_consistency"@,
    {
        "data_consistency"
    }

    /// The category of the issues this check reports.
    pub fn category(&self) -> (c: HealthCategory)
        ensures
            c == HealthCategory::DataConsistency,
    {
        HealthCategory::DataConsistency
    }

    /// The scheduled run of this check reports nothing: the service calls `analyze` with the
    /// consistency data directly.
    pub fn run(&self) -> (issues: Vec<HealthIssue>)
        ensures
            issues@.len() == 0,
    {
        Vec::new()
    }

    /// Analyzes data for consistency issues: one health issue per type of issue that has
    /// records, in report order.
    pub fn analyze(&self, issues_data: &[ConsistencyIssueInfo]) -> (issues: Vec<HealthIssue>)
        requires
            balances_computable(issues_data@),
        ensures
            issues_view(issues@) == analysis(issues_data@),
    {
        let mut health_issues: Vec<HealthIssue> = Vec::new();
        let order = vec![
            ConsistencyIssueType::OrphanActivityAccount,
            ConsistencyIssueType::OrphanActivityAsset,
            ConsistencyIssueType::NegativePosition,
            ConsistencyIssueType::LegacyClassification,
            ConsistencyIssueType::NegativeAccountBalance,
            ConsistencyIssueType::NegativeCashBalance,
            ConsistencyIssueType::MissingLotDisposalForSell,
            ConsistencyIssueType::MissingGeneratedValuation,
            ConsistencyIssueType::IncompleteValuationValue,
            ConsistencyIssueType::IncompleteValuationBasis,
            ConsistencyIssueType::UnknownPerformanceFlowSource,
        ];
        assert(order@ =~= report_order());
        let mut j: usize = 0;
        while j < order.len()
            invariant
                j <= order@.len(),
                order@ == report_order(),
                balances_computable(issues_data@),
                issues_view(health_issues@) == issues_for_types(issues_data@, order@.take(j as int)),
            decreases order.len() - j,
        {
            let t = order[j];
            let group = collect_type(issues_data, t);
            assert(order@.take(j + 1).drop_last() =~= order@.take(j as int));
            if group.len() > 0 {
                proof {
                    if t == ConsistencyIssueType::NegativeAccountBalance {
                        lemma_balances_of_type(issues_data@);
                        assert forall|k: int| 0 <= k < group@.len() implies balance_computable(
                            #[trigger] *group@[k],
                        ) by {
                            assert(*group@[k] == derefs(group@)[k]);
                        }
                    }
                }
                let issue = build_issue(t, &group);
                let ghost before = health_issues@;
                health_issues.push(issue);
                assert(issues_view(health_issues@) =~= issues_view(before).push(issue@));
            }
            j += 1;
        }
        assert(order@.take(order@.len() as int) =~= order@);
        health_issues
    }

    /// Analyzes data for consistency issues, or gives `None` where a negative-balance record's
    /// total less its cash overflows (where `analyze` may not be called).
    pub fn try_analyze(&self, issues_data: &[ConsistencyIssueInfo]) -> (issues: Option<
        Vec<HealthIssue>,
    >)
        ensures
            issues is Some <==> balances_computable(issues_data@),
            issues matches Some(v) ==> issues_view(v@) == analysis(issues_data@),
    {
        let mut k: usize = 0;
        while k < issues_data.len()
            invariant
                k <= issues_data@.len(),
                forall|m: int|
                    0 <= m < k && #[trigger] issues_data@[m].issue_type
                        == ConsistencyIssueType::NegativeAccountBalance ==> balance_computable(
                        issues_data@[m],
                    ),
            decreases issues_data.len() - k,
        {
            let r = &issues_data[k];
            if r.issue_type == ConsistencyIssueType::NegativeAccountBalance {
                match (&r.account_currency, &r.cash_balance, &r.total_value_at_date) {
                    (Some(_), Some(cash), Some(total)) => {
                        if total.checked_sub(cash).is_none() {
                            return None;
                        }
                    },
                    _ => {},
                }
            }
            k += 1;
        }
        Some(self.analyze(issues_data))
    }
}

impl Default for DataConsistencyCheck {
    fn default() -> (check: DataConsistencyCheck) {
        DataConsistencyCheck::new()
    }
}

} // verus!
