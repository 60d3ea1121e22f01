use std::collections::hash_map::DefaultHasher;
use std::hash::{Hash, Hasher};

use wealthfolio::calendar::CalendarDate;
use wealthfolio::data_consistency::{
    build_unknown_performance_flow_issue, build_valuation_quality_issue, ConsistencyIssueInfo,
    ConsistencyIssueType, DataConsistencyCheck,
};
use wealthfolio::decimal::DecimalValue;
use wealthfolio::health_model::{AffectedItemKind, HealthCategory, HealthIssue, Severity};

fn base(issue_type: ConsistencyIssueType, record_id: &str, description: &str) -> ConsistencyIssueInfo {
    ConsistencyIssueInfo {
        issue_type,
        record_id: record_id.to_string(),
        description: description.to_string(),
        account_id: None,
        asset_id: None,
        first_negative_date: None,
        cash_balance: None,
        total_value_at_date: None,
        account_currency: None,
        activity_date: None,
        asset_symbol: None,
        asset_name: None,
        quantity: None,
        proceeds: None,
    }
}

fn date(y: i32, m: u32, d: u32) -> Option<CalendarDate> {
    CalendarDate::from_ymd(y, m, d)
}

fn dec(mantissa: i128, scale: u32) -> Option<DecimalValue> {
    DecimalValue::from_i128_with_scale(mantissa, scale)
}

fn std_hash(keys: &[&str]) -> String {
    let mut sorted: Vec<String> = keys.iter().map(|s| s.to_string()).collect();
    sorted.sort();
    let mut hasher = DefaultHasher::new();
    for k in &sorted {
        k.hash(&mut hasher);
    }
    format!("{:x}", hasher.finish())
}

fn query(issue: &HealthIssue) -> Vec<(String, String)> {
    issue
        .navigate_action
        .as_ref()
        .and_then(|a| a.query.as_ref())
        .map(|q| q.iter().map(|p| (p.key.clone(), p.value.clone())).collect())
        .unwrap_or_default()
}

fn negative_balance(record: &str, cash: i128, total: i128) -> ConsistencyIssueInfo {
    let mut i = base(ConsistencyIssueType::NegativeAccountBalance, record, "My Account");
    i.account_id = Some(record.to_string());
    i.first_negative_date = date(2025, 1, 10);
    i.cash_balance = dec(cash, 2);
    i.total_value_at_date = dec(total, 2);
    i.account_currency = Some("EUR".to_string());
    i
}

#[test]
fn check_identity() {
    let check = DataConsistencyCheck::new();
    assert_eq!(check.id(), "data_consistency");
    assert_eq!(check.category(), HealthCategory::DataConsistency);
    assert!(check.run().is_empty());
    assert_eq!(DataConsistencyCheck::default().id(), "data_consistency");
}

#[test]
fn orphan_issue_fields() {
    let check = DataConsistencyCheck::new();
    let issues = check.analyze(&[
        base(ConsistencyIssueType::OrphanActivityAccount, "act_2", "a"),
        base(ConsistencyIssueType::OrphanActivityAccount, "act_1", "b"),
    ]);
    assert_eq!(issues.len(), 1);
    let issue = &issues[0];
    let hash = std_hash(&["act_2", "act_1"]);
    assert_eq!(issue.id, format!("orphan_activity_account:{hash}"));
    assert_eq!(issue.data_hash.as_deref(), Some(hash.as_str()));
    assert_eq!(issue.title, "2 transactions reference missing accounts");
    assert_eq!(
        issue.message,
        "Some transactions point to accounts that no longer exist. This may cause calculation errors."
    );
    assert_eq!(issue.affected_count, 2);
    let action = issue.navigate_action.as_ref().unwrap();
    assert_eq!(action.route, "/activities");
    assert_eq!(action.label, "View Activities");
    assert_eq!(query(issue), vec![("filter".to_string(), "orphan".to_string())]);
    assert!(issue.details.is_none());
    assert!(issue.fix_action.is_none());
}

#[test]
fn orphan_asset_and_negative_position_titles() {
    let check = DataConsistencyCheck::new();
    let issues = check.analyze(&[
        base(ConsistencyIssueType::NegativePosition, "p1", "x"),
        base(ConsistencyIssueType::OrphanActivityAsset, "a1", "y"),
    ]);
    assert_eq!(issues.len(), 2);
    assert!(issues[0].id.starts_with("orphan_activity_asset:"));
    assert_eq!(issues[0].title, "Transaction references missing asset");
    assert_eq!(issues[0].severity, Severity::Error);
    assert!(issues[1].id.starts_with("negative_position:"));
    assert_eq!(issues[1].title, "Holding has negative quantity");
    let action = issues[1].navigate_action.as_ref().unwrap();
    assert_eq!(action.route, "/holdings");
    assert_eq!(action.label, "View Holdings");
    assert_eq!(query(&issues[1]), vec![("filter".to_string(), "negative".to_string())]);
}

#[test]
fn legacy_fix_action_lists_asset_ids() {
    let check = DataConsistencyCheck::new();
    let mut with_asset = base(ConsistencyIssueType::LegacyClassification, "r1", "x");
    with_asset.asset_id = Some("SEC:MSFT".to_string());
    let without_asset = base(ConsistencyIssueType::LegacyClassification, "r2", "y");
    let issues = check.analyze(&[with_asset, without_asset]);
    let issue = &issues[0];
    assert_eq!(issue.title, "2 assets have old classification data");
    assert_eq!(issue.affected_count, 2);
    let fix = issue.fix_action.as_ref().unwrap();
    assert_eq!(fix.id, "migrate_classifications");
    assert_eq!(fix.label, "Migrate Classifications");
    assert_eq!(fix.payload, vec!["SEC:MSFT".to_string()]);
    assert_eq!(issue.id, format!("legacy_classification:{}", std_hash(&["SEC:MSFT"])));
    assert!(issue.navigate_action.is_none());
}

#[test]
fn negative_balance_detail_lines() {
    let check = DataConsistencyCheck::new();
    let issues = check.analyze(&[negative_balance("acc_123", -5020, -5020)]);
    let issue = &issues[0];
    assert_eq!(issue.title, "Account has negative portfolio balance");
    assert_eq!(
        issue.details.as_deref(),
        Some(
            "My Account\nFirst went negative on 2025-01-10.\nCash: -50.20 EUR | Investments: 0.00 EUR\n→ Likely missing Transfer In or deposit before a buy transaction."
        )
    );
    let items = issue.affected_items.as_ref().unwrap();
    assert_eq!(items.len(), 1);
    assert_eq!(items[0].kind, AffectedItemKind::Account);
    assert_eq!(items[0].id, "acc_123");
    assert_eq!(items[0].name.as_deref(), Some("My Account"));
    assert!(query(issue).is_empty());
}

#[test]
fn negative_balance_likely_causes() {
    let check = DataConsistencyCheck::new();
    let buy_missing = check.analyze(&[negative_balance("a", 1000, -500)]);
    assert!(buy_missing[0]
        .details
        .as_deref()
        .unwrap()
        .ends_with("Cash: 10.00 EUR | Investments: -15.00 EUR\n→ Likely missing Buy transaction before a Sell."));
    let both = check.analyze(&[negative_balance("a", -1000, -3000)]);
    assert!(both[0]
        .details
        .as_deref()
        .unwrap()
        .ends_with("→ Multiple data issues — check activities around this date."));
}

#[test]
fn negative_balance_without_figures_has_no_details() {
    let check = DataConsistencyCheck::new();
    let mut i = negative_balance("a", -1, -1);
    i.account_currency = None;
    let mut j = negative_balance("b", -1, -1);
    j.first_negative_date = None;
    j.description = "Second".to_string();
    let issues = check.analyze(&[i.clone()]);
    assert!(issues[0].details.is_none());
    let issues = check.analyze(&[i, j]);
    assert_eq!(issues[0].title, "2 accounts have negative portfolio balance");
    assert_eq!(
        issues[0].details.as_deref(),
        Some("Second\n\nCash: -0.01 EUR | Investments: 0.00 EUR\n→ Likely missing Transfer In or deposit before a buy transaction.")
    );
}

#[test]
fn overflowing_balance_is_refused_by_try_analyze() {
    let check = DataConsistencyCheck::new();
    let mut i = base(ConsistencyIssueType::NegativeAccountBalance, "a", "d");
    i.account_currency = Some("USD".to_string());
    i.cash_balance = DecimalValue::from_parts(false, 0, u32::MAX, u32::MAX, u32::MAX);
    i.total_value_at_date = DecimalValue::from_parts(true, 0, u32::MAX, u32::MAX, u32::MAX);
    assert!(check.try_analyze(&[i.clone()]).is_none());
    i.account_currency = None;
    assert_eq!(check.try_analyze(&[i]).map(|v| v.len()), Some(1));
    let ok = check.try_analyze(&[negative_balance("a", -5020, -5020)]).unwrap();
    assert_eq!(ok.len(), 1);
}

#[test]
fn cash_balance_details() {
    let check = DataConsistencyCheck::new();
    let mut i = base(ConsistencyIssueType::NegativeCashBalance, "cash_1", "Chequing");
    i.first_negative_date = date(2024, 3, 5);
    i.cash_balance = dec(-12345, 3);
    i.account_currency = Some("CAD".to_string());
    let issues = check.analyze(&[i]);
    let issue = &issues[0];
    assert_eq!(issue.severity, Severity::Info);
    assert_eq!(issue.title, "Cash account had a negative balance");
    assert_eq!(
        issue.details.as_deref(),
        Some("Chequing\nFirst went negative on 2024-03-05.\nCash: -12.34 CAD\n→ This may be a bank overdraft or a missing deposit entry.")
    );
    assert!(issue.id.starts_with("negative_cash_balance:"));
}

#[test]
fn missing_lot_disposal_key_items_and_details() {
    let check = DataConsistencyCheck::new();
    let mut a = base(ConsistencyIssueType::MissingLotDisposalForSell, "sell-1", "Brokerage");
    a.account_id = Some("acc".to_string());
    a.activity_date = date(2026, 6, 1);
    a.asset_name = Some("Apple Inc.".to_string());
    a.quantity = dec(15, 1);
    a.proceeds = dec(291105, 3);
    let mut b = base(ConsistencyIssueType::MissingLotDisposalForSell, "sell-2", "Brokerage again");
    b.account_id = Some("acc".to_string());
    let issues = check.analyze(&[a, b]);
    let issue = &issues[0];
    assert_eq!(issue.title, "2 sales missing cost-basis matches");
    let hash = std_hash(&["sell-1:2026-06-01:1.5:291.105", "sell-2::0:0"]);
    assert_eq!(issue.id, format!("missing_lot_disposal_for_sell:{hash}"));
    let items = issue.affected_items.as_ref().unwrap();
    assert_eq!(items.len(), 1);
    assert_eq!(items[0].id, "acc");
    assert_eq!(items[0].name.as_deref(), Some("Brokerage"));
    assert_eq!(
        issue.details.as_deref(),
        Some(
            "Brokerage\nSell: Apple Inc. on 2026-06-01\nQuantity: 1.5 | Proceeds: 291.10\nReview the sell activity or rebuild account history so cost-basis lots are available.\n\nBrokerage again\nSell: asset on unknown date\nQuantity: unavailable | Proceeds: unavailable\nReview the sell activity or rebuild account history so cost-basis lots are available."
        )
    );
    assert_eq!(query(issue), vec![("types".to_string(), "SELL".to_string())]);
}

#[test]
fn valuation_items_prefer_assets_and_dedup() {
    let check = DataConsistencyCheck::new();
    let mut a = base(ConsistencyIssueType::IncompleteValuationBasis, "v1", "RRSP");
    a.asset_id = Some("aapl".to_string());
    a.account_id = Some("acc".to_string());
    a.activity_date = date(2026, 1, 2);
    let mut b = a.clone();
    b.record_id = "v2".to_string();
    b.asset_symbol = Some("AAPL".to_string());
    let mut c = base(ConsistencyIssueType::IncompleteValuationBasis, "v3", "RRSP");
    c.account_id = Some("acc".to_string());
    let issues = check.analyze(&[a, b, c]);
    let issue = &issues[0];
    assert_eq!(issue.title, "3 positions have incomplete cost basis");
    assert_eq!(issue.severity, Severity::Warning);
    let items = issue.affected_items.as_ref().unwrap();
    assert_eq!(items.len(), 2);
    assert_eq!(items[0].kind, AffectedItemKind::Asset);
    assert_eq!(items[0].symbol.as_deref(), Some("aapl"));
    assert_eq!(items[1].kind, AffectedItemKind::Account);
    assert_eq!(
        issue.details.as_deref(),
        Some("RRSP\nDate: 2026-01-02\n\nRRSP\nDate: 2026-01-02\n\nRRSP\nDate: unknown date")
    );
    let hash = std_hash(&["v1:2026-01-02", "v2:2026-01-02", "v3:"]);
    assert_eq!(issue.id, format!("incomplete_valuation_basis:{hash}"));
    assert!(query(issue).is_empty());
}

#[test]
fn single_valuation_issue_uses_singular_title() {
    let check = DataConsistencyCheck::new();
    let issues = check.analyze(&[
        base(ConsistencyIssueType::MissingGeneratedValuation, "m", "X"),
        base(ConsistencyIssueType::IncompleteValuationValue, "v", "X"),
    ]);
    assert_eq!(issues[0].title, "Generated valuation history is incomplete");
    assert_eq!(issues[1].title, "Valuation coverage is incomplete");
    assert!(issues[0].affected_items.is_none());
}

#[test]
fn unknown_flow_query_spans_dates_and_omits_account_when_several() {
    let check = DataConsistencyCheck::new();
    let mut a = base(ConsistencyIssueType::UnknownPerformanceFlowSource, "f1", "A");
    a.account_id = Some("acc_a".to_string());
    a.activity_date = date(2026, 3, 4);
    let mut b = base(ConsistencyIssueType::UnknownPerformanceFlowSource, "f2", "B");
    b.account_id = Some("acc_b".to_string());
    b.activity_date = date(2025, 12, 31);
    let c = base(ConsistencyIssueType::UnknownPerformanceFlowSource, "f3", "C");
    let issues = check.analyze(&[a, b, c]);
    let issue = &issues[0];
    assert_eq!(issue.severity, Severity::Error);
    assert_eq!(issue.title, "3 valuation rows have unknown transfer classification");
    let q = query(issue);
    assert!(q.contains(&("types".to_string(), "TRANSFER_IN,TRANSFER_OUT".to_string())));
    assert!(q.contains(&("from".to_string(), "2025-12-31".to_string())));
    assert!(q.contains(&("to".to_string(), "2026-03-04".to_string())));
    assert!(!q.iter().any(|(k, _)| k == "account"));

    let only = base(ConsistencyIssueType::UnknownPerformanceFlowSource, "f", "X");
    let issues = check.analyze(&[only]);
    assert_eq!(query(&issues[0]), vec![("types".to_string(), "TRANSFER_IN,TRANSFER_OUT".to_string())]);
    assert_eq!(issues[0].title, "Performance flow boundary is unknown");
}

#[test]
fn issues_come_in_report_order_and_ignore_input_order() {
    let check = DataConsistencyCheck::new();
    let records = vec![
        base(ConsistencyIssueType::UnknownPerformanceFlowSource, "f", "X"),
        base(ConsistencyIssueType::OrphanActivityAccount, "o1", "X"),
        base(ConsistencyIssueType::NegativePosition, "p", "X"),
        base(ConsistencyIssueType::OrphanActivityAccount, "o2", "X"),
    ];
    let forward = check.analyze(&records);
    let mut reversed = records.clone();
    reversed.reverse();
    let backward = check.analyze(&reversed);
    let prefixes: Vec<&str> = forward.iter().map(|i| i.id.split(':').next().unwrap()).collect();
    assert_eq!(
        prefixes,
        vec!["orphan_activity_account", "negative_position", "unknown_performance_flow_source"]
    );
    let ids_f: Vec<&String> = forward.iter().map(|i| &i.id).collect();
    let ids_b: Vec<&String> = backward.iter().map(|i| &i.id).collect();
    assert_eq!(ids_f, ids_b);
    assert_eq!(forward[0].affected_count, 2);
}

#[test]
fn flow_issue_is_valuation_issue_with_transfer_navigation() {
    let mut a = base(ConsistencyIssueType::UnknownPerformanceFlowSource, "f1", "TFSA");
    a.account_id = Some("acc".to_string());
    a.activity_date = date(2026, 2, 3);
    let mut b = a.clone();
    b.record_id = "f2".to_string();
    b.asset_id = Some("x".to_string());
    let refs = vec![&a, &b];
    let flow = build_unknown_performance_flow_issue("p", &refs, Severity::Error, "one", "many", "msg");
    let val = build_valuation_quality_issue("p", &refs, Severity::Error, "one", "many", "msg");
    assert_eq!(flow.id, val.id);
    assert_eq!(flow.data_hash, val.data_hash);
    assert_eq!(flow.title, "2 many");
    assert_eq!(flow.title, val.title);
    assert_eq!(flow.message, val.message);
    assert_eq!(flow.details, val.details);
    assert_eq!(flow.affected_count, val.affected_count);
    assert_eq!(flow.affected_items.as_ref().map(|v| v.len()), val.affected_items.as_ref().map(|v| v.len()));
    assert_eq!(query(&val), Vec::<(String, String)>::new());
    assert_eq!(
        query(&flow),
        vec![
            ("types".to_string(), "TRANSFER_IN,TRANSFER_OUT".to_string()),
            ("from".to_string(), "2026-02-03".to_string()),
            ("to".to_string(), "2026-02-03".to_string()),
            ("account".to_string(), "acc".to_string()),
        ]
    );
}
