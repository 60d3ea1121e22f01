use wealthfolio::calendar::CalendarDate;
use wealthfolio::data_consistency::{ConsistencyIssueInfo, ConsistencyIssueType, DataConsistencyCheck};
use wealthfolio::decimal::DecimalValue;
use wealthfolio::health_model::{HealthCategory, HealthIssue, QueryParam, Severity};

fn info(issue_type: ConsistencyIssueType, record_id: &str, description: &str) -> ConsistencyIssueInfo {
    ConsistencyIssueInfo {
        issue_type,
        record_id: record_id.to_string(),
        description: description.to_string(),
        account_id: None,
        asset_id: None,
        first_negative_date: None,
        cash_balance: None,
        total_value_at_date: None,
        account_currency: None,
        activity_date: None,
        asset_symbol: None,
        asset_name: None,
        quantity: None,
        proceeds: None,
    }
}

fn date(y: i32, m: u32, d: u32) -> CalendarDate {
    CalendarDate::from_ymd(y, m, d).unwrap()
}

fn dec(mantissa: i128, scale: u32) -> DecimalValue {
    DecimalValue::from_i128_with_scale(mantissa, scale).unwrap()
}

fn query_value<'a>(query: &'a [QueryParam], key: &str) -> Option<&'a str> {
    query.iter().find(|p| p.key == key).map(|p| p.value.as_str())
}

fn find_by_prefix<'a>(issues: &'a [HealthIssue], prefix: &str) -> Option<&'a HealthIssue> {
    issues.iter().find(|issue| issue.id.starts_with(prefix))
}

#[test]
fn test_orphan_activity_account() {
    let check = DataConsistencyCheck::new();
    let mut i = info(
        ConsistencyIssueType::OrphanActivityAccount,
        "act_123",
        "Activity references deleted account",
    );
    i.account_id = Some("acc_deleted".to_string());
    let issues_data = vec![i];

    let issues = check.analyze(&issues_data);
    assert_eq!(issues.len(), 1);
    assert_eq!(issues[0].severity, Severity::Error);
    assert_eq!(issues[0].category, HealthCategory::DataConsistency);
}

#[test]
fn test_negative_position() {
    let check = DataConsistencyCheck::new();
    let mut i = info(ConsistencyIssueType::NegativePosition, "pos_123", "Position has negative quantity");
    i.account_id = Some("acc_1".to_string());
    i.asset_id = Some("SEC:AAPL:XNAS".to_string());
    let issues_data = vec![i];

    let issues = check.analyze(&issues_data);
    assert_eq!(issues.len(), 1);
    assert_eq!(issues[0].severity, Severity::Warning);
}

#[test]
fn test_legacy_classification() {
    let check = DataConsistencyCheck::new();
    let mut i = info(
        ConsistencyIssueType::LegacyClassification,
        "SEC:AAPL:XNAS",
        "Asset has legacy sector data",
    );
    i.asset_id = Some("SEC:AAPL:XNAS".to_string());
    let issues_data = vec![i];

    let issues = check.analyze(&issues_data);
    assert_eq!(issues.len(), 1);
    assert_eq!(issues[0].severity, Severity::Info);
    assert!(issues[0].fix_action.is_some());
}

#[test]
fn test_multiple_issue_types() {
    let check = DataConsistencyCheck::new();
    let issues_data = vec![
        info(ConsistencyIssueType::OrphanActivityAccount, "act_1", "Orphan 1"),
        info(ConsistencyIssueType::OrphanActivityAccount, "act_2", "Orphan 2"),
        info(ConsistencyIssueType::NegativePosition, "pos_1", "Negative"),
    ];

    let issues = check.analyze(&issues_data);
    // One issue for the orphan accounts (2 records), one for the negative position (1 record).
    assert_eq!(issues.len(), 2);
}

#[test]
fn test_negative_account_balance() {
    let check = DataConsistencyCheck::new();
    let mut i = info(ConsistencyIssueType::NegativeAccountBalance, "acc_123", "My Account");
    i.account_id = Some("acc_123".to_string());
    i.first_negative_date = Some(date(2025, 1, 10));
    i.cash_balance = Some(dec(-5020, 2));
    i.total_value_at_date = Some(dec(-5020, 2));
    i.account_currency = Some("EUR".to_string());
    let issues_data = vec![i];

    let issues = check.analyze(&issues_data);
    assert_eq!(issues.len(), 1);
    assert_eq!(issues[0].severity, Severity::Warning);
    assert_eq!(issues[0].category, HealthCategory::DataConsistency);
    assert!(issues[0].navigate_action.is_some());
}

#[test]
fn test_missing_lot_disposal_for_sell() {
    let check = DataConsistencyCheck::new();
    let mut i = info(
        ConsistencyIssueType::MissingLotDisposalForSell,
        "sell-aapl",
        "Business Investment",
    );
    i.account_id = Some("business".to_string());
    i.asset_id = Some("aapl".to_string());
    i.account_currency = Some("USD".to_string());
    i.activity_date = Some(date(2026, 6, 1));
    i.asset_symbol = Some("AAPL".to_string());
    i.asset_name = Some("Apple Inc.".to_string());
    i.quantity = Some(dec(1, 0));
    i.proceeds = Some(dec(29110598755, 8));
    let issues_data = vec![i];

    let issues = check.analyze(&issues_data);

    assert_eq!(issues.len(), 1);
    assert_eq!(issues[0].severity, Severity::Warning);
    assert_eq!(issues[0].category, HealthCategory::DataConsistency);
    assert_eq!(issues[0].title, "Sale missing cost-basis match");
    assert!(issues[0].message.contains("realized gain/loss and performance attribution"));
    assert!(issues[0]
        .details
        .as_deref()
        .is_some_and(|details| details.contains("AAPL on 2026-06-01")));
    let navigate_action = issues[0].navigate_action.as_ref().unwrap();
    assert_eq!(navigate_action.route, "/activities");
    assert_eq!(
        navigate_action.query.as_deref().and_then(|query| query_value(query, "types")),
        Some("SELL")
    );
}

fn valuation_issue(issue_type: ConsistencyIssueType, record_id: &str) -> ConsistencyIssueInfo {
    let mut i = info(issue_type, record_id, "TFSA");
    i.account_id = Some("acc_tfsa".to_string());
    i.activity_date = Some(date(2026, 6, 1));
    i
}

#[test]
fn valuation_quality_plural_titles_are_specific() {
    let check = DataConsistencyCheck::new();
    let issues_data = vec![
        valuation_issue(ConsistencyIssueType::MissingGeneratedValuation, "missing-1"),
        valuation_issue(ConsistencyIssueType::MissingGeneratedValuation, "missing-2"),
        valuation_issue(ConsistencyIssueType::IncompleteValuationValue, "value-1"),
        valuation_issue(ConsistencyIssueType::IncompleteValuationValue, "value-2"),
        valuation_issue(ConsistencyIssueType::IncompleteValuationBasis, "basis-1"),
        valuation_issue(ConsistencyIssueType::IncompleteValuationBasis, "basis-2"),
        valuation_issue(ConsistencyIssueType::UnknownPerformanceFlowSource, "flow-1"),
        valuation_issue(ConsistencyIssueType::UnknownPerformanceFlowSource, "flow-2"),
    ];

    let issues = check.analyze(&issues_data);
    let title_for = |prefix: &str| find_by_prefix(&issues, prefix).map(|issue| issue.title.as_str());

    assert_eq!(
        title_for("missing_generated_valuation:"),
        Some("2 generated valuation rows are missing")
    );
    assert_eq!(
        title_for("incomplete_valuation_value:"),
        Some("2 valuation rows have incomplete market value")
    );
    assert_eq!(
        title_for("incomplete_valuation_basis:"),
        Some("2 positions have incomplete cost basis")
    );
    assert_eq!(
        title_for("unknown_performance_flow_source:"),
        Some("2 valuation rows have unknown transfer classification")
    );

    let unknown_flow_issue =
        find_by_prefix(&issues, "unknown_performance_flow_source:").expect("unknown flow issue");
    let navigate_query = unknown_flow_issue
        .navigate_action
        .as_ref()
        .and_then(|action| action.query.as_deref())
        .expect("unknown flow activity query");
    assert_eq!(query_value(navigate_query, "types"), Some("TRANSFER_IN,TRANSFER_OUT"));
    assert!(query_value(navigate_query, "q").is_none());
    assert_eq!(query_value(navigate_query, "account"), Some("acc_tfsa"));
    assert_eq!(query_value(navigate_query, "from"), Some("2026-06-01"));
    assert_eq!(query_value(navigate_query, "to"), Some("2026-06-01"));
}

#[test]
fn test_no_issues() {
    let check = DataConsistencyCheck::new();
    let issues = check.analyze(&[]);
    assert!(issues.is_empty());
}
