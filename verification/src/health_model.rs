use vstd::prelude::*;

use crate::text::string_from;

verus! {

/// How serious a health issue is.
#[derive(Clone, Copy, Debug, PartialEq, Eq, Hash)]
pub enum Severity {
    Info,
    Warning,
    Error,
}

/// The area of the data that a health issue concerns.
#[derive(Clone, Copy, Debug, PartialEq, Eq, Hash)]
pub enum HealthCategory {
    DataConsistency,
}

/// What kind of record an affected item is.
#[derive(Clone, Copy, Debug, PartialEq, Eq, Hash)]
pub enum AffectedItemKind {
    Account,
    Asset,
}

/// A record that a health issue concerns.
#[derive(Clone, Debug)]
pub struct AffectedItem {
    pub kind: AffectedItemKind,
    pub id: String,
    pub name: Option<String>,
    pub symbol: Option<String>,
}

/// One key of a navigation query and its value.
#[derive(Clone, Debug)]
pub struct QueryParam {
    pub key: String,
    pub value: String,
}

/// Where the user is sent to look at a health issue.
#[derive(Clone, Debug)]
pub struct NavigateAction {
    pub route: String,
    pub query: Option<Vec<QueryParam>>,
    pub label: String,
}

/// A repair that the application can run for a health issue.
#[derive(Clone, Debug)]
pub struct FixAction {
    pub id: String,
    pub label: String,
    pub payload: Vec<String>,
}

/// A problem found in the user's data.
#[derive(Clone, Debug)]
pub struct HealthIssue {
    pub id: String,
    pub severity: Severity,
    pub category: HealthCategory,
    pub title: String,
    pub message: String,
    pub details: Option<String>,
    pub affected_count: u32,
    pub affected_items: Option<Vec<AffectedItem>>,
    pub navigate_action: Option<NavigateAction>,
    pub fix_action: Option<FixAction>,
    pub data_hash: Option<String>,
}

/// The contents of an optional string.
pub open spec fn opt_text(o: Option<String>) -> Option<Seq<char>> {
    match o {
        Some(s) => Some(s@),
        None => None,
    }
}

/// An affected item as plain values.
pub struct AffectedItemView {
    pub kind: AffectedItemKind,
    pub id: Seq<char>,
    pub name: Option<Seq<char>>,
    pub symbol: Option<Seq<char>>,
}

/// A navigation query as `(key, value)` pairs in order.
pub open spec fn query_view(q: Seq<QueryParam>) -> Seq<(Seq<char>, Seq<char>)> {
    q.map_values(|p: QueryParam| (p.key@, p.value@))
}

/// A navigation action as plain values.
pub struct NavigateActionView {
    pub route: Seq<char>,
    pub query: Option<Seq<(Seq<char>, Seq<char>)>>,
    pub label: Seq<char>,
}

/// A fix action as plain values.
pub struct FixActionView {
    pub id: Seq<char>,
    pub label: Seq<char>,
    pub payload: Seq<Seq<char>>,
}

/// A health issue as plain values.
pub struct HealthIssueView {
    pub id: Seq<char>,
    pub severity: Severity,
    pub category: HealthCategory,
    pub title: Seq<char>,
    pub message: Seq<char>,
    pub details: Option<Seq<char>>,
    pub affected_count: u32,
    pub affected_items: Option<Seq<AffectedItemView>>,
    pub navigate_action: Option<NavigateActionView>,
    pub fix_action: Option<FixActionView>,
    pub data_hash: Option<Seq<char>>,
}

impl View for AffectedItem {
    type V = AffectedItemView;

    open spec fn view(&self) -> AffectedItemView {
        AffectedItemView {
            kind: self.kind,
            id: self.id@,
            name: opt_text(self.name),
            symbol: opt_text(self.symbol),
        }
    }
}

/// The views of a sequence of affected items.
pub open spec fn items_view(items: Seq<AffectedItem>) -> Seq<AffectedItemView> {
    items.map_values(|i: AffectedItem| i@)
}

impl View for NavigateAction {
    type V = NavigateActionView;

    open spec fn view(&self) -> NavigateActionView {
        NavigateActionView {
            route: self.route@,
            query: match self.query {
                Some(q) => Some(query_view(q@)),
                None => None,
            },
            label: self.label@,
        }
    }
}

impl View for FixAction {
    type V = FixActionView;

    open spec fn view(&self) -> FixActionView {
        FixActionView {
            id: self.id@,
            label: self.label@,
            payload: self.payload@.map_values(|s: String| s@),
        }
    }
}

impl View for HealthIssue {
    type V = HealthIssueView;

    open spec fn view(&self) -> HealthIssueView {
        HealthIssueView {
            id: self.id@,
            severity: self.severity,
            category: self.category,
            title: self.title@,
            message: self.message@,
            details: opt_text(self.details),
            affected_count: self.affected_count,
            affected_items: match self.affected_items {
                Some(v) => Some(items_view(v@)),
                None => None,
            },
            navigate_action: match self.navigate_action {
                Some(a) => Some(a@),
                None => None,
            },
            fix_action: match self.fix_action {
                Some(f) => Some(f@),
                None => None,
            },
            data_hash: opt_text(self.data_hash),
        }
    }
}

/// The views of a sequence of health issues.
pub open spec fn issues_view(issues: Seq<HealthIssue>) -> Seq<HealthIssueView> {
    issues.map_values(|i: HealthIssue| i@)
}

/// A navigation to the activities page, filtered when `filter` is given.
pub open spec fn to_activities_view(filter: Option<Seq<char>>) -> NavigateActionView {
    NavigateActionView {
        route: "/activities"@,
        query: match filter {
            Some(f) => Some(seq![("filter"@, f)]),
            None => None,
        },
        label: "View Activities"@,
    }
}

/// A navigation to the holdings page, filtered when `filter` is given.
pub open spec fn to_holdings_view(filter: Option<Seq<char>>) -> NavigateActionView {
    NavigateActionView {
        route: "/holdings"@,
        query: match filter {
            Some(f) => Some(seq![("filter"@, f)]),
            None => None,
        },
        label: "View Holdings"@,
    }
}

impl NavigateAction {
    /// Opens the activities page, with the `filter` query when one is given.
    pub fn to_activities(filter: Option<&str>) -> (a: NavigateAction)
        ensures
            a@ == to_activities_view(match filter {
                Some(f) => Some(f@),
                None => None,
            }),
    {
        let query = match filter {
            Some(f) => Some(vec![QueryParam { key: string_from("filter"), value: string_from(f) }]),
            None => None,
        };
        let a = NavigateAction {
            route: string_from("/activities"),
            query,
            label: string_from("View Activities"),
        };
        proof {
            if a.query is Some {
                assert(query_view(a.query->0@) =~= seq![("filter"@, filter->0@)]);
            }
        }
        a
    }

    /// Opens the holdings page, with the `filter` query when one is given.
    pub fn to_holdings(filter: Option<&str>) -> (a: NavigateAction)
        ensures
            a@ == to_holdings_view(match filter {
                Some(f) => Some(f@),
                None => None,
            }),
    {
        let query = match filter {
            Some(f) => Some(vec![QueryParam { key: string_from("filter"), value: string_from(f) }]),
            None => None,
        };
        let a = NavigateAction {
            route: string_from("/holdings"),
            query,
            label: string_from("View Holdings"),
        };
        proof {
            if a.query is Some {
                assert(query_view(a.query->0@) =~= seq![("filter"@, filter->0@)]);
            }
        }
        a
    }
}

/// The item for an account.
pub open spec fn account_item_view(id: Seq<char>, name: Seq<char>) -> AffectedItemView {
    AffectedItemView { kind: AffectedItemKind::Account, id, name: Some(name), symbol: None }
}

/// The item for an asset.
pub open spec fn asset_item_view(
    id: Seq<char>,
    symbol: Seq<char>,
    name: Option<Seq<char>>,
) -> AffectedItemView {
    AffectedItemView { kind: AffectedItemKind::Asset, id, name, symbol: Some(symbol) }
}

impl AffectedItem {
    /// An account, shown under `name`.
    pub fn account(id: String, name: String) -> (i: AffectedItem)
        ensures
            i@ == account_item_view(id@, name@),
    {
        AffectedItem { kind: AffectedItemKind::Account, id, name: Some(name), symbol: None }
    }

    /// An asset, shown by its symbol and, when known, its name.
    pub fn asset_with_name(id: String, symbol: String, name: Option<String>) -> (i: AffectedItem)
        ensures
            i@ == asset_item_view(id@, symbol@, opt_text(name)),
    {
        AffectedItem { kind: AffectedItemKind::Asset, id, name, symbol: Some(symbol) }
    }
}

/// The fix that migrates the legacy classification data of the given assets.
pub open spec fn migrate_classifications_view(asset_ids: Seq<Seq<char>>) -> FixActionView {
    FixActionView {
        id: "migrate_classifications"@,
        label: "Migrate Classifications"@,
        payload: asset_ids,
    }
}

impl FixAction {
    /// Migrates the legacy sector and country data of these assets to the classification system.
    pub fn migrate_classifications(asset_ids: Vec<String>) -> (f: FixAction)
        ensures
            f@ == migrate_classifications_view(asset_ids@.map_values(|s: String| s@)),
    {
        FixAction {
            id: string_from("migrate_classifications"),
            label: string_from("Migrate Classifications"),
            payload: asset_ids,
        }
    }
}

} // verus!
