//! What holds of the data consistency analysis as a whole.

use vstd::multiset::Multiset;
use vstd::prelude::*;

use crate::data_consistency::{
    analysis, flow_issue_view, flow_query, issue_for, issue_id, issues_for_types, keys_of,
    lot_key, of_type, present_asset_ids, record_ids, report_order, valuation_issue_view,
    valuation_key, ConsistencyIssueInfo, ConsistencyIssueType,
};
use crate::fingerprint::lemma_data_hash_order_free;
use crate::health_model::{HealthCategory, HealthIssueView, NavigateActionView, Severity};

verus! {

broadcast use {vstd::multiset::group_multiset_axioms, vstd::seq_lib::group_to_multiset_ensures};

proof fn lemma_singleton_multiset<A>(x: A)
    ensures
        seq![x].to_multiset() =~= Multiset::<A>::empty().insert(x),
{
    assert(seq![x] =~= Seq::<A>::empty().push(x));
    assert(Seq::<A>::empty().to_multiset().len() == 0);
    assert(Seq::<A>::empty().to_multiset() =~= Multiset::<A>::empty());
}

/// A map of sequences that distributes over concatenation keeps equal multisets equal.
proof fn lemma_additive_keeps_multiset<A, B>(f: spec_fn(Seq<A>) -> Seq<B>, a: Seq<A>, b: Seq<A>)
    requires
        forall|s1: Seq<A>, s2: Seq<A>| #[trigger] f(s1 + s2) == f(s1) + f(s2),
        a.to_multiset() == b.to_multiset(),
    ensures
        f(a).to_multiset() == f(b).to_multiset(),
    decreases a.len(),
{
    assert(a.to_multiset().len() == a.len());
    assert(b.to_multiset().len() == b.len());
    if a.len() == 0 {
        assert(b.len() == 0);
        assert(a =~= b);
    } else {
        let x = a.last();
        let a1 = a.drop_last();
        assert(a =~= a1 + seq![x]);
        lemma_singleton_multiset(x);
        vstd::seq_lib::lemma_multiset_commutative(a1, seq![x]);
        assert(a.to_multiset().count(x) > 0);
        assert(b.to_multiset().count(x) > 0);
        assert(b.contains(x));
        let j = choose|j: int| 0 <= j < b.len() && b[j] == x;
        let l = b.take(j);
        let r = b.skip(j + 1);
        let b1 = l + r;
        assert(b =~= l + (seq![x] + r));
        vstd::seq_lib::lemma_multiset_commutative(l, seq![x] + r);
        vstd::seq_lib::lemma_multiset_commutative(seq![x], r);
        vstd::seq_lib::lemma_multiset_commutative(l, r);
        assert(a.to_multiset() == a1.to_multiset().add(seq![x].to_multiset()));
        assert(b.to_multiset() == l.to_multiset().add(seq![x].to_multiset().add(r.to_multiset())));
        assert(b1.to_multiset() == l.to_multiset().add(r.to_multiset()));
        assert forall|y: A| #[trigger] a1.to_multiset().count(y) == b1.to_multiset().count(y) by {
            let sx = seq![x].to_multiset();
            assert(a.to_multiset().count(y) == b.to_multiset().count(y));
            assert(a1.to_multiset().add(sx).count(y) == a1.to_multiset().count(y) + sx.count(y));
            assert(sx.add(r.to_multiset()).count(y) == sx.count(y) + r.to_multiset().count(y));
            assert(l.to_multiset().add(sx.add(r.to_multiset())).count(y) == l.to_multiset().count(y)
                + sx.add(r.to_multiset()).count(y));
            assert(l.to_multiset().add(r.to_multiset()).count(y) == l.to_multiset().count(y)
                + r.to_multiset().count(y));
        }
        assert(a1.to_multiset() =~= b1.to_multiset());
        lemma_additive_keeps_multiset(f, a1, b1);
        assert(f(a) == f(a1) + f(seq![x]));
        assert(f(b) == f(l) + f(seq![x] + r));
        assert(f(seq![x] + r) == f(seq![x]) + f(r));
        assert(f(b1) == f(l) + f(r));
        vstd::seq_lib::lemma_multiset_commutative(f(a1), f(seq![x]));
        vstd::seq_lib::lemma_multiset_commutative(f(l), f(seq![x]) + f(r));
        vstd::seq_lib::lemma_multiset_commutative(f(seq![x]), f(r));
        vstd::seq_lib::lemma_multiset_commutative(f(l), f(r));
        assert(f(a).to_multiset() =~= f(b).to_multiset());
    }
}

proof fn lemma_of_type_additive(s1: Seq<ConsistencyIssueInfo>, s2: Seq<ConsistencyIssueInfo>, t: ConsistencyIssueType)
    ensures
        of_type(s1 + s2, t) == of_type(s1, t) + of_type(s2, t),
    decreases s2.len(),
{
    if s2.len() == 0 {
        assert(s1 + s2 =~= s1);
        assert(of_type(s1, t) + of_type(s2, t) =~= of_type(s1, t));
    } else {
        assert((s1 + s2).drop_last() =~= s1 + s2.drop_last());
        assert((s1 + s2).last() == s2.last());
        lemma_of_type_additive(s1, s2.drop_last(), t);
        assert(of_type(s1 + s2, t) =~= of_type(s1, t) + of_type(s2, t));
    }
}

proof fn lemma_asset_ids_additive(s1: Seq<ConsistencyIssueInfo>, s2: Seq<ConsistencyIssueInfo>)
    ensures
        present_asset_ids(s1 + s2) == present_asset_ids(s1) + present_asset_ids(s2),
    decreases s2.len(),
{
    if s2.len() == 0 {
        assert(s1 + s2 =~= s1);
        assert(present_asset_ids(s1) + present_asset_ids(s2) =~= present_asset_ids(s1));
    } else {
        assert((s1 + s2).drop_last() =~= s1 + s2.drop_last());
        assert((s1 + s2).last() == s2.last());
        lemma_asset_ids_additive(s1, s2.drop_last());
        assert(present_asset_ids(s1 + s2) =~= present_asset_ids(s1) + present_asset_ids(s2));
    }
}

proof fn lemma_map_keeps_multiset<A, B>(g: spec_fn(A) -> B, a: Seq<A>, b: Seq<A>)
    requires
        a.to_multiset() == b.to_multiset(),
    ensures
        a.map_values(g).to_multiset() == b.map_values(g).to_multiset(),
{
    let f = |s: Seq<A>| s.map_values(g);
    assert forall|s1: Seq<A>, s2: Seq<A>| #[trigger] f(s1 + s2) == f(s1) + f(s2) by {
        assert((s1 + s2).map_values(g) =~= s1.map_values(g) + s2.map_values(g));
    }
    lemma_additive_keeps_multiset(f, a, b);
}

/// Two health issues that name the same problem: same id, data hash, severity, category, title,
/// message and count of affected records.
pub open spec fn same_identity(x: HealthIssueView, y: HealthIssueView) -> bool {
    &&& x.id == y.id
    &&& x.data_hash == y.data_hash
    &&& x.severity == y.severity
    &&& x.category == y.category
    &&& x.title == y.title
    &&& x.message == y.message
    &&& x.affected_count == y.affected_count
}

proof fn lemma_issue_for_order_free(
    t: ConsistencyIssueType,
    ga: Seq<ConsistencyIssueInfo>,
    gb: Seq<ConsistencyIssueInfo>,
)
    requires
        ga.to_multiset() == gb.to_multiset(),
    ensures
        same_identity(issue_for(t, ga), issue_for(t, gb)),
{
    reveal(issue_for);
    assert(ga.to_multiset().len() == ga.len());
    assert(gb.to_multiset().len() == gb.len());
    lemma_map_keeps_multiset(|i: ConsistencyIssueInfo| i.record_id@, ga, gb);
    lemma_data_hash_order_free(record_ids(ga), record_ids(gb));
    let lk = |i: ConsistencyIssueInfo| lot_key(i);
    lemma_map_keeps_multiset(|i: ConsistencyIssueInfo| lk(i), ga, gb);
    lemma_data_hash_order_free(keys_of(ga, lk), keys_of(gb, lk));
    let vk = |i: ConsistencyIssueInfo| valuation_key(i);
    lemma_map_keeps_multiset(|i: ConsistencyIssueInfo| vk(i), ga, gb);
    lemma_data_hash_order_free(keys_of(ga, vk), keys_of(gb, vk));
    let f = |s: Seq<ConsistencyIssueInfo>| present_asset_ids(s);
    assert forall|s1: Seq<ConsistencyIssueInfo>, s2: Seq<ConsistencyIssueInfo>| #[trigger] f(s1 + s2) == f(s1) + f(s2) by {
        lemma_asset_ids_additive(s1, s2);
    }
    lemma_additive_keeps_multiset(f, ga, gb);
    lemma_data_hash_order_free(present_asset_ids(ga), present_asset_ids(gb));
}

/// The issues that two collections of the same records give, in whatever order, name the same
/// problems: the same ids, data hashes, severities, categories, titles, messages and counts, in the same
/// order. Issue identity does not depend on the order of the records.
pub proof fn lemma_analysis_order_free(a: Seq<ConsistencyIssueInfo>, b: Seq<ConsistencyIssueInfo>)
    requires
        a.to_multiset() == b.to_multiset(),
    ensures
        analysis(a).len() == analysis(b).len(),
        forall|k: int| 0 <= k < analysis(a).len() ==> same_identity(#[trigger] analysis(a)[k], analysis(b)[k]),
{
    lemma_issues_for_types_order_free(a, b, report_order());
}

proof fn lemma_issues_for_types_order_free(
    a: Seq<ConsistencyIssueInfo>,
    b: Seq<ConsistencyIssueInfo>,
    ts: Seq<ConsistencyIssueType>,
)
    requires
        a.to_multiset() == b.to_multiset(),
    ensures
        issues_for_types(a, ts).len() == issues_for_types(b, ts).len(),
        forall|k: int| 0 <= k < issues_for_types(a, ts).len() ==> same_identity(
            #[trigger] issues_for_types(a, ts)[k],
            issues_for_types(b, ts)[k],
        ),
    decreases ts.len(),
{
    if ts.len() > 0 {
        lemma_issues_for_types_order_free(a, b, ts.drop_last());
        let t = ts.last();
        let f = |s: Seq<ConsistencyIssueInfo>| of_type(s, t);
        assert forall|s1: Seq<ConsistencyIssueInfo>, s2: Seq<ConsistencyIssueInfo>| #[trigger] f(s1 + s2) == f(s1) + f(s2) by {
            lemma_of_type_additive(s1, s2, t);
        }
        lemma_additive_keeps_multiset(f, a, b);
        let ga = of_type(a, t);
        let gb = of_type(b, t);
        assert(ga.to_multiset().len() == ga.len());
        assert(gb.to_multiset().len() == gb.len());
        lemma_issue_for_order_free(t, ga, gb);
    }
}

/// The severity reported for each type of issue.
pub open spec fn severity_of(t: ConsistencyIssueType) -> Severity {
    match t {
        ConsistencyIssueType::OrphanActivityAccount => Severity::Error,
        ConsistencyIssueType::OrphanActivityAsset => Severity::Error,
        ConsistencyIssueType::NegativePosition => Severity::Warning,
        ConsistencyIssueType::LegacyClassification => Severity::Info,
        ConsistencyIssueType::NegativeAccountBalance => Severity::Warning,
        ConsistencyIssueType::NegativeCashBalance => Severity::Info,
        ConsistencyIssueType::MissingLotDisposalForSell => Severity::Warning,
        ConsistencyIssueType::MissingGeneratedValuation => Severity::Warning,
        ConsistencyIssueType::IncompleteValuationValue => Severity::Warning,
        ConsistencyIssueType::IncompleteValuationBasis => Severity::Warning,
        ConsistencyIssueType::UnknownPerformanceFlowSource => Severity::Error,
    }
}

/// The prefix of the ids of each type of issue.
pub open spec fn id_prefix_of(t: ConsistencyIssueType) -> Seq<char> {
    match t {
        ConsistencyIssueType::OrphanActivityAccount => "orphan_activity_account"@,
        ConsistencyIssueType::OrphanActivityAsset => "orphan_activity_asset"@,
        ConsistencyIssueType::NegativePosition => "negative_position"@,
        ConsistencyIssueType::LegacyClassification => "legacy_classification"@,
        ConsistencyIssueType::NegativeAccountBalance => "negative_account_balance"@,
        ConsistencyIssueType::NegativeCashBalance => "negative_cash_balance"@,
        ConsistencyIssueType::MissingLotDisposalForSell => "missing_lot_disposal_for_sell"@,
        ConsistencyIssueType::MissingGeneratedValuation => "missing_generated_valuation"@,
        ConsistencyIssueType::IncompleteValuationValue => "incomplete_valuation_value"@,
        ConsistencyIssueType::IncompleteValuationBasis => "incomplete_valuation_basis"@,
        ConsistencyIssueType::UnknownPerformanceFlowSource => "unknown_performance_flow_source"@,
    }
}

/// Every issue of a type is a data-consistency issue with that type's severity, counts all the
/// records it was made from, and has the id `<prefix>:<data hash>`.
pub proof fn lemma_issue_shape(t: ConsistencyIssueType, g: Seq<ConsistencyIssueInfo>)
    ensures
        issue_for(t, g).category == HealthCategory::DataConsistency,
        issue_for(t, g).severity == severity_of(t),
        issue_for(t, g).affected_count == g.len() as u32,
        issue_for(t, g).data_hash is Some,
        issue_for(t, g).id == issue_id(id_prefix_of(t), issue_for(t, g).data_hash->0),
{
    reveal(issue_for);
}

/// The types in `ts` that have records in `infos`, in order.
pub open spec fn reported_types(
    infos: Seq<ConsistencyIssueInfo>,
    ts: Seq<ConsistencyIssueType>,
) -> Seq<ConsistencyIssueType>
    decreases ts.len(),
{
    if ts.len() == 0 {
        Seq::empty()
    } else {
        let rest = reported_types(infos, ts.drop_last());
        if of_type(infos, ts.last()).len() > 0 {
            rest.push(ts.last())
        } else {
            rest
        }
    }
}

/// The analysis gives exactly one issue per type of issue that has records, in report order,
/// each made from all the records of its type.
pub proof fn lemma_one_issue_per_type(infos: Seq<ConsistencyIssueInfo>)
    ensures
        analysis(infos).len() == reported_types(infos, report_order()).len(),
        forall|k: int|
            0 <= k < analysis(infos).len() ==> #[trigger] analysis(infos)[k] == issue_for(
                reported_types(infos, report_order())[k],
                of_type(infos, reported_types(infos, report_order())[k]),
            ),
{
    lemma_issues_match_types(infos, report_order());
}

proof fn lemma_issues_match_types(infos: Seq<ConsistencyIssueInfo>, ts: Seq<ConsistencyIssueType>)
    ensures
        issues_for_types(infos, ts).len() == reported_types(infos, ts).len(),
        forall|k: int|
            0 <= k < issues_for_types(infos, ts).len() ==> #[trigger] issues_for_types(infos, ts)[k]
                == issue_for(reported_types(infos, ts)[k], of_type(infos, reported_types(infos, ts)[k])),
    decreases ts.len(),
{
    if ts.len() > 0 {
        lemma_issues_match_types(infos, ts.drop_last());
    }
}

/// No records, no issues.
pub proof fn lemma_no_records_no_issues()
    ensures
        analysis(Seq::<ConsistencyIssueInfo>::empty()).len() == 0,
{
    lemma_one_issue_per_type(Seq::empty());
    let ts = report_order();
    assert forall|t: ConsistencyIssueType| of_type(Seq::<ConsistencyIssueInfo>::empty(), t).len() == 0 by {}
    lemma_nothing_reported(ts);
}

proof fn lemma_nothing_reported(ts: Seq<ConsistencyIssueType>)
    ensures
        reported_types(Seq::<ConsistencyIssueInfo>::empty(), ts).len() == 0,
    decreases ts.len(),
{
    if ts.len() > 0 {
        lemma_nothing_reported(ts.drop_last());
    }
}

/// The issue of unknown performance flows is the valuation issue of the same records with only
/// its navigation changed: it opens the transfer activities of those records.
pub proof fn lemma_flow_issue_is_valuation_issue(
    g: Seq<ConsistencyIssueInfo>,
    prefix: Seq<char>,
    severity: Severity,
    title: Seq<char>,
    plural: Seq<char>,
    message: Seq<char>,
)
    ensures
        ({
            let f = flow_issue_view(g, prefix, severity, title, plural, message);
            let v = valuation_issue_view(g, prefix, severity, title, plural, message);
            &&& f.id == v.id
            &&& f.data_hash == v.data_hash
            &&& f.severity == v.severity
            &&& f.category == v.category
            &&& f.title == v.title
            &&& f.message == v.message
            &&& f.details == v.details
            &&& f.affected_count == v.affected_count
            &&& f.affected_items == v.affected_items
            &&& f.fix_action == v.fix_action
            &&& f.navigate_action == Some(
                NavigateActionView {
                    route: "/activities"@,
                    query: Some(flow_query(g)),
                    label: "View Activities"@,
                },
            )
        }),
{
}

} // verus!
