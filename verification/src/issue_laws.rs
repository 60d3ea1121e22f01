//! What the issues of the data consistency analysis say of their records: the accounts and
//! assets they list, and the dates and account their navigation opens.

use vstd::prelude::*;

use crate::calendar::CalendarDate;
use crate::data_consistency::{
    account_spread, date_range, flow_query, lot_issue_view, lot_items, present_account_ids,
    valuation_issue_view, valuation_item, valuation_item_key, valuation_item_keys,
    valuation_items, AccountSpread, ConsistencyIssueInfo,
};
use crate::health_model::{opt_text, AffectedItemKind, AffectedItemView, Severity};

verus! {

/// Whether some record of `g` has an activity date.
pub open spec fn some_dated(g: Seq<ConsistencyIssueInfo>) -> bool {
    exists|k: int| 0 <= k < g.len() && (#[trigger] g[k]).activity_date is Some
}

/// Whether `lo` and `hi` are the earliest and the latest activity dates of the records of `g`:
/// every dated record lies between them, and each is some record's date.
pub open spec fn date_bounds(g: Seq<ConsistencyIssueInfo>, lo: CalendarDate, hi: CalendarDate) -> bool {
    &&& forall|k: int|
        0 <= k < g.len() && (#[trigger] g[k]).activity_date is Some ==> lo.on_or_before(
            g[k].activity_date->0,
        ) && g[k].activity_date->0.on_or_before(hi)
    &&& exists|i: int| 0 <= i < g.len() && (#[trigger] g[i]).activity_date == Some(lo)
    &&& exists|j: int| 0 <= j < g.len() && (#[trigger] g[j]).activity_date == Some(hi)
}

proof fn lemma_query_keys()
    ensures
        "types"@ != "from"@,
        "types"@ != "to"@,
        "types"@ != "account"@,
        "from"@ != "to"@,
        "from"@ != "account"@,
        "to"@ != "account"@,
{
    reveal_strlit("types");
    reveal_strlit("from");
    reveal_strlit("to");
    reveal_strlit("account");
    assert("types"@[0] != "from"@[0]);
    assert("types"@[1] != "to"@[1]);
    assert("types"@[0] != "account"@[0]);
    assert("from"@[0] != "to"@[0]);
    assert("from"@[0] != "account"@[0]);
    assert("to"@[0] != "account"@[0]);
}

proof fn lemma_date_range(g: Seq<ConsistencyIssueInfo>)
    ensures
        date_range(g) is None <==> !some_dated(g),
        date_range(g) matches Some(r) ==> date_bounds(g, r.0, r.1),
    decreases g.len(),
{
    if g.len() > 0 {
        let t = g.drop_last();
        let n = g.len() - 1;
        lemma_date_range(t);
        assert forall|k: int| 0 <= k < t.len() implies #[trigger] t[k] == g[k] by {}
        assert(g[n] == g.last());
        if some_dated(t) {
            let k = choose|k: int| 0 <= k < t.len() && (#[trigger] t[k]).activity_date is Some;
            assert(g[k].activity_date is Some);
        }
        match g.last().activity_date {
            None => {
                if some_dated(g) {
                    let k = choose|k: int| 0 <= k < g.len() && (#[trigger] g[k]).activity_date is Some;
                    assert(t[k].activity_date is Some);
                }
                if date_range(t) is Some {
                    let (lo, hi) = date_range(t)->0;
                    let i = choose|i: int| 0 <= i < t.len() && (#[trigger] t[i]).activity_date == Some(lo);
                    let j = choose|j: int| 0 <= j < t.len() && (#[trigger] t[j]).activity_date == Some(hi);
                    assert(g[i].activity_date == Some(lo));
                    assert(g[j].activity_date == Some(hi));
                    assert forall|k: int|
                        0 <= k < g.len() && (#[trigger] g[k]).activity_date is Some implies lo.on_or_before(
                        g[k].activity_date->0,
                    ) && g[k].activity_date->0.on_or_before(hi) by {
                        assert(k < n);
                        assert(t[k].activity_date is Some);
                    }
                }
            },
            Some(d) => {
                assert(g[n].activity_date is Some);
                match date_range(t) {
                    None => {
                        assert forall|k: int|
                            0 <= k < g.len() && (#[trigger] g[k]).activity_date is Some implies d.on_or_before(
                            g[k].activity_date->0,
                        ) && g[k].activity_date->0.on_or_before(d) by {
                            if k < n {
                                assert(t[k].activity_date is Some);
                            }
                        }
                        assert(g[n].activity_date == Some(d));
                    },
                    Some((lo, hi)) => {
                        let lo2 = if lo.on_or_before(d) {
                            lo
                        } else {
                            d
                        };
                        let hi2 = if d.on_or_before(hi) {
                            hi
                        } else {
                            d
                        };
                        assert(date_range(g) == Some((lo2, hi2)));
                        let i = choose|i: int| 0 <= i < t.len() && (#[trigger] t[i]).activity_date == Some(lo);
                        let j = choose|j: int| 0 <= j < t.len() && (#[trigger] t[j]).activity_date == Some(hi);
                        assert(g[i].activity_date == Some(lo));
                        assert(g[j].activity_date == Some(hi));
                        assert(g[n].activity_date == Some(d));
                        assert forall|k: int|
                            0 <= k < g.len() && (#[trigger] g[k]).activity_date is Some implies lo2.on_or_before(
                            g[k].activity_date->0,
                        ) && g[k].activity_date->0.on_or_before(hi2) by {
                            if k < n {
                                assert(t[k].activity_date is Some);
                            }
                        }
                    },
                }
            },
        }
    }
}

/// The navigation of the issue of unknown performance flows opens the transfer activities from
/// the earliest to the latest activity date of its records, whatever their order: its query
/// first names the transfer types, then, when some record is dated, `from` the earliest and
/// `to` the latest date, each the date of some record and bounding the dates of all of them.
pub proof fn lemma_flow_query_dates(g: Seq<ConsistencyIssueInfo>)
    ensures
        flow_query(g).len() >= 1,
        flow_query(g)[0] == ("types"@, "TRANSFER_IN,TRANSFER_OUT"@),
        some_dated(g) ==> flow_query(g).len() >= 3 && exists|lo: CalendarDate, hi: CalendarDate|
            #![trigger lo.text(), hi.text()]
            date_bounds(g, lo, hi) && flow_query(g)[1] == ("from"@, lo.text()) && flow_query(g)[2]
                == ("to"@, hi.text()),
        !some_dated(g) ==> forall|k: int|
            0 <= k < flow_query(g).len() ==> (#[trigger] flow_query(g)[k]).0 != "from"@
                && flow_query(g)[k].0 != "to"@,
{
    lemma_date_range(g);
    lemma_account_spread(g);
    lemma_query_keys();
    if some_dated(g) {
        let (lo, hi) = date_range(g)->0;
        assert(date_bounds(g, lo, hi) && flow_query(g)[1] == ("from"@, lo.text()) && flow_query(g)[2]
            == ("to"@, hi.text()));
    } else {
        assert forall|k: int| 0 <= k < flow_query(g).len() implies (#[trigger] flow_query(g)[k]).0
            != "from"@ && flow_query(g)[k].0 != "to"@ by {
            if k > 0 {
                assert(flow_query(g)[k].0 == "account"@);
            }
        }
    }
}

/// Whether every record of `g` that names an account names `a`, and some does.
pub open spec fn only_account(g: Seq<ConsistencyIssueInfo>, a: Seq<char>) -> bool {
    &&& forall|k: int|
        0 <= k < g.len() && (#[trigger] g[k]).account_id is Some ==> g[k].account_id->0@ == a
    &&& exists|k: int| 0 <= k < g.len() && (#[trigger] g[k]).account_id is Some
}

/// Whether two records of `g` name different accounts.
pub open spec fn several_accounts(g: Seq<ConsistencyIssueInfo>) -> bool {
    exists|i: int, j: int|
        0 <= i < g.len() && 0 <= j < g.len() && (#[trigger] g[i]).account_id is Some && (#[trigger] g[j]).account_id
            is Some && g[i].account_id->0@ != g[j].account_id->0@
}

proof fn lemma_account_spread(g: Seq<ConsistencyIssueInfo>)
    ensures
        account_spread(g) matches AccountSpread::Single(a) ==> only_account(g, a),
        account_spread(g) is Several <==> several_accounts(g),
        account_spread(g) is NoAccount ==> forall|k: int|
            0 <= k < g.len() ==> (#[trigger] g[k]).account_id is None,
    decreases g.len(),
{
    if g.len() > 0 {
        let t = g.drop_last();
        let n = g.len() - 1;
        lemma_account_spread(t);
        assert forall|k: int| 0 <= k < t.len() implies #[trigger] t[k] == g[k] by {}
        assert(g[n] == g.last());
        if several_accounts(t) {
            let (i, j) = choose|i: int, j: int|
                0 <= i < t.len() && 0 <= j < t.len() && (#[trigger] t[i]).account_id is Some && (#[trigger] t[j]).account_id
                    is Some && t[i].account_id->0@ != t[j].account_id->0@;
            assert(g[i] == t[i] && g[j] == t[j]);
        }
        if several_accounts(g) {
            let (i, j) = choose|i: int, j: int|
                0 <= i < g.len() && 0 <= j < g.len() && (#[trigger] g[i]).account_id is Some && (#[trigger] g[j]).account_id
                    is Some && g[i].account_id->0@ != g[j].account_id->0@;
            if i < n && j < n {
                assert(t[i] == g[i] && t[j] == g[j]);
            }
        }
        match account_spread(t) {
            AccountSpread::Single(b) => {
                let w = choose|k: int| 0 <= k < t.len() && (#[trigger] t[k]).account_id is Some;
                assert(g[w].account_id is Some);
                assert(g[w].account_id->0@ == b);
                if g.last().account_id is Some && g.last().account_id->0@ != b {
                    assert(several_accounts(g));
                }
            },
            AccountSpread::NoAccount => {
                if g.last().account_id is Some {
                    assert(g[n].account_id is Some);
                }
            },
            AccountSpread::Several => {},
        }
        if account_spread(g) is NoAccount {
            assert forall|k: int| 0 <= k < g.len() implies (#[trigger] g[k]).account_id is None by {
                if k < n {
                    assert(t[k] == g[k]);
                }
            }
        }
        if account_spread(g) is Single {
            let a = account_spread(g)->Single_0;
            assert forall|k: int| 0 <= k < g.len() && (#[trigger] g[k]).account_id is Some implies g[k].account_id->0@
                == a by {
                if k < n {
                    assert(t[k].account_id is Some);
                }
            }
        }
    }
}

/// The navigation of the issue of unknown performance flows names the account only when all
/// the records that name one name the same: then its query ends with that account; when two
/// records name different accounts, or none names one, the query names no account.
pub proof fn lemma_flow_query_account(g: Seq<ConsistencyIssueInfo>, a: Seq<char>)
    ensures
        only_account(g, a) ==> flow_query(g).last() == ("account"@, a),
        !(exists|b: Seq<char>| only_account(g, b)) ==> forall|k: int|
            0 <= k < flow_query(g).len() ==> (#[trigger] flow_query(g)[k]).0 != "account"@,
{
    lemma_account_spread(g);
    lemma_date_range(g);
    lemma_query_keys();
    if only_account(g, a) {
        let w = choose|k: int| 0 <= k < g.len() && (#[trigger] g[k]).account_id is Some;
        assert(g[w].account_id->0@ == a);
        if several_accounts(g) {
            let (i, j) = choose|i: int, j: int|
                0 <= i < g.len() && 0 <= j < g.len() && (#[trigger] g[i]).account_id is Some && (#[trigger] g[j]).account_id
                    is Some && g[i].account_id->0@ != g[j].account_id->0@;
            assert(false);
        }
        assert(account_spread(g) is Single);
    }
    if !(exists|b: Seq<char>| only_account(g, b)) {
        if account_spread(g) is Single {
            assert(only_account(g, account_spread(g)->Single_0));
        }
    }
}

/// Whether record `i` names account `a`.
pub open spec fn names_account(i: ConsistencyIssueInfo, a: Seq<char>) -> bool {
    i.account_id is Some && i.account_id->0@ == a
}

proof fn lemma_present_account_ids(g: Seq<ConsistencyIssueInfo>)
    ensures
        forall|a: Seq<char>|
            present_account_ids(g).contains(a) <==> exists|k: int|
                0 <= k < g.len() && names_account(#[trigger] g[k], a),
    decreases g.len(),
{
    if g.len() > 0 {
        let t = g.drop_last();
        let n = g.len() - 1;
        lemma_present_account_ids(t);
        assert forall|k: int| 0 <= k < t.len() implies #[trigger] t[k] == g[k] by {}
        assert(g[n] == g.last());
        assert forall|a: Seq<char>|
            present_account_ids(g).contains(a) <==> exists|k: int|
                0 <= k < g.len() && names_account(#[trigger] g[k], a) by {
            let p = present_account_ids(g);
            let pt = present_account_ids(t);
            if p.contains(a) {
                let x = choose|x: int| 0 <= x < p.len() && p[x] == a;
                if x < pt.len() {
                    assert(pt[x] == a);
                    assert(pt.contains(a));
                    let k = choose|k: int| 0 <= k < t.len() && names_account(#[trigger] t[k], a);
                    assert(names_account(g[k], a));
                } else {
                    assert(names_account(g[n], a));
                }
            }
            if exists|k: int| 0 <= k < g.len() && names_account(#[trigger] g[k], a) {
                let k = choose|k: int| 0 <= k < g.len() && names_account(#[trigger] g[k], a);
                if k < n {
                    assert(names_account(t[k], a));
                    assert(pt.contains(a));
                    let x = choose|x: int| 0 <= x < pt.len() && pt[x] == a;
                    if g.last().account_id is Some {
                        assert(p == pt.push(g.last().account_id->0@));
                        assert(p[x] == pt[x]);
                    } else {
                        assert(p == pt);
                    }
                    assert(p[x] == a);
                } else {
                    assert(p[p.len() - 1] == a);
                }
            }
        }
    }
}

/// Whether `k` is the first record of `g` that names account `a`.
pub open spec fn first_of_account(g: Seq<ConsistencyIssueInfo>, k: int, a: Seq<char>) -> bool {
    &&& 0 <= k < g.len()
    &&& names_account(g[k], a)
    &&& forall|m: int| 0 <= m < k ==> !names_account(#[trigger] g[m], a)
}

proof fn lemma_lot_items(g: Seq<ConsistencyIssueInfo>)
    ensures
        forall|j: int|
            0 <= j < lot_items(g).len() ==> (#[trigger] lot_items(g)[j]).kind == AffectedItemKind::Account,
        items_from_first_records(g, lot_items(g)),
        forall|a: Seq<char>|
            #![trigger present_account_ids(g).contains(a)]
            present_account_ids(g).contains(a) ==> exists|j: int|
                0 <= j < lot_items(g).len() && (#[trigger] lot_items(g)[j]).id == a,
        distinct_item_ids(lot_items(g)),
    decreases g.len(),
{
    if g.len() > 0 {
        let t = g.drop_last();
        let n = g.len() - 1;
        lemma_lot_items(t);
        lemma_present_account_ids(t);
        lemma_present_account_ids(g);
        assert forall|k: int| 0 <= k < t.len() implies #[trigger] t[k] == g[k] by {}
        assert(g[n] == g.last());
        let it = lot_items(t);
        let ig = lot_items(g);
        assert forall|j: int| 0 <= j < ig.len() implies (#[trigger] ig[j]).kind == AffectedItemKind::Account by {
            if j < it.len() {
                assert(ig[j] == it[j]);
            }
        }
        assert forall|j: int| 0 <= j < ig.len() implies exists|k: int|
            first_of_account(g, k, (#[trigger] ig[j]).id) && ig[j].name == Some((#[trigger] g[k]).description@) by {
            if j < it.len() {
                assert(ig[j] == it[j]);
                let k = choose|k: int| first_of_account(t, k, it[j].id) && it[j].name == Some((#[trigger] t[k]).description@);
                assert forall|m: int| 0 <= m < k implies !names_account(#[trigger] g[m], ig[j].id) by {
                    assert(t[m] == g[m]);
                }
                assert(first_of_account(g, k, ig[j].id) && ig[j].name == Some(g[k].description@));
            } else {
                let a = g.last().account_id->0@;
                assert(!present_account_ids(t).contains(a));
                assert forall|m: int| 0 <= m < n implies !names_account(#[trigger] g[m], a) by {
                    if names_account(g[m], a) {
                        assert(names_account(t[m], a));
                    }
                }
                assert(first_of_account(g, n, ig[j].id) && ig[j].name == Some(g[n].description@));
            }
        }
        assert forall|a: Seq<char>|
            #![trigger present_account_ids(g).contains(a)]
            present_account_ids(g).contains(a) implies exists|j: int|
                0 <= j < ig.len() && (#[trigger] ig[j]).id == a by {
            let k = choose|k: int| 0 <= k < g.len() && names_account(#[trigger] g[k], a);
            if k < n && present_account_ids(t).contains(a) {
                let j = choose|j: int| 0 <= j < it.len() && (#[trigger] it[j]).id == a;
                assert(ig[j] == it[j]);
            } else if k < n {
                assert(names_account(t[k], a));
            } else if present_account_ids(t).contains(a) {
                let j = choose|j: int| 0 <= j < it.len() && (#[trigger] it[j]).id == a;
                assert(ig[j] == it[j]);
            } else {
                assert(ig[ig.len() - 1].id == a);
            }
        }
        assert forall|i: int, j: int| 0 <= i < j < ig.len() implies (#[trigger] ig[i]).id != (#[trigger] ig[j]).id by {
            if j < it.len() {
                assert(ig[i] == it[i] && ig[j] == it[j]);
            } else {
                assert(ig[i] == it[i]);
                let a = g.last().account_id->0@;
                let k = choose|k: int| first_of_account(t, k, it[i].id) && it[i].name == Some((#[trigger] t[k]).description@);
                if it[i].id == a {
                    assert(names_account(t[k], a));
                    assert(present_account_ids(t).contains(a));
                }
            }
        }
    }
}

/// Whether `items` list, as an account item, every account that a record of `g` names.
pub open spec fn lists_every_account(g: Seq<ConsistencyIssueInfo>, items: Seq<AffectedItemView>) -> bool {
    forall|k: int|
        0 <= k < g.len() && (#[trigger] g[k]).account_id is Some ==> exists|j: int|
            0 <= j < items.len() && (#[trigger] items[j]).id == g[k].account_id->0@ && items[j].kind
                == AffectedItemKind::Account
}

/// Whether each of `items` is an account that some record of `g` names, shown under the
/// description of the first record that names it.
pub open spec fn items_from_first_records(g: Seq<ConsistencyIssueInfo>, items: Seq<AffectedItemView>) -> bool {
    forall|j: int|
        0 <= j < items.len() ==> exists|k: int|
            first_of_account(g, k, (#[trigger] items[j]).id) && items[j].name == Some(
                (#[trigger] g[k]).description@,
            )
}

/// Whether no two of `items` have the same id.
pub open spec fn distinct_item_ids(items: Seq<AffectedItemView>) -> bool {
    forall|i: int, j: int| 0 <= i < j < items.len() ==> (#[trigger] items[i]).id != (#[trigger] items[j]).id
}

/// The missing-lot-disposal issue lists each account that its sales name exactly once, under
/// the description of the first sale of that account, and no other; it lists nothing when no
/// sale names an account.
pub proof fn lemma_lot_issue_lists_each_account(g: Seq<ConsistencyIssueInfo>)
    ensures
        lot_issue_view(g).affected_items is None <==> forall|k: int|
            0 <= k < g.len() ==> (#[trigger] g[k]).account_id is None,
        lot_issue_view(g).affected_items matches Some(items) ==> lists_every_account(g, items)
            && items_from_first_records(g, items) && distinct_item_ids(items),
{
    lemma_lot_issue_items(g);
    lemma_lot_items_facts(g);
}

proof fn lemma_lot_issue_items(g: Seq<ConsistencyIssueInfo>)
    ensures
        lot_issue_view(g).affected_items == if lot_items(g).len() > 0 {
            Some(lot_items(g))
        } else {
            None::<Seq<AffectedItemView>>
        },
{
}

proof fn lemma_lot_items_facts(g: Seq<ConsistencyIssueInfo>)
    ensures
        lists_every_account(g, lot_items(g)),
        items_from_first_records(g, lot_items(g)),
        distinct_item_ids(lot_items(g)),
        (lot_items(g).len() == 0) <==> forall|k: int|
            0 <= k < g.len() ==> (#[trigger] g[k]).account_id is None,
{
    lemma_lot_items(g);
    lemma_lot_items_list_all(g);
    if lot_items(g).len() != 0 {
        let items = lot_items(g);
        let k = choose|k: int| first_of_account(g, k, items[0].id) && items[0].name == Some((#[trigger] g[k]).description@);
        assert(g[k].account_id is Some);
    }
}

proof fn lemma_lot_items_list_all(g: Seq<ConsistencyIssueInfo>)
    ensures
        lists_every_account(g, lot_items(g)),
{
    let items = lot_items(g);
    lemma_lot_items(g);
    lemma_present_account_ids(g);
    assert forall|k: int| 0 <= k < g.len() && (#[trigger] g[k]).account_id is Some implies exists|j: int|
        0 <= j < items.len() && (#[trigger] items[j]).id == g[k].account_id->0@ && items[j].kind
            == AffectedItemKind::Account by {
        let a = g[k].account_id->0@;
        assert(names_account(g[k], a));
        assert(present_account_ids(g).contains(a));
    }
}

/// Whether `item` is the affected item that record `i` stands for: its asset when it names one,
/// else its account.
pub open spec fn stands_for(i: ConsistencyIssueInfo, item: AffectedItemView) -> bool {
    match i.asset_id {
        Some(a) => item.kind == AffectedItemKind::Asset && item.id == a@,
        None => match i.account_id {
            Some(c) => item.kind == AffectedItemKind::Account && item.id == c@,
            None => false,
        },
    }
}

/// Whether `k` is the first record of `g` that stands for `item`.
pub open spec fn first_standing(g: Seq<ConsistencyIssueInfo>, k: int, item: AffectedItemView) -> bool {
    &&& 0 <= k < g.len()
    &&& stands_for(g[k], item)
    &&& forall|m: int| 0 <= m < k ==> !stands_for(#[trigger] g[m], item)
}

/// Whether `item` is shown as record `i` shows it: an asset by the record's symbol (else the
/// asset id) and asset name, an account under the record's description.
pub open spec fn shown_as(i: ConsistencyIssueInfo, item: AffectedItemView) -> bool {
    if item.kind == AffectedItemKind::Asset {
        &&& item.symbol == Some(
            match i.asset_symbol {
                Some(s) => s@,
                None => item.id,
            },
        )
        &&& item.name == opt_text(i.asset_name)
    } else {
        item.symbol is None && item.name == Some(i.description@)
    }
}

/// The key of an affected item of a valuation issue, from its kind and id.
spec fn item_key(item: AffectedItemView) -> Seq<char> {
    if item.kind == AffectedItemKind::Asset {
        "asset:"@ + item.id
    } else {
        "account:"@ + item.id
    }
}

proof fn lemma_item_key_injective(p: AffectedItemView, q: AffectedItemView)
    requires
        item_key(p) == item_key(q),
    ensures
        p.kind == q.kind,
        p.id == q.id,
{
    reveal_strlit("asset:");
    reveal_strlit("account:");
    assert("asset:"@[1] == 's');
    assert("account:"@[1] == 'c');
    if p.kind == AffectedItemKind::Asset && q.kind != AffectedItemKind::Asset {
        assert(item_key(p)[1] == "asset:"@[1]);
        assert(item_key(q)[1] == "account:"@[1]);
    } else if p.kind != AffectedItemKind::Asset && q.kind == AffectedItemKind::Asset {
        assert(item_key(q)[1] == "asset:"@[1]);
        assert(item_key(p)[1] == "account:"@[1]);
    } else if p.kind == AffectedItemKind::Asset {
        assert(p.id =~= item_key(p).skip(6));
        assert(q.id =~= item_key(q).skip(6));
    } else {
        assert(p.id =~= item_key(p).skip(8));
        assert(q.id =~= item_key(q).skip(8));
    }
}

proof fn lemma_item_key_of_record(x: ConsistencyIssueInfo, item: AffectedItemView)
    ensures
        valuation_item_key(x) is Some ==> item_key(valuation_item(x)) == valuation_item_key(x)->0
            && stands_for(x, valuation_item(x)),
        stands_for(x, item) ==> valuation_item_key(x) == Some(item_key(item)),
        valuation_item_key(x) is Some && item_key(item) == valuation_item_key(x)->0 ==> stands_for(
            x,
            item,
        ),
{
    if valuation_item_key(x) is Some && item_key(item) == valuation_item_key(x)->0 {
        lemma_item_key_injective(item, valuation_item(x));
    }
}

proof fn lemma_valuation_items(g: Seq<ConsistencyIssueInfo>)
    ensures
        forall|m: Seq<char>|
            #![trigger valuation_item_keys(g).contains(m)]
            valuation_item_keys(g).contains(m) <==> exists|k: int|
                0 <= k < g.len() && valuation_item_key(#[trigger] g[k]) == Some(m),
        forall|m: Seq<char>|
            #![trigger valuation_item_keys(g).contains(m)]
            valuation_item_keys(g).contains(m) ==> exists|j: int|
                0 <= j < valuation_items(g).len() && item_key(#[trigger] valuation_items(g)[j]) == m,
        forall|i: int, j: int|
            0 <= i < j < valuation_items(g).len() ==> item_key(#[trigger] valuation_items(g)[i])
                != item_key(#[trigger] valuation_items(g)[j]),
        forall|j: int|
            0 <= j < valuation_items(g).len() ==> exists|k: int|
                first_standing(g, k, #[trigger] valuation_items(g)[j]) && shown_as(#[trigger] g[k], valuation_items(g)[j]),
        forall|j: int|
            0 <= j < valuation_items(g).len() ==> valuation_item_keys(g).contains(
                item_key(#[trigger] valuation_items(g)[j]),
            ),
    decreases g.len(),
{
    if g.len() > 0 {
        let t = g.drop_last();
        let n = g.len() - 1;
        let x = g.last();
        lemma_valuation_items(t);
        lemma_item_key_of_record(x, valuation_item(x));
        assert forall|k: int| 0 <= k < t.len() implies #[trigger] t[k] == g[k] by {}
        assert(g[n] == x);
        let kt = valuation_item_keys(t);
        let kg = valuation_item_keys(g);
        let it = valuation_items(t);
        let ig = valuation_items(g);
        match valuation_item_key(x) {
            None => {
                assert(kg == kt);
                assert(ig == it);
            },
            Some(m) => {
                assert(kg == kt.push(m));
                if kt.contains(m) {
                    assert(ig == it);
                } else {
                    assert(ig == it.push(valuation_item(x)));
                }
            },
        }
        assert forall|m: Seq<char>|
            #![trigger kg.contains(m)]
            kg.contains(m) <==> exists|k: int| 0 <= k < g.len() && valuation_item_key(#[trigger] g[k]) == Some(m) by {
            if kg.contains(m) {
                let y = choose|y: int| 0 <= y < kg.len() && kg[y] == m;
                if y < kt.len() {
                    assert(kt[y] == m);
                    assert(kt.contains(m));
                    let k = choose|k: int| 0 <= k < t.len() && valuation_item_key(#[trigger] t[k]) == Some(m);
                    assert(valuation_item_key(g[k]) == Some(m));
                } else {
                    assert(valuation_item_key(g[n]) == Some(m));
                }
            }
            if exists|k: int| 0 <= k < g.len() && valuation_item_key(#[trigger] g[k]) == Some(m) {
                let k = choose|k: int| 0 <= k < g.len() && valuation_item_key(#[trigger] g[k]) == Some(m);
                if k < n {
                    assert(valuation_item_key(t[k]) == Some(m));
                    assert(kt.contains(m));
                    let y = choose|y: int| 0 <= y < kt.len() && kt[y] == m;
                    assert(kg[y] == m);
                } else {
                    assert(kg[kg.len() - 1] == m);
                }
            }
        }
        assert forall|m: Seq<char>|
            #![trigger kg.contains(m)]
            kg.contains(m) implies exists|j: int| 0 <= j < ig.len() && item_key(#[trigger] ig[j]) == m by {
            let y = choose|y: int| 0 <= y < kg.len() && kg[y] == m;
            if y < kt.len() {
                assert(kt[y] == m);
                assert(kt.contains(m));
                let j = choose|j: int| 0 <= j < it.len() && item_key(#[trigger] it[j]) == m;
                assert(ig[j] == it[j]);
            } else if kt.contains(m) {
                let j = choose|j: int| 0 <= j < it.len() && item_key(#[trigger] it[j]) == m;
                assert(ig[j] == it[j]);
            } else {
                assert(ig[ig.len() - 1] == valuation_item(x));
            }
        }
        assert forall|i: int, j: int| 0 <= i < j < ig.len() implies item_key(#[trigger] ig[i])
            != item_key(#[trigger] ig[j]) by {
            assert(ig[i] == it[i]);
            if j < it.len() {
                assert(ig[j] == it[j]);
            } else {
                assert(kt.contains(item_key(it[i])));
            }
        }
        assert forall|j: int| 0 <= j < ig.len() implies exists|k: int|
            first_standing(g, k, #[trigger] ig[j]) && shown_as(#[trigger] g[k], ig[j]) by {
            if j < it.len() {
                assert(ig[j] == it[j]);
                let k = choose|k: int| first_standing(t, k, #[trigger] it[j]) && shown_as(#[trigger] t[k], it[j]);
                assert forall|m: int| 0 <= m < k implies !stands_for(#[trigger] g[m], ig[j]) by {
                    assert(t[m] == g[m]);
                }
                assert(first_standing(g, k, ig[j]) && shown_as(g[k], ig[j]));
            } else {
                let m = valuation_item_key(x)->0;
                assert(!kt.contains(m));
                assert forall|q: int| 0 <= q < n implies !stands_for(#[trigger] g[q], ig[j]) by {
                    if stands_for(g[q], ig[j]) {
                        lemma_item_key_of_record(g[q], ig[j]);
                        assert(valuation_item_key(t[q]) == Some(m));
                    }
                }
                assert(first_standing(g, n, ig[j]) && shown_as(g[n], ig[j]));
            }
        }
        assert forall|j: int| 0 <= j < ig.len() implies kg.contains(item_key(#[trigger] ig[j])) by {
            if j < it.len() {
                assert(ig[j] == it[j]);
                let y = choose|y: int| 0 <= y < kt.len() && kt[y] == item_key(it[j]);
                assert(kg[y] == kt[y]);
            } else {
                assert(kg[kg.len() - 1] == item_key(ig[j]));
            }
        }
    }
}

/// Whether `items` hold, for each record of `g` that names an asset or an account, the item it
/// stands for.
pub open spec fn lists_every_record(g: Seq<ConsistencyIssueInfo>, items: Seq<AffectedItemView>) -> bool {
    forall|k: int|
        0 <= k < g.len() && ((#[trigger] g[k]).asset_id is Some || g[k].account_id is Some)
            ==> exists|j: int| 0 <= j < items.len() && stands_for(g[k], #[trigger] items[j])
}

/// Whether each of `items` is the item that some record of `g` stands for, shown as the first
/// such record shows it.
pub open spec fn items_stand_for_records(g: Seq<ConsistencyIssueInfo>, items: Seq<AffectedItemView>) -> bool {
    forall|j: int|
        0 <= j < items.len() ==> exists|k: int|
            first_standing(g, k, #[trigger] items[j]) && shown_as(#[trigger] g[k], items[j])
}

/// Whether no two of `items` are the same asset or the same account.
pub open spec fn distinct_items(items: Seq<AffectedItemView>) -> bool {
    forall|i: int, j: int|
        0 <= i < j < items.len() ==> !((#[trigger] items[i]).kind == (#[trigger] items[j]).kind
            && items[i].id == items[j].id)
}

proof fn lemma_valuation_items_facts(g: Seq<ConsistencyIssueInfo>)
    ensures
        lists_every_record(g, valuation_items(g)),
        items_stand_for_records(g, valuation_items(g)),
        distinct_items(valuation_items(g)),
{
    let items = valuation_items(g);
    lemma_valuation_items(g);
    assert forall|k: int|
        0 <= k < g.len() && ((#[trigger] g[k]).asset_id is Some || g[k].account_id is Some) implies exists|j: int|
        0 <= j < items.len() && stands_for(g[k], #[trigger] items[j]) by {
        let m = valuation_item_key(g[k])->0;
        assert(valuation_item_keys(g).contains(m));
        let j = choose|j: int| 0 <= j < items.len() && item_key(#[trigger] items[j]) == m;
        lemma_item_key_of_record(g[k], items[j]);
    }
    assert forall|i: int, j: int| 0 <= i < j < items.len() implies !((#[trigger] items[i]).kind
        == (#[trigger] items[j]).kind && items[i].id == items[j].id) by {
        assert(item_key(items[i]) != item_key(items[j]));
    }
}

/// The issue for valuation records lists, once each, the asset of every record that names one
/// and the account of every other record that names one, and nothing else, each shown as the
/// first record that names it shows it; it lists nothing when no record names an asset or an
/// account.
pub proof fn lemma_valuation_issue_lists_each_asset_and_account(
    g: Seq<ConsistencyIssueInfo>,
    prefix: Seq<char>,
    severity: Severity,
    title: Seq<char>,
    plural: Seq<char>,
    message: Seq<char>,
)
    ensures
        valuation_issue_view(g, prefix, severity, title, plural, message).affected_items is None
            <==> forall|k: int|
            0 <= k < g.len() ==> (#[trigger] g[k]).asset_id is None && g[k].account_id is None,
        valuation_issue_view(g, prefix, severity, title, plural, message).affected_items matches Some(
            items,
        ) ==> lists_every_record(g, items) && items_stand_for_records(g, items) && distinct_items(
            items,
        ),
{
    lemma_valuation_issue_items(g, prefix, severity, title, plural, message);
    lemma_valuation_items_facts(g);
    let items = valuation_items(g);
    if items.len() > 0 {
        let k = choose|k: int| first_standing(g, k, #[trigger] items[0]) && shown_as(#[trigger] g[k], items[0]);
        assert(g[k].asset_id is Some || g[k].account_id is Some);
    }
}

proof fn lemma_valuation_issue_items(
    g: Seq<ConsistencyIssueInfo>,
    prefix: Seq<char>,
    severity: Severity,
    title: Seq<char>,
    plural: Seq<char>,
    message: Seq<char>,
)
    ensures
        valuation_issue_view(g, prefix, severity, title, plural, message).affected_items == if valuation_items(g).len() > 0 {
            Some(valuation_items(g))
        } else {
            None::<Seq<AffectedItemView>>
        },
{
}

} // verus!
