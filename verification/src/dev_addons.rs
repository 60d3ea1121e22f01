//! Manifests of add-ons served by a local development server. Such add-ons are never installed,
//! so the network broker finds their manifests here: registered when the frontend loads a dev
//! add-on, removed when it unloads it.

use vstd::prelude::*;

use crate::text::{string_from, texts};

verus! {

/// The network hosts an add-on declares, and those the user approved.
#[derive(Debug)]
pub struct AddonNetworkPermissions {
    pub allowed_hosts: Vec<String>,
    pub approved_hosts: Vec<String>,
}

/// What the registry reads of an add-on manifest: its id and its network permissions.
#[derive(Debug)]
pub struct AddonManifest {
    pub id: String,
    pub network: Option<AddonNetworkPermissions>,
}

/// The hosts of a manifest's network permissions.
pub struct AddonNetworkView {
    pub allowed_hosts: Seq<Seq<char>>,
    pub approved_hosts: Seq<Seq<char>>,
}

/// A manifest: its id and network permissions.
pub struct AddonManifestView {
    pub id: Seq<char>,
    pub network: Option<AddonNetworkView>,
}

impl View for AddonNetworkPermissions {
    type V = AddonNetworkView;

    open spec fn view(&self) -> AddonNetworkView {
        AddonNetworkView {
            allowed_hosts: texts(self.allowed_hosts@),
            approved_hosts: texts(self.approved_hosts@),
        }
    }
}

impl View for AddonManifest {
    type V = AddonManifestView;

    open spec fn view(&self) -> AddonManifestView {
        AddonManifestView {
            id: self.id@,
            network: match self.network {
                Some(n) => Some(n@),
                None => None,
            },
        }
    }
}

/// The manifest with every declared host approved: a dev add-on has no install-time approval,
/// so the hosts it declares are taken as approved.
pub open spec fn with_declared_hosts_approved(m: AddonManifestView) -> AddonManifestView {
    AddonManifestView {
        id: m.id,
        network: match m.network {
            Some(n) => Some(AddonNetworkView { allowed_hosts: n.allowed_hosts, approved_hosts: n.allowed_hosts }),
            None => None,
        },
    }
}

/// The error of a manifest registered under another add-on's id.
pub open spec fn id_mismatch_message(manifest_id: Seq<char>, addon_id: Seq<char>) -> Seq<char> {
    "Dev addon manifest id '"@ + manifest_id + "' does not match requested addon id '"@ + addon_id
        + "'"@
}

/// Whether no two manifests share an id.
pub open spec fn distinct_ids(s: Seq<AddonManifest>) -> bool {
    forall|i: int, j: int| 0 <= i < j < s.len() ==> (#[trigger] s[i]).id@ != (#[trigger] s[j]).id@
}

/// The manifests by id; a later manifest of an id stands for an earlier one.
pub open spec fn manifests_by_id(s: Seq<AddonManifest>) -> Map<Seq<char>, AddonManifestView>
    decreases s.len(),
{
    if s.len() == 0 {
        Map::empty()
    } else {
        manifests_by_id(s.drop_last()).insert(s.last().id@, s.last()@)
    }
}

proof fn lemma_manifests_by_id_lookup(s: Seq<AddonManifest>, k: Seq<char>)
    requires
        distinct_ids(s),
    ensures
        manifests_by_id(s).contains_key(k) <==> exists|i: int| 0 <= i < s.len() && (#[trigger] s[i]).id@ == k,
        forall|i: int| 0 <= i < s.len() && (#[trigger] s[i]).id@ == k ==> manifests_by_id(s)[k] == s[i]@,
    decreases s.len(),
{
    if s.len() > 0 {
        let t = s.drop_last();
        assert(distinct_ids(t));
        lemma_manifests_by_id_lookup(t, k);
        if manifests_by_id(s).contains_key(k) && k != s.last().id@ {
            let i = choose|i: int| 0 <= i < t.len() && (#[trigger] t[i]).id@ == k;
            assert(s[i] == t[i]);
        }
        if k == s.last().id@ {
            assert(s[s.len() - 1] == s.last());
        }
        if exists|i: int| 0 <= i < s.len() && (#[trigger] s[i]).id@ == k {
            let i = choose|i: int| 0 <= i < s.len() && (#[trigger] s[i]).id@ == k;
            if i < s.len() - 1 {
                assert(t[i] == s[i]);
            }
        }
        assert forall|i: int| 0 <= i < s.len() && (#[trigger] s[i]).id@ == k implies manifests_by_id(s)[k]
            == s[i]@ by {
            if i < s.len() - 1 {
                assert(s[i] == t[i]);
                assert(s[i].id@ != s[s.len() - 1].id@);
            }
        }
    }
}

proof fn lemma_manifests_by_id_update(s: Seq<AddonManifest>, i: int, m: AddonManifest)
    requires
        distinct_ids(s),
        0 <= i < s.len(),
        m.id@ == s[i].id@,
    ensures
        distinct_ids(s.update(i, m)),
        manifests_by_id(s.update(i, m)) == manifests_by_id(s).insert(m.id@, m@),
    decreases s.len(),
{
    let u = s.update(i, m);
    assert forall|a: int, b: int| 0 <= a < b < u.len() implies (#[trigger] u[a]).id@ != (#[trigger] u[b]).id@ by {
        assert(s[a].id@ != s[b].id@);
    }
    if i == s.len() - 1 {
        assert(u.drop_last() =~= s.drop_last());
        assert(manifests_by_id(u) =~= manifests_by_id(s).insert(m.id@, m@));
    } else {
        let t = s.drop_last();
        assert(distinct_ids(t));
        lemma_manifests_by_id_update(t, i, m);
        assert(u.drop_last() =~= t.update(i, m));
        assert(s[i].id@ != s[s.len() - 1].id@);
        assert(manifests_by_id(u) =~= manifests_by_id(s).insert(m.id@, m@));
    }
}

proof fn lemma_manifests_by_id_remove(s: Seq<AddonManifest>, i: int)
    requires
        distinct_ids(s),
        0 <= i < s.len(),
    ensures
        distinct_ids(s.remove(i)),
        manifests_by_id(s.remove(i)) == manifests_by_id(s).remove(s[i].id@),
    decreases s.len(),
{
    let r = s.remove(i);
    assert forall|a: int, b: int| 0 <= a < b < r.len() implies (#[trigger] r[a]).id@ != (#[trigger] r[b]).id@ by {
        if a < i && b < i {
            assert(s[a].id@ != s[b].id@);
        } else if a < i {
            assert(r[b] == s[b + 1]);
            assert(s[a].id@ != s[b + 1].id@);
        } else {
            assert(r[a] == s[a + 1] && r[b] == s[b + 1]);
            assert(s[a + 1].id@ != s[b + 1].id@);
        }
    }
    let t = s.drop_last();
    assert(distinct_ids(t));
    if i == s.len() - 1 {
        assert(r =~= t);
        lemma_manifests_by_id_lookup(t, s[i].id@);
        assert forall|a: int| 0 <= a < t.len() implies (#[trigger] t[a]).id@ != s[i].id@ by {
            assert(t[a] == s[a]);
        }
        assert(!manifests_by_id(t).contains_key(s[i].id@));
        assert(manifests_by_id(r) =~= manifests_by_id(s).remove(s[i].id@));
    } else {
        lemma_manifests_by_id_remove(t, i);
        assert(r.drop_last() =~= t.remove(i));
        assert(r.last() == s.last());
        assert(s[i].id@ != s[s.len() - 1].id@);
        assert(t[i] == s[i]);
        assert(manifests_by_id(r) =~= manifests_by_id(s).remove(s[i].id@));
    }
}

/// The manifests of the add-ons that a development server serves, by add-on id.
#[derive(Debug)]
pub struct DevAddonRegistry {
    manifests: Vec<AddonManifest>,
}

impl DevAddonRegistry {
    #[verifier::type_invariant]
    closed spec fn ids_distinct(self) -> bool {
        distinct_ids(self.manifests@)
    }
}

impl View for DevAddonRegistry {
    type V = Map<Seq<char>, AddonManifestView>;

    closed spec fn view(&self) -> Map<Seq<char>, AddonManifestView> {
        manifests_by_id(self.manifests@)
    }
}

fn clone_strings(v: &Vec<String>) -> (r: Vec<String>)
    ensures
        texts(r@) == texts(v@),
{
    let mut r: Vec<String> = Vec::new();
    let mut i: usize = 0;
    while i < v.len()
        invariant
            i <= v@.len(),
            texts(r@) == texts(v@.take(i as int)),
        decreases v.len() - i,
    {
        r.push(string_from(v[i].as_str()));
        assert(texts(v@.take(i + 1)) =~= texts(v@.take(i as int)).push(v@[i as int]@));
        i += 1;
    }
    assert(v@.take(v@.len() as int) =~= v@);
    r
}

fn clone_manifest(m: &AddonManifest) -> (r: AddonManifest)
    ensures
        r@ == m@,
{
    let network = match &m.network {
        Some(n) => Some(
            AddonNetworkPermissions {
                allowed_hosts: clone_strings(&n.allowed_hosts),
                approved_hosts: clone_strings(&n.approved_hosts),
            },
        ),
        None => None,
    };
    AddonManifest { id: string_from(m.id.as_str()), network }
}

/// Where the manifest of `id` stands among `manifests`, if anywhere.
fn position(manifests: &Vec<AddonManifest>, id: &String) -> (r: Option<usize>)
    ensures
        match r {
            Some(i) => i < manifests@.len() && manifests@[i as int].id@ == id@,
            None => forall|k: int| 0 <= k < manifests@.len() ==> (#[trigger] manifests@[k]).id@ != id@,
        },
{
    let mut i: usize = 0;
    while i < manifests.len()
        invariant
            i <= manifests@.len(),
            forall|k: int| 0 <= k < i ==> (#[trigger] manifests@[k]).id@ != id@,
        decreases manifests.len() - i,
    {
        if manifests[i].id == *id {
            return Some(i);
        }
        i += 1;
    }
    None
}

impl DevAddonRegistry {
    /// A registry with no manifest.
    pub fn new() -> (r: DevAddonRegistry)
        ensures
            r@ == Map::<Seq<char>, AddonManifestView>::empty(),
    {
        DevAddonRegistry { manifests: Vec::new() }
    }

    /// A copy of the manifest registered for `addon_id`, if any.
    pub fn get(&self, addon_id: &str) -> (r: Option<AddonManifest>)
        ensures
            match r {
                Some(m) => self@.contains_key(addon_id@) && m@ == self@[addon_id@],
                None => !self@.contains_key(addon_id@),
            },
    {
        proof {
            use_type_invariant(self);
            lemma_manifests_by_id_lookup(self.manifests@, addon_id@);
        }
        match position(&self.manifests, &string_from(addon_id)) {
            Some(i) => Some(clone_manifest(&self.manifests[i])),
            None => None,
        }
    }
}

impl Default for DevAddonRegistry {
    fn default() -> (r: DevAddonRegistry)
        ensures
            r@ == Map::<Seq<char>, AddonManifestView>::empty(),
    {
        DevAddonRegistry::new()
    }
}

/// Registers the manifest of a dev add-on under `addon_id`, with its declared hosts approved,
/// in place of any manifest registered for that id before. A manifest whose id is not `addon_id`
/// is refused and the registry left as it was.
pub fn register_dev_addon_manifest(
    registry: &mut DevAddonRegistry,
    addon_id: String,
    manifest: AddonManifest,
) -> (r: Result<(), String>)
    ensures
        manifest.id@ != addon_id@ ==> (r matches Err(e) && e@ == id_mismatch_message(
            manifest.id@,
            addon_id@,
        )) && final(registry)@ == old(registry)@,
        manifest.id@ == addon_id@ ==> r is Ok && final(registry)@ == old(registry)@.insert(
            addon_id@,
            with_declared_hosts_approved(manifest@),
        ),
{
    if manifest.id != addon_id {
        let mut message = string_from("Dev addon manifest id '");
        message.append(manifest.id.as_str());
        message.append("' does not match requested addon id '");
        message.append(addon_id.as_str());
        message.append("'");
        return Err(message);
    }
    let AddonManifest { id, network } = manifest;
    let network = match network {
        Some(n) => {
            let approved_hosts = clone_strings(&n.allowed_hosts);
            Some(AddonNetworkPermissions { allowed_hosts: n.allowed_hosts, approved_hosts })
        },
        None => None,
    };
    let approved = AddonManifest { id, network };
    proof {
        use_type_invariant(&*registry);
    }
    let mut manifests: Vec<AddonManifest> = Vec::new();
    std::mem::swap(&mut manifests, &mut registry.manifests);
    let ghost before = manifests@;
    match position(&manifests, &approved.id) {
        Some(i) => {
            proof {
                lemma_manifests_by_id_update(before, i as int, approved);
            }
            manifests.set(i, approved);
        },
        None => {
            proof {
                let after = before.push(approved);
                assert(after.drop_last() =~= before);
                assert forall|a: int, b: int| 0 <= a < b < after.len() implies (#[trigger] after[a]).id@
                    != (#[trigger] after[b]).id@ by {
                    if b < before.len() {
                        assert(before[a].id@ != before[b].id@);
                    } else {
                        assert(after[a] == before[a]);
                    }
                }
            }
            manifests.push(approved);
        },
    }
    registry.manifests = manifests;
    Ok(())
}

/// Removes the manifest registered for `addon_id`, if any.
pub fn unregister_dev_addon_manifest(registry: &mut DevAddonRegistry, addon_id: String)
    ensures
        final(registry)@ == old(registry)@.remove(addon_id@),
{
    proof {
        use_type_invariant(&*registry);
    }
    let mut manifests: Vec<AddonManifest> = Vec::new();
    std::mem::swap(&mut manifests, &mut registry.manifests);
    let ghost before = manifests@;
    match position(&manifests, &addon_id) {
        Some(i) => {
            proof {
                lemma_manifests_by_id_remove(before, i as int);
            }
            manifests.remove(i);
        },
        None => {
            proof {
                lemma_manifests_by_id_lookup(before, addon_id@);
                assert(manifests_by_id(before).remove(addon_id@) =~= manifests_by_id(before));
            }
        },
    }
    registry.manifests = manifests;
}

/// What a read gives back of a registration: the manifest just registered for an add-on, with
/// its declared hosts approved; the manifests of other add-ons are unchanged.
pub proof fn lemma_get_after_register(
    before: Map<Seq<char>, AddonManifestView>,
    addon_id: Seq<char>,
    manifest: AddonManifestView,
    other: Seq<char>,
)
    requires
        manifest.id == addon_id,
        other != addon_id,
    ensures
        ({
            let after = before.insert(addon_id, with_declared_hosts_approved(manifest));
            &&& after.contains_key(addon_id)
            &&& after[addon_id].id == addon_id
            &&& after[addon_id].network matches Some(n) ==> (n.approved_hosts == n.allowed_hosts
                && (manifest.network matches Some(d) && n.allowed_hosts == d.allowed_hosts))
            &&& after[addon_id].network is None <==> manifest.network is None
            &&& after.contains_key(other) == before.contains_key(other)
            &&& before.contains_key(other) ==> after[other] == before[other]
        }),
{
}

/// After unregistering an add-on nothing is found for it, and other add-ons are unchanged.
pub proof fn lemma_get_after_unregister(
    before: Map<Seq<char>, AddonManifestView>,
    addon_id: Seq<char>,
    other: Seq<char>,
)
    requires
        other != addon_id,
    ensures
        !before.remove(addon_id).contains_key(addon_id),
        before.remove(addon_id).contains_key(other) == before.contains_key(other),
        before.contains_key(other) ==> before.remove(addon_id)[other] == before[other],
{
}

} // verus!
