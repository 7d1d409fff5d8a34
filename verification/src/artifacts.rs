//! The executables one Cargo build produced, keyed by package, target kind
//! and target name and kept in key order, as a `BTreeMap` keeps them.
use vstd::prelude::*;
use crate::order::{
    bytes_lt, compare_bytes, lemma_bytes_lt_irreflexive, lemma_bytes_lt_total,
    lemma_bytes_lt_transitive, Order,
};

verus! {

/// Which executable: Cargo's package id (as JSON text), the target kind
/// (`bin` or `example`) and the target name.
pub struct ArtifactKey {
    pub package: Vec<u8>,
    pub kind: Vec<u8>,
    pub name: Vec<u8>,
}

/// The model of an [`ArtifactKey`].
pub type KeyModel = (Seq<u8>, Seq<u8>, Seq<u8>);

impl View for ArtifactKey {
    type V = KeyModel;

    open spec fn view(&self) -> KeyModel {
        (self.package@, self.kind@, self.name@)
    }
}

/// Keys are ordered by package, then kind, then name.
pub open spec fn key_lt(a: KeyModel, b: KeyModel) -> bool {
    ||| bytes_lt(a.0, b.0)
    ||| a.0 == b.0 && bytes_lt(a.1, b.1)
    ||| a.0 == b.0 && a.1 == b.1 && bytes_lt(a.2, b.2)
}

/// The key order is a strict total order.
pub proof fn lemma_key_order(a: KeyModel, b: KeyModel, c: KeyModel)
    ensures
        !key_lt(a, a),
        a == b || key_lt(a, b) || key_lt(b, a),
        !(key_lt(a, b) && key_lt(b, a)),
        key_lt(a, b) && key_lt(b, c) ==> key_lt(a, c),
{
    lemma_bytes_lt_irreflexive(a.0);
    lemma_bytes_lt_irreflexive(a.1);
    lemma_bytes_lt_irreflexive(a.2);
    lemma_bytes_lt_irreflexive(b.0);
    lemma_bytes_lt_irreflexive(b.1);
    lemma_bytes_lt_total(a.0, b.0);
    lemma_bytes_lt_total(a.1, b.1);
    lemma_bytes_lt_total(a.2, b.2);
    lemma_bytes_lt_total(b.0, c.0);
    lemma_bytes_lt_total(b.1, c.1);
    if key_lt(a, b) && key_lt(b, c) {
        if bytes_lt(a.0, b.0) && bytes_lt(b.0, c.0) {
            lemma_bytes_lt_transitive(a.0, b.0, c.0);
        }
        if bytes_lt(a.1, b.1) && bytes_lt(b.1, c.1) {
            lemma_bytes_lt_transitive(a.1, b.1, c.1);
        }
        if bytes_lt(a.2, b.2) && bytes_lt(b.2, c.2) {
            lemma_bytes_lt_transitive(a.2, b.2, c.2);
        }
    }
}

/// Compares two keys.
pub fn compare_keys(a: &ArtifactKey, b: &ArtifactKey) -> (r: Order)
    ensures
        r == Order::Equal <==> a@ == b@,
        r == Order::Less <==> key_lt(a@, b@),
        r == Order::Greater <==> key_lt(b@, a@),
{
    proof {
        lemma_key_order(a@, b@, a@);
    }
    match compare_bytes(a.package.as_slice(), b.package.as_slice()) {
        Order::Equal => match compare_bytes(a.kind.as_slice(), b.kind.as_slice()) {
            Order::Equal => compare_bytes(a.name.as_slice(), b.name.as_slice()),
            o => o,
        },
        o => o,
    }
}

/// One executable and where Cargo put it.
pub struct Artifact {
    pub key: ArtifactKey,
    pub path: Vec<u8>,
}

/// The model of an [`Artifact`].
pub type ArtifactModel = (KeyModel, Seq<u8>);

impl View for Artifact {
    type V = ArtifactModel;

    open spec fn view(&self) -> ArtifactModel {
        (self.key@, self.path@)
    }
}

/// The executables of one build, in key order with no key twice.
pub struct Artifacts {
    entries: Vec<Artifact>,
}

/// The models of a list of artifacts.
pub open spec fn artifact_views(s: Seq<Artifact>) -> Seq<ArtifactModel> {
    s.map_values(|a: Artifact| a@)
}

/// Whether the entries are in strictly increasing key order.
pub open spec fn sorted(s: Seq<ArtifactModel>) -> bool {
    forall|i: int, j: int| 0 <= i < j < s.len() ==> key_lt(#[trigger] s[i].0, #[trigger] s[j].0)
}

/// The keys, in order.
pub open spec fn keys_of(s: Seq<ArtifactModel>) -> Seq<KeyModel> {
    s.map_values(|e: ArtifactModel| e.0)
}

impl View for Artifacts {
    type V = Seq<ArtifactModel>;

    closed spec fn view(&self) -> Seq<ArtifactModel> {
        artifact_views(self.entries@)
    }
}

impl Artifacts {
    /// Whether the entries are in key order.
    pub open spec fn wf(&self) -> bool {
        sorted(self@)
    }

    /// Every list of artifacts is in key order.
    #[verifier::type_invariant]
    spec fn entries_sorted(self) -> bool {
        sorted(artifact_views(self.entries@))
    }

    /// No executables.
    pub fn new() -> (r: Artifacts)
        ensures
            r.wf(),
            r@.len() == 0,
    {
        let r = Artifacts { entries: Vec::new() };
        assert(r@ =~= Seq::<ArtifactModel>::empty());
        r
    }

    /// The number of executables.
    pub fn len(&self) -> (r: usize)
        ensures
            r == self@.len(),
    {
        self.entries.len()
    }

    /// The executable at position `i` in key order.
    pub fn get(&self, i: usize) -> (r: &Artifact)
        requires
            i < self@.len(),
        ensures
            r@ == self@[i as int],
    {
        &self.entries[i]
    }

    /// Records that `key` was built at `path`; a key seen before gets the new
    /// path. The order and the other entries are kept.
    pub fn insert(&mut self, key: ArtifactKey, path: Vec<u8>)
        ensures
            final(self).wf(),
            final(self)@.contains((key@, path@)),
            forall|i: int| 0 <= i < old(self)@.len() && old(self)@[i].0 != key@
                ==> final(self)@.contains(#[trigger] old(self)@[i]),
            forall|i: int| 0 <= i < final(self)@.len() && final(self)@[i].0 != key@
                ==> old(self)@.contains(#[trigger] final(self)@[i]),
            final(self)@.len() == old(self)@.len() + (if keys_of(old(self)@).contains(key@) { 0int } else { 1int }),
    {
        proof {
            use_type_invariant(&*self);
        }
        let ghost old_view = self@;
        let mut entries: Vec<Artifact> = Vec::new();
        assert(sorted(artifact_views(entries@))) by {
            assert(artifact_views(entries@) =~= Seq::<ArtifactModel>::empty());
        }
        std::mem::swap(&mut entries, &mut self.entries);
        let mut i: usize = 0;
        while i < entries.len() && compare_keys(&entries[i].key, &key) == Order::Less
            invariant
                i <= entries@.len(),
                artifact_views(entries@) == old_view,
                sorted(old_view),
                forall|j: int| 0 <= j < i ==> key_lt(#[trigger] old_view[j].0, key@),
            decreases entries@.len() - i,
        {
            i += 1;
        }
        let ghost entry: ArtifactModel = (key@, path@);
        let same = i < entries.len() && compare_keys(&entries[i].key, &key) == Order::Equal;
        proof {
            assert forall|j: int| i <= j < old_view.len() implies !key_lt(#[trigger] old_view[j].0, key@)
                by {
                lemma_key_order(old_view[i as int].0, old_view[j].0, key@);
                if j > i {
                    assert(key_lt(old_view[i as int].0, old_view[j].0));
                }
                lemma_key_order(old_view[j].0, key@, old_view[j].0);
            }
        }
        if same {
            proof {
                assert forall|j: int| 0 <= j < old_view.len() && j != i implies old_view[j].0 != key@ by {
                    lemma_key_order(old_view[j].0, key@, key@);
                    if j > i {
                        assert(key_lt(old_view[i as int].0, old_view[j].0));
                    }
                }
                assert(keys_of(old_view)[i as int] == key@);
            }
            entries.set(i, Artifact { key, path });
            assert(artifact_views(entries@) =~= old_view.update(i as int, entry));
            proof {
                assert(artifact_views(entries@)[i as int] == entry);
                assert forall|a: int, b: int| 0 <= a < b < artifact_views(entries@).len() implies key_lt(
                    #[trigger] artifact_views(entries@)[a].0,
                    #[trigger] artifact_views(entries@)[b].0,
                ) by {
                    if a == i {
                        assert(key_lt(old_view[a].0, old_view[b].0));
                    } else if b == i {
                        assert(key_lt(old_view[a].0, old_view[b].0));
                    }
                }
                assert forall|j: int| 0 <= j < old_view.len() && old_view[j].0 != key@ implies artifact_views(entries@).contains(
                    #[trigger] old_view[j],
                ) by {
                    assert(artifact_views(entries@)[j] == old_view[j]);
                }
                assert forall|j: int| 0 <= j < artifact_views(entries@).len() && artifact_views(entries@)[j].0 != key@ implies old_view.contains(
                    #[trigger] artifact_views(entries@)[j],
                ) by {
                    assert(artifact_views(entries@)[j] == old_view[j]);
                }
            }
        } else {
            proof {
                assert forall|j: int| 0 <= j < old_view.len() implies old_view[j].0 != key@ by {
                    lemma_key_order(old_view[j].0, key@, key@);
                    if j > i {
                        lemma_key_order(key@, old_view[i as int].0, old_view[j].0);
                        assert(key_lt(old_view[i as int].0, old_view[j].0));
                    }
                    if j == i {
                        lemma_key_order(old_view[j].0, key@, key@);
                    }
                }
                if keys_of(old_view).contains(key@) {
                    let k = choose|k: int| 0 <= k < keys_of(old_view).len() && keys_of(old_view)[k] == key@;
                    assert(old_view[k].0 == key@);
                }
            }
            entries.insert(i, Artifact { key, path });
            assert(artifact_views(entries@) =~= old_view.insert(i as int, entry));
            proof {
                assert(artifact_views(entries@)[i as int] == entry);
                assert forall|a: int, b: int| 0 <= a < b < artifact_views(entries@).len() implies key_lt(
                    #[trigger] artifact_views(entries@)[a].0,
                    #[trigger] artifact_views(entries@)[b].0,
                ) by {
                    if b < i {
                        assert(artifact_views(entries@)[a] == old_view[a] && artifact_views(entries@)[b] == old_view[b]);
                    } else if b == i {
                        assert(artifact_views(entries@)[a] == old_view[a]);
                    } else if a == i {
                        assert(artifact_views(entries@)[b] == old_view[b - 1]);
                        lemma_key_order(key@, old_view[b - 1].0, key@);
                    } else if a < i {
                        assert(artifact_views(entries@)[a] == old_view[a] && artifact_views(entries@)[b] == old_view[b - 1]);
                    } else {
                        assert(artifact_views(entries@)[a] == old_view[a - 1] && artifact_views(entries@)[b] == old_view[b - 1]);
                    }
                }
                assert forall|j: int| 0 <= j < old_view.len() && old_view[j].0 != key@ implies artifact_views(entries@).contains(
                    #[trigger] old_view[j],
                ) by {
                    if j < i {
                        assert(artifact_views(entries@)[j] == old_view[j]);
                    } else {
                        assert(artifact_views(entries@)[j + 1] == old_view[j]);
                    }
                }
                assert forall|j: int| 0 <= j < artifact_views(entries@).len() && artifact_views(entries@)[j].0 != key@ implies old_view.contains(
                    #[trigger] artifact_views(entries@)[j],
                ) by {
                    if j < i {
                        assert(artifact_views(entries@)[j] == old_view[j]);
                    } else {
                        assert(artifact_views(entries@)[j] == old_view[j - 1]);
                    }
                }
            }
        }
        self.entries = entries;
    }

    /// Whether both lists name the same executables, in the same order.
    pub fn same_keys(&self, other: &Artifacts) -> (r: bool)
        ensures
            r == (keys_of(self@) == keys_of(other@)),
    {
        if self.entries.len() != other.entries.len() {
            assert(keys_of(self@).len() != keys_of(other@).len());
            return false;
        }
        let mut i: usize = 0;
        while i < self.entries.len()
            invariant
                i <= self@.len(),
                self@.len() == other@.len(),
                forall|j: int| 0 <= j < i ==> self@[j].0 == other@[j].0,
            decreases self@.len() - i,
        {
            if compare_keys(&self.entries[i].key, &other.entries[i].key) != Order::Equal {
                assert(keys_of(self@)[i as int] != keys_of(other@)[i as int]);
                return false;
            }
            i += 1;
        }
        assert(keys_of(self@) =~= keys_of(other@));
        true
    }

    /// Whether an executable before position `i` has the same target name.
    pub fn name_seen_before(&self, i: usize) -> (r: bool)
        requires
            i < self@.len(),
        ensures
            r == exists|j: int| 0 <= j < i && (#[trigger] self@[j]).0.2 == self@[i as int].0.2,
    {
        let mut j: usize = 0;
        while j < i
            invariant
                j <= i < self@.len(),
                forall|k: int| 0 <= k < j ==> (#[trigger] self@[k]).0.2 != self@[i as int].0.2,
            decreases i - j,
        {
            if crate::bytes::bytes_eq(self.entries[j].key.name.as_slice(), self.entries[i].key.name.as_slice()) {
                assert(self@[j as int].0.2 == self@[i as int].0.2);
                return true;
            }
            j += 1;
        }
        false
    }

    /// The position of `key`, if it was built.
    pub fn position(&self, key: &ArtifactKey) -> (r: Option<usize>)
        ensures
            r matches Some(i) ==> i < self@.len() && self@[i as int].0 == key@,
            r is None ==> !keys_of(self@).contains(key@),
    {
        let mut i: usize = 0;
        while i < self.entries.len()
            invariant
                i <= self@.len(),
                forall|k: int| 0 <= k < i ==> (#[trigger] self@[k]).0 != key@,
            decreases self@.len() - i,
        {
            if compare_keys(&self.entries[i].key, key) == Order::Equal {
                return Some(i);
            }
            i += 1;
        }
        proof {
            if keys_of(self@).contains(key@) {
                let k = choose|k: int| 0 <= k < keys_of(self@).len() && keys_of(self@)[k] == key@;
                assert(self@[k].0 == key@);
            }
        }
        None
    }
}

/// Whether keys are in strictly increasing order.
pub open spec fn strictly_increasing(s: Seq<KeyModel>) -> bool {
    forall|i: int, j: int| 0 <= i < j < s.len() ==> key_lt(#[trigger] s[i], #[trigger] s[j])
}

/// Two strictly increasing lists of the same keys are equal.
proof fn lemma_increasing_keys_equal(a: Seq<KeyModel>, b: Seq<KeyModel>)
    requires
        strictly_increasing(a),
        strictly_increasing(b),
        forall|k: KeyModel| a.contains(k) <==> b.contains(k),
    ensures
        a == b,
    decreases a.len(),
{
    if a.len() == 0 {
        if b.len() > 0 {
            assert(b.contains(b[0]));
        }
        assert(a =~= b);
    } else {
        assert(a.contains(a[0]));
        assert(b.len() > 0);
        assert(b.contains(b[0]));
        let j = choose|j: int| 0 <= j < b.len() && b[j] == a[0];
        let i = choose|i: int| 0 <= i < a.len() && a[i] == b[0];
        lemma_key_order(a[0], b[0], a[0]);
        if j > 0 {
            assert(key_lt(b[0], b[j]));
            if i > 0 {
                assert(key_lt(a[0], a[i]));
            }
        }
        assert(a[0] == b[0]);
        let ra = a.drop_first();
        let rb = b.drop_first();
        assert forall|k: KeyModel| ra.contains(k) <==> rb.contains(k) by {
            if ra.contains(k) {
                let p = choose|p: int| 0 <= p < ra.len() && ra[p] == k;
                assert(a[p + 1] == k);
                assert(key_lt(a[0], a[p + 1]));
                lemma_key_order(a[0], k, a[0]);
                assert(b.contains(k));
                let q = choose|q: int| 0 <= q < b.len() && b[q] == k;
                assert(q != 0);
                assert(rb[q - 1] == k);
            }
            if rb.contains(k) {
                let p = choose|p: int| 0 <= p < rb.len() && rb[p] == k;
                assert(b[p + 1] == k);
                assert(key_lt(b[0], b[p + 1]));
                lemma_key_order(b[0], k, b[0]);
                assert(a.contains(k));
                let q = choose|q: int| 0 <= q < a.len() && a[q] == k;
                assert(q != 0);
                assert(ra[q - 1] == k);
            }
        }
        assert forall|x: int, y: int| 0 <= x < y < ra.len() implies key_lt(#[trigger] ra[x], #[trigger] ra[y]) by {
            assert(ra[x] == a[x + 1] && ra[y] == a[y + 1]);
        }
        assert forall|x: int, y: int| 0 <= x < y < rb.len() implies key_lt(#[trigger] rb[x], #[trigger] rb[y]) by {
            assert(rb[x] == b[x + 1] && rb[y] == b[y + 1]);
        }
        lemma_increasing_keys_equal(ra, rb);
        assert(a =~= seq![a[0]] + ra);
        assert(b =~= seq![b[0]] + rb);
    }
}

/// The keys of a well-formed list are in strictly increasing order.
proof fn lemma_sorted_keys(s: Seq<ArtifactModel>)
    requires
        sorted(s),
    ensures
        strictly_increasing(keys_of(s)),
{
    assert forall|i: int, j: int| 0 <= i < j < keys_of(s).len() implies key_lt(
        #[trigger] keys_of(s)[i],
        #[trigger] keys_of(s)[j],
    ) by {
        assert(key_lt(s[i].0, s[j].0));
    }
}

/// Key-order law: two executable lists kept in key order that hold the
/// same keys list them identically, so comparing two builds' keys in order
/// compares which executables they built, whatever order Cargo reported them in.
pub proof fn law_same_keys_same_order(a: Seq<ArtifactModel>, b: Seq<ArtifactModel>)
    requires
        sorted(a),
        sorted(b),
        forall|k: KeyModel| keys_of(a).contains(k) <==> keys_of(b).contains(k),
    ensures
        keys_of(a) == keys_of(b),
{
    lemma_sorted_keys(a);
    lemma_sorted_keys(b);
    lemma_increasing_keys_equal(keys_of(a), keys_of(b));
}

} // verus!
