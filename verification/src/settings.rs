//! The settings threshold store: a mapping from project identifier to a
//! per-project setting, with an update operation that preserves every
//! unrelated entry.

use vstd::prelude::*;

use crate::policy::Threshold;

verus! {

/// The per-domain thresholds a project has configured, keyed by domain
/// name. Keys are unique; lookup order is immaterial.
#[derive(PartialEq, Clone, Debug)]
pub struct UserProject {
    pub thresholds: Vec<(String, Threshold)>,
}

/// What a project identifier maps to: either a mapping of default labels
/// or a project-shaped setting with its thresholds.
#[derive(PartialEq, Clone, Debug)]
pub enum Setting {
    DefaultLabel(Vec<(String, String)>),
    Project(UserProject),
}

/// The user settings most often used by a client: a version and one
/// setting per project. Loaded and persisted by the caller; this core
/// only updates it in place.
#[derive(PartialEq, Clone, Debug)]
pub struct UserSettings {
    pub version: u32,
    pub projects: Vec<(String, Setting)>,
}

/// Whether the keys of an association list are pairwise distinct.
pub open spec fn keys_unique<V>(entries: Seq<(String, V)>) -> bool {
    forall|i: int, j: int|
        0 <= i < j < entries.len() ==> (#[trigger] entries[i]).0@ != (#[trigger] entries[j]).0@
}

/// The value an association list holds under a key, scanning from the
/// front; nothing when the key is absent.
pub open spec fn assoc_lookup<V>(entries: Seq<(String, V)>, key: Seq<char>) -> Option<V>
    decreases entries.len(),
{
    if entries.len() == 0 {
        None
    } else if entries[0].0@ == key {
        Some(entries[0].1)
    } else {
        assoc_lookup(entries.drop_first(), key)
    }
}

/// Dropping the first entry keeps the remaining keys pairwise distinct.
proof fn lemma_unique_drop_first<V>(entries: Seq<(String, V)>)
    requires
        keys_unique(entries),
        entries.len() > 0,
    ensures
        keys_unique(entries.drop_first()),
{
    assert forall|p: int, q: int|
        0 <= p < q < entries.drop_first().len() implies (#[trigger] entries.drop_first()[p]).0@
        != (#[trigger] entries.drop_first()[q]).0@ by {
        assert(entries.drop_first()[p] == entries[p + 1]);
        assert(entries.drop_first()[q] == entries[q + 1]);
    }
}

/// A key is absent exactly when no entry carries it.
pub proof fn lemma_lookup_none<V>(entries: Seq<(String, V)>, key: Seq<char>)
    ensures
        (assoc_lookup(entries, key) is None) <==> (forall|j: int|
            0 <= j < entries.len() ==> (#[trigger] entries[j]).0@ != key),
    decreases entries.len(),
{
    if entries.len() > 0 {
        let rest = entries.drop_first();
        lemma_lookup_none(rest, key);
        if entries[0].0@ == key {
        } else if assoc_lookup(entries, key) is None {
            assert forall|j: int| 0 <= j < entries.len() implies (#[trigger] entries[j]).0@
                != key by {
                if j > 0 {
                    assert(rest[j - 1] == entries[j]);
                }
            }
        } else {
            let w = choose|j: int| 0 <= j < rest.len() && (#[trigger] rest[j]).0@ == key;
            assert(rest[w] == entries[w + 1]);
        }
    }
}

/// Under unique keys, the entry at an index is what lookup of its key
/// finds.
pub proof fn lemma_lookup_at_index<V>(entries: Seq<(String, V)>, i: int)
    requires
        keys_unique(entries),
        0 <= i < entries.len(),
    ensures
        assoc_lookup(entries, entries[i].0@) == Some(entries[i].1),
    decreases entries.len(),
{
    if i > 0 {
        assert(entries.drop_first()[i - 1] == entries[i]);
        lemma_unique_drop_first(entries);
        lemma_lookup_at_index(entries.drop_first(), i - 1);
        assert(entries[0].0@ != entries[i].0@);
    }
}

/// Removing the entry at an index empties its key and leaves every other
/// key's lookup unchanged; unique keys stay unique.
pub proof fn lemma_lookup_remove<V>(entries: Seq<(String, V)>, i: int)
    requires
        keys_unique(entries),
        0 <= i < entries.len(),
    ensures
        keys_unique(entries.remove(i)),
        assoc_lookup(entries.remove(i), entries[i].0@) is None,
        forall|key: Seq<char>|
            key != entries[i].0@ ==> #[trigger] assoc_lookup(entries.remove(i), key)
                == assoc_lookup(entries, key),
    decreases entries.len(),
{
    entries.remove_ensures(i);
    assert(keys_unique(entries.remove(i))) by {
        assert forall|p: int, q: int|
            0 <= p < q < entries.remove(i).len() implies (#[trigger] entries.remove(i)[p]).0@ != (
        #[trigger] entries.remove(i)[q]).0@ by {
            if p < i && q < i {
                assert(entries.remove(i)[p] == entries[p]);
                assert(entries.remove(i)[q] == entries[q]);
            } else if p < i {
                assert(entries.remove(i)[p] == entries[p]);
                assert(entries.remove(i)[q] == entries[q + 1]);
            } else {
                assert(entries.remove(i)[p] == entries[p + 1]);
                assert(entries.remove(i)[q] == entries[q + 1]);
            }
        }
    }
    assert(assoc_lookup(entries.remove(i), entries[i].0@) is None) by {
        lemma_lookup_none(entries.remove(i), entries[i].0@);
        assert forall|j: int| 0 <= j < entries.remove(i).len() implies (#[trigger] entries.remove(
            i,
        )[j]).0@ != entries[i].0@ by {
            if j < i {
                assert(entries.remove(i)[j] == entries[j]);
            } else {
                assert(entries.remove(i)[j] == entries[j + 1]);
            }
        }
    }
    assert forall|key: Seq<char>| key != entries[i].0@ implies #[trigger] assoc_lookup(
        entries.remove(i),
        key,
    ) == assoc_lookup(entries, key) by {
        if i == 0 {
            assert(entries.remove(0) =~= entries.drop_first());
        } else {
            lemma_unique_drop_first(entries);
            assert(entries.drop_first()[i - 1] == entries[i]);
            lemma_lookup_remove(entries.drop_first(), i - 1);
            assert(entries.remove(i).drop_first() =~= entries.drop_first().remove(i - 1));
            assert(entries.remove(i)[0] == entries[0]);
            if entries[0].0@ != key {
                assert(assoc_lookup(entries.drop_first().remove(i - 1), key) == assoc_lookup(
                    entries.drop_first(),
                    key,
                ));
            }
        }
    }
}

/// Appending an entry whose key is absent defines that key and leaves
/// every other key's lookup unchanged; unique keys stay unique.
pub proof fn lemma_lookup_push<V>(entries: Seq<(String, V)>, entry: (String, V))
    requires
        keys_unique(entries),
        assoc_lookup(entries, entry.0@) is None,
    ensures
        keys_unique(entries.push(entry)),
        assoc_lookup(entries.push(entry), entry.0@) == Some(entry.1),
        forall|key: Seq<char>|
            key != entry.0@ ==> #[trigger] assoc_lookup(entries.push(entry), key) == assoc_lookup(
                entries,
                key,
            ),
    decreases entries.len(),
{
    lemma_lookup_none(entries, entry.0@);
    assert(keys_unique(entries.push(entry))) by {
        assert forall|p: int, q: int|
            0 <= p < q < entries.push(entry).len() implies (#[trigger] entries.push(entry)[p]).0@
            != (#[trigger] entries.push(entry)[q]).0@ by {
            if q < entries.len() {
                assert(entries.push(entry)[p] == entries[p]);
                assert(entries.push(entry)[q] == entries[q]);
            } else {
                assert(entries.push(entry)[p] == entries[p]);
                assert(entries.push(entry)[q] == entry);
            }
        }
    }
    let pushed = entries.push(entry);
    if entries.len() == 0 {
        assert(pushed[0] == entry);
        assert(pushed.drop_first() =~= Seq::<(String, V)>::empty());
        assert forall|key: Seq<char>| key != entry.0@ implies #[trigger] assoc_lookup(pushed, key)
            == assoc_lookup(entries, key) by {
            assert(assoc_lookup(pushed.drop_first(), key) is None);
        }
    } else {
        lemma_unique_drop_first(entries);
        assert(entries.drop_first().push(entry) =~= pushed.drop_first());
        lemma_lookup_push(entries.drop_first(), entry);
        assert(pushed[0] == entries[0]);
        assert forall|key: Seq<char>| key != entry.0@ implies #[trigger] assoc_lookup(pushed, key)
            == assoc_lookup(entries, key) by {
            if entries[0].0@ != key {
                assert(assoc_lookup(pushed, key) == assoc_lookup(pushed.drop_first(), key));
                assert(assoc_lookup(entries.drop_first().push(entry), key) == assoc_lookup(
                    entries.drop_first(),
                    key,
                ));
            }
        }
    }
}

/// The thresholds of a project-shaped setting, as the mapping they stand
/// for.
pub open spec fn thresholds_map(entries: Seq<(String, Threshold)>) -> Map<Seq<char>, Threshold> {
    Map::new(
        |k: Seq<char>| assoc_lookup(entries, k) is Some,
        |k: Seq<char>| assoc_lookup(entries, k).unwrap(),
    )
}

/// Whether a setting is well formed: a project-shaped setting keys its
/// thresholds uniquely.
pub open spec fn setting_wf(setting: Setting) -> bool {
    match setting {
        Setting::Project(p) => keys_unique(p.thresholds@),
        Setting::DefaultLabel(_) => true,
    }
}

/// The threshold mapping that setting one domain's threshold leaves for
/// the project: the project's previous thresholds when its setting was
/// project-shaped, the empty mapping otherwise (a default-label setting
/// is deliberately discarded), with the domain bound to the new
/// threshold.
pub open spec fn updated_thresholds(
    pre: Seq<(String, Setting)>,
    project_id: Seq<char>,
    name: Seq<char>,
    threshold: Threshold,
) -> Map<Seq<char>, Threshold> {
    match assoc_lookup(pre, project_id) {
        Some(Setting::Project(p)) => thresholds_map(p.thresholds@).insert(name, threshold),
        _ => Map::<Seq<char>, Threshold>::empty().insert(name, threshold),
    }
}

/// How the store after `set_threshold` relates to the store before it:
/// every other project's setting is untouched, and the project now holds
/// a project-shaped setting whose thresholds are exactly
/// `updated_thresholds` of the store before.
pub open spec fn set_threshold_rel(
    pre: Seq<(String, Setting)>,
    post: Seq<(String, Setting)>,
    project_id: Seq<char>,
    name: Seq<char>,
    threshold: Threshold,
) -> bool {
    &&& forall|k: Seq<char>|
        k != project_id ==> #[trigger] assoc_lookup(post, k) == assoc_lookup(pre, k)
    &&& assoc_lookup(post, project_id) matches Some(Setting::Project(p))
        && thresholds_map(p.thresholds@) == updated_thresholds(pre, project_id, name, threshold)
}

/// Setting the same project and domain twice leaves only the second
/// threshold present: the final store relates to the initial one exactly
/// as if only the second call had run, so the project's other domains and
/// every other project keep the settings they had before the first call.
pub proof fn lemma_second_threshold_wins(
    p0: Seq<(String, Setting)>,
    p1: Seq<(String, Setting)>,
    p2: Seq<(String, Setting)>,
    project_id: Seq<char>,
    name: Seq<char>,
    t1: Threshold,
    t2: Threshold,
)
    requires
        set_threshold_rel(p0, p1, project_id, name, t1),
        set_threshold_rel(p1, p2, project_id, name, t2),
    ensures
        set_threshold_rel(p0, p2, project_id, name, t2),
{
    assert(updated_thresholds(p1, project_id, name, t2) =~= updated_thresholds(
        p0,
        project_id,
        name,
        t2,
    ));
}

/// The index at which an association list holds a key, if any.
fn find_key_index<V>(entries: &Vec<(String, V)>, key: &String) -> (r: Option<usize>)
    ensures
        r matches Some(i) ==> i < entries@.len() && entries@[i as int].0@ == key@,
        r is None ==> forall|j: int|
            0 <= j < entries@.len() ==> (#[trigger] entries@[j]).0@ != key@,
{
    let n = entries.len();
    let mut i: usize = 0;
    while i < n
        invariant
            i <= n,
            n == entries@.len(),
            forall|j: int| 0 <= j < i ==> (#[trigger] entries@[j]).0@ != key@,
        decreases n - i,
    {
        if entries[i].0.eq(key) {
            return Some(i);
        }
        i = i + 1;
    }
    None
}

impl UserSettings {
    /// Well-formedness: project identifiers are unique and every setting
    /// is well formed.
    pub open spec fn wf(&self) -> bool {
        &&& keys_unique(self.projects@)
        &&& forall|i: int|
            0 <= i < self.projects@.len() ==> setting_wf((#[trigger] self.projects@[i]).1)
    }

    /// Set the threshold for one risk domain of one project.
    ///
    /// When the project has no setting yet, or a setting that is not
    /// project-shaped, it is replaced by a fresh project-shaped setting
    /// with an empty threshold mapping — a pre-existing default-label
    /// setting is deliberately discarded. The domain's threshold is then
    /// inserted or overwritten; every other domain of the project and
    /// every other project keep their settings.
    pub fn set_threshold(&mut self, project_id: String, name: String, threshold: Threshold)
        requires
            old(self).wf(),
        ensures
            final(self).wf(),
            final(self).version == old(self).version,
            set_threshold_rel(
                old(self).projects@,
                final(self).projects@,
                project_id@,
                name@,
                threshold,
            ),
    {
        let ghost pre = self.projects@;
        let ghost id_v = project_id@;
        let ghost name_v = name@;
        let ghost expected = updated_thresholds(pre, id_v, name_v, threshold);
        let mut project: UserProject = UserProject { thresholds: Vec::new() };
        match find_key_index(&self.projects, &project_id) {
            Some(i) => {
                proof {
                    lemma_lookup_at_index(pre, i as int);
                    lemma_lookup_remove(pre, i as int);
                    pre.remove_ensures(i as int);
                }
                let entry = self.projects.remove(i);
                proof {
                    assert(setting_wf(pre[i as int].1));
                }
                if let Setting::Project(p) = entry.1 {
                    project = p;
                }
            },
            None => {
                proof {
                    lemma_lookup_none(pre, id_v);
                }
            },
        }
        // The store now has no entry for the project, every other key is
        // untouched, and `project.thresholds` holds the previous
        // project-shaped thresholds, or nothing.
        let ghost mid = self.projects@;
        let ghost base = project.thresholds@;
        proof {
            assert(keys_unique(mid));
            assert(assoc_lookup(mid, id_v) is None);
            assert(forall|k: Seq<char>|
                k != id_v ==> #[trigger] assoc_lookup(mid, k) == assoc_lookup(pre, k));
            assert forall|j: int| 0 <= j < mid.len() implies setting_wf(
                (#[trigger] mid[j]).1,
            ) by {
                if mid != pre {
                }
            }
            assert(keys_unique(base));
            assert(expected =~= thresholds_map(base).insert(name_v, threshold)) by {
                match assoc_lookup(pre, id_v) {
                    Some(Setting::Project(p)) => {
                        assert(base == p.thresholds@);
                    },
                    _ => {
                        assert(base =~= Seq::<(String, Threshold)>::empty());
                        assert(thresholds_map(base) =~= Map::<Seq<char>, Threshold>::empty());
                    },
                }
            }
        }
        match find_key_index(&project.thresholds, &name) {
            Some(t) => {
                proof {
                    lemma_lookup_at_index(base, t as int);
                    lemma_lookup_remove(base, t as int);
                }
                let _ = project.thresholds.remove(t);
            },
            None => {
                proof {
                    lemma_lookup_none(base, name_v);
                }
            },
        }
        // The domain is now absent from the project's thresholds; every
        // other domain's lookup is as in `base`. Append the new binding.
        let ghost trimmed = project.thresholds@;
        proof {
            assert(keys_unique(trimmed));
            assert(assoc_lookup(trimmed, name_v) is None);
            assert(forall|k: Seq<char>|
                k != name_v ==> #[trigger] assoc_lookup(trimmed, k) == assoc_lookup(base, k));
            lemma_lookup_push(trimmed, (name, threshold));
        }
        project.thresholds.push((name, threshold));
        let ghost final_ts = project.thresholds@;
        proof {
            assert(final_ts == trimmed.push((name, threshold)));
            assert(thresholds_map(final_ts) =~= expected);
            lemma_lookup_push(mid, (project_id, Setting::Project(project)));
        }
        self.projects.push((project_id, Setting::Project(project)));
        proof {
            let post = self.projects@;
            assert(assoc_lookup(post, id_v) matches Some(s) && s matches Setting::Project(p)
                && p.thresholds@ == final_ts);
            assert(final(self).wf()) by {
                assert forall|j: int| 0 <= j < post.len() implies setting_wf(
                    (#[trigger] post[j]).1,
                ) by {
                    if j < mid.len() {
                        assert(post[j] == mid[j]);
                    } else {
                        assert(post[j] == post.last());
                    }
                }
            }
        }
    }
}

} // verus!
