//! The two time-to-live caches.
//!
//! Both caches are explicit, long-lived objects: a single slot for the
//! top-level manifest and a keyed store for normalized versions. Time is a
//! caller-supplied monotonic reading in milliseconds; a stored value is
//! fresh while strictly less than the tier's time-to-live has elapsed.
//! Lookups return copies; stores replace whole entries.

use vstd::prelude::*;

use crate::types::{
    NormalizedVersion, NormalizedVersionModel, VersionManifest, VersionManifestModel,
};

verus! {

/// How long a cached top-level manifest stays fresh, in milliseconds.
pub const MANIFEST_TTL_MILLIS: u64 = 50 * 60 * 1000;

/// How long a cached normalized version stays fresh, in milliseconds.
pub const VERSION_TTL_MILLIS: u64 = 30 * 60 * 1000;

/// Whether a value stored at `stored_at` is still fresh at `now` under
/// `ttl`. Elapsed time saturates at zero when the clock reads earlier than
/// the store, as a monotonic clock's difference does.
pub open spec fn spec_fresh(stored_at: u64, now: u64, ttl: u64) -> bool {
    now < stored_at || now - stored_at < ttl
}

fn is_fresh(stored_at: u64, now: u64, ttl: u64) -> (r: bool)
    ensures
        r == spec_fresh(stored_at, now, ttl),
{
    now < stored_at || now - stored_at < ttl
}

/// The single-slot cache for the top-level manifest.
pub struct ManifestCache {
    pub data: Option<VersionManifest>,
    pub updated_at: Option<u64>,
}

/// What a read of the manifest cache at `now` yields: the stored manifest
/// while both the slot is filled and its timestamp is fresh.
pub open spec fn spec_manifest_hit(c: ManifestCache, now: u64) -> Option<VersionManifestModel> {
    match (c.data, c.updated_at) {
        (Some(d), Some(t)) => if spec_fresh(t, now, MANIFEST_TTL_MILLIS) {
            Some(d@)
        } else {
            None
        },
        _ => None,
    }
}

impl ManifestCache {
    /// An empty slot: nothing stored, no timestamp.
    pub fn new() -> (r: Self)
        ensures
            r.data is None,
            r.updated_at is None,
    {
        ManifestCache { data: None, updated_at: None }
    }

    /// Read at time `now`: a copy of the stored manifest exactly when the
    /// slot holds one that is still fresh.
    pub fn lookup(&self, now: u64) -> (r: Option<VersionManifest>)
        ensures
            match r {
                Some(m) => spec_manifest_hit(*self, now) == Some(m@),
                None => spec_manifest_hit(*self, now) is None,
            },
    {
        match (&self.data, &self.updated_at) {
            (Some(d), Some(t)) => {
                if is_fresh(*t, now, MANIFEST_TTL_MILLIS) {
                    Some(d.clone())
                } else {
                    None
                }
            },
            _ => None,
        }
    }

    /// Overwrite the slot with `manifest` read at `now`, unconditionally:
    /// last writer wins.
    pub fn store(&mut self, manifest: VersionManifest, now: u64)
        ensures
            final(self).data matches Some(d) && d@ == manifest@,
            final(self).updated_at == Some(now),
    {
        self.data = Some(manifest);
        self.updated_at = Some(now);
    }
}

/// First entry stored under `id`: its model and its timestamp.
pub open spec fn spec_entry_lookup(
    entries: Seq<(String, NormalizedVersion, u64)>,
    id: Seq<char>,
) -> Option<(NormalizedVersionModel, u64)>
    decreases entries.len(),
{
    if entries.len() == 0 {
        None
    } else if entries[0].0@ == id {
        Some((entries[0].1@, entries[0].2))
    } else {
        spec_entry_lookup(entries.drop_first(), id)
    }
}

/// What a read of the keyed cache at `now` yields for `id`: the stored
/// version while its entry exists and its timestamp is fresh.
pub open spec fn spec_version_hit(c: VersionCache, id: Seq<char>, now: u64) -> Option<
    NormalizedVersionModel,
> {
    match spec_entry_lookup(c.entries@, id) {
        Some((m, t)) => if spec_fresh(t, now, VERSION_TTL_MILLIS) {
            Some(m)
        } else {
            None
        },
        None => None,
    }
}

/// The keyed cache of normalized versions, one entry per identifier.
pub struct VersionCache {
    pub entries: Vec<(String, NormalizedVersion, u64)>,
}

impl VersionCache {
    /// An empty cache.
    pub fn new() -> (r: Self)
        ensures
            r.entries@.len() == 0,
    {
        VersionCache { entries: Vec::new() }
    }

    /// Read `id` at time `now`: a copy of the stored version exactly when
    /// an entry for `id` exists and is still fresh. An expired entry is a
    /// miss but stays in place until overwritten.
    #[verifier::loop_isolation(false)]
    pub fn lookup(&self, id: &String, now: u64) -> (r: Option<NormalizedVersion>)
        ensures
            match r {
                Some(v) => spec_version_hit(*self, id@, now) == Some(v@),
                None => spec_version_hit(*self, id@, now) is None,
            },
    {
        let n = self.entries.len();
        let mut i: usize = 0;
        proof {
            assert(self.entries@.skip(0) =~= self.entries@);
        }
        while i < n
            invariant
                i <= n,
                spec_entry_lookup(self.entries@, id@) == spec_entry_lookup(
                    self.entries@.skip(i as int),
                    id@,
                ),
            decreases n - i,
        {
            proof {
                assert(self.entries@.skip(i as int)[0] == self.entries@[i as int]);
                assert(self.entries@.skip(i as int).drop_first() =~= self.entries@.skip(i + 1));
            }
            if self.entries[i].0 == *id {
                if is_fresh(self.entries[i].2, now, VERSION_TTL_MILLIS) {
                    return Some(self.entries[i].1.clone());
                } else {
                    return None;
                }
            }
            i += 1;
        }
        proof {
            assert(self.entries@.skip(n as int) =~= Seq::<(String, NormalizedVersion, u64)>::empty());
        }
        None
    }

    /// Store `version` under `id` read at `now`, replacing any previous
    /// entry for `id`; entries under other identifiers are untouched.
    #[verifier::loop_isolation(false)]
    pub fn insert(&mut self, id: String, version: NormalizedVersion, now: u64)
        ensures
            spec_entry_lookup(final(self).entries@, id@) matches Some((m, t)) && m == version@ && t
                == now,
            forall|other: Seq<char>|
                other != id@ ==> spec_entry_lookup(final(self).entries@, other)
                    == spec_entry_lookup(old(self).entries@, other),
    {
        let n = self.entries.len();
        let mut i: usize = 0;
        proof {
            assert(self.entries@.skip(0) =~= self.entries@);
        }
        while i < n
            invariant
                i <= n,
                self.entries@ == old(self).entries@,
                forall|j: int| 0 <= j < i ==> self.entries@[j].0@ != id@,
                spec_entry_lookup(self.entries@, id@) == spec_entry_lookup(
                    self.entries@.skip(i as int),
                    id@,
                ),
            decreases n - i,
        {
            proof {
                assert(self.entries@.skip(i as int)[0] == self.entries@[i as int]);
                assert(self.entries@.skip(i as int).drop_first() =~= self.entries@.skip(i + 1));
            }
            if self.entries[i].0 == id {
                let ghost idx = i as int;
                let ghost before = self.entries@;
                self.entries.set(i, (id, version, now));
                proof {
                    lemma_entry_lookup_update(before, idx, (id, version, now), id@);
                    assert forall|other: Seq<char>| other != id@ implies spec_entry_lookup(
                        self.entries@,
                        other,
                    ) == spec_entry_lookup(before, other) by {
                        lemma_entry_lookup_update(before, idx, (id, version, now), other);
                    }
                }
                return ;
            }
            i += 1;
        }
        let ghost before = self.entries@;
        self.entries.push((id, version, now));
        proof {
            assert(before.skip(n as int) =~= Seq::<(String, NormalizedVersion, u64)>::empty());
            lemma_entry_lookup_push(before, (id, version, now), id@);
            assert forall|other: Seq<char>| other != id@ implies spec_entry_lookup(
                self.entries@,
                other,
            ) == spec_entry_lookup(before, other) by {
                lemma_entry_lookup_push(before, (id, version, now), other);
            }
        }
    }
}

/// Expiry of the manifest slot: a manifest stored at time `t` is still
/// served unchanged by any read strictly before `t` plus the tier's
/// time-to-live, and any read at or past that point misses, which is what
/// makes the reader refresh.
pub proof fn lemma_manifest_cache_expiry(
    c: ManifestCache,
    m: VersionManifestModel,
    t: u64,
    now: u64,
)
    requires
        c.data matches Some(d) && d@ == m,
        c.updated_at == Some(t),
        t <= now,
    ensures
        now - t < MANIFEST_TTL_MILLIS ==> spec_manifest_hit(c, now) == Some(m),
        now - t >= MANIFEST_TTL_MILLIS ==> spec_manifest_hit(c, now) is None,
{
}

/// Expiry of a keyed entry: a version stored under `id` at time `t` is
/// still served unchanged by any read strictly before `t` plus the tier's
/// time-to-live, and any read at or past that point misses. Entries under
/// other identifiers play no part in either outcome.
pub proof fn lemma_version_cache_expiry(
    c: VersionCache,
    id: Seq<char>,
    m: NormalizedVersionModel,
    t: u64,
    now: u64,
)
    requires
        spec_entry_lookup(c.entries@, id) == Some((m, t)),
        t <= now,
    ensures
        now - t < VERSION_TTL_MILLIS ==> spec_version_hit(c, id, now) == Some(m),
        now - t >= VERSION_TTL_MILLIS ==> spec_version_hit(c, id, now) is None,
{
}

/// Effect of replacing the entry at `idx` on a lookup: when the entry there
/// keeps its key, a lookup of a key settled before `idx` is unchanged, a
/// lookup of the replaced key that first matches at `idx` sees the new
/// entry, and a lookup of any other key is unchanged.
proof fn lemma_entry_lookup_update(
    entries: Seq<(String, NormalizedVersion, u64)>,
    idx: int,
    e: (String, NormalizedVersion, u64),
    id: Seq<char>,
)
    requires
        0 <= idx < entries.len(),
        e.0@ == entries[idx].0@,
        forall|j: int| 0 <= j < idx ==> entries[j].0@ != entries[idx].0@,
    ensures
        id == entries[idx].0@ ==> spec_entry_lookup(entries.update(idx, e), id) == Some(
            (e.1@, e.2),
        ),
        id != entries[idx].0@ ==> spec_entry_lookup(entries.update(idx, e), id)
            == spec_entry_lookup(entries, id),
    decreases entries.len(),
{
    let updated = entries.update(idx, e);
    if idx == 0 {
        if id != entries[0].0@ {
            assert(updated.drop_first() =~= entries.drop_first());
        }
    } else {
        assert(updated[0] == entries[0]);
        assert(updated.drop_first() =~= entries.drop_first().update(idx - 1, e));
        lemma_entry_lookup_update(entries.drop_first(), idx - 1, e, id);
    }
}

/// Effect of appending an entry on a lookup: a key already present is
/// unchanged; the appended key becomes found when it was absent; other
/// absent keys stay absent.
proof fn lemma_entry_lookup_push(
    entries: Seq<(String, NormalizedVersion, u64)>,
    e: (String, NormalizedVersion, u64),
    id: Seq<char>,
)
    ensures
        spec_entry_lookup(entries, id) is Some ==> spec_entry_lookup(entries.push(e), id)
            == spec_entry_lookup(entries, id),
        spec_entry_lookup(entries, id) is None && id == e.0@ ==> spec_entry_lookup(
            entries.push(e),
            id,
        ) == Some((e.1@, e.2)),
        spec_entry_lookup(entries, id) is None && id != e.0@ ==> spec_entry_lookup(
            entries.push(e),
            id,
        ) is None,
    decreases entries.len(),
{
    if entries.len() == 0 {
        assert(entries.push(e)[0] == e);
        assert(entries.push(e).drop_first() =~= Seq::<(String, NormalizedVersion, u64)>::empty());
        assert(spec_entry_lookup(Seq::<(String, NormalizedVersion, u64)>::empty(), id) is None);
    } else {
        assert(entries.push(e)[0] == entries[0]);
        assert(entries.push(e).drop_first() =~= entries.drop_first().push(e));
        lemma_entry_lookup_push(entries.drop_first(), e, id);
    }
}

} // verus!
