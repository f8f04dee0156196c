//! The catalogue of known application builds, filled from the sources that
//! publish it. An entry, once known, is never replaced.
use vstd::prelude::*;
use crate::fingerprint::fingerprint::{ApkBuildFingerprint, ApkBuildFingerprintView};

verus! {

/// The catalogue that a sequence of entries stands for: a later entry of a
/// version replaces an earlier one.
pub open spec fn entries_map(s: Seq<(String, ApkBuildFingerprint)>) -> Map<Seq<char>, ApkBuildFingerprintView>
    decreases s.len(),
{
    if s.len() == 0 {
        Map::empty()
    } else {
        entries_map(s.drop_last()).insert(s.last().0@, s.last().1@)
    }
}

/// `m` after adding the entries of `s` in order, each only when its version
/// is not known yet: what is known stays, and of two entries of one version
/// the first counts.
pub open spec fn or_insert_all(
    m: Map<Seq<char>, ApkBuildFingerprintView>,
    s: Seq<(String, ApkBuildFingerprint)>,
) -> Map<Seq<char>, ApkBuildFingerprintView>
    decreases s.len(),
{
    if s.len() == 0 {
        m
    } else {
        let before = or_insert_all(m, s.drop_last());
        if before.contains_key(s.last().0@) {
            before
        } else {
            before.insert(s.last().0@, s.last().1@)
        }
    }
}

/// The entry of `version` in a fetched catalogue: its first one.
pub open spec fn fetched_entry(s: Seq<(String, ApkBuildFingerprint)>, version: Seq<char>) -> Option<
    ApkBuildFingerprintView,
> {
    let m = or_insert_all(Map::empty(), s);
    if m.contains_key(version) {
        Some(m[version])
    } else {
        None
    }
}

fn copy_strings(v: &Vec<String>) -> (res: Vec<String>)
    ensures
        res@ == v@,
{
    let mut out: Vec<String> = Vec::new();
    for i in 0..v.len()
        invariant
            out@ == v@.take(i as int),
    {
        out.push(v[i].clone());
        assert(out@ =~= v@.take(i + 1));
    }
    assert(v@.take(v@.len() as int) =~= v@);
    out
}

fn copy_pairs(v: &Vec<(String, String)>) -> (res: Vec<(String, String)>)
    ensures
        res@ == v@,
{
    let mut out: Vec<(String, String)> = Vec::new();
    for i in 0..v.len()
        invariant
            out@ == v@.take(i as int),
    {
        out.push((v[i].0.clone(), v[i].1.clone()));
        assert(out@ =~= v@.take(i + 1));
    }
    assert(v@.take(v@.len() as int) =~= v@);
    out
}

impl ApkBuildFingerprint {
    /// A copy of the fingerprint.
    pub fn copy(&self) -> (res: ApkBuildFingerprint)
        ensures
            res@ == self@,
    {
        ApkBuildFingerprint {
            signature_scheme: self.signature_scheme.clone(),
            certificate_count: self.certificate_count,
            certificate_meta_sha256: self.certificate_meta_sha256.clone(),
            certificate_sha256: copy_strings(&self.certificate_sha256),
            dex_meta_sha256: self.dex_meta_sha256.clone(),
            so_meta_sha256_arm64_v8a: match &self.so_meta_sha256_arm64_v8a {
                Some(s) => Some(s.clone()),
                None => None,
            },
            so_meta_sha256: copy_pairs(&self.so_meta_sha256),
            build_number: self.build_number,
        }
    }
}

/// The known builds, by application version.
pub struct VersionCache {
    entries: Vec<(String, ApkBuildFingerprint)>,
}

impl View for VersionCache {
    type V = Map<Seq<char>, ApkBuildFingerprintView>;

    closed spec fn view(&self) -> Map<Seq<char>, ApkBuildFingerprintView> {
        entries_map(self.entries@)
    }
}

impl VersionCache {
    /// A catalogue that knows no build.
    pub fn new() -> (res: VersionCache)
        ensures
            res@ == Map::<Seq<char>, ApkBuildFingerprintView>::empty(),
    {
        VersionCache { entries: Vec::new() }
    }

    /// The build of `version`, when it is known.
    #[verifier::loop_isolation(false)]
    pub fn get(&self, version: &str) -> (res: Option<&ApkBuildFingerprint>)
        ensures
            match res {
                Some(f) => self@.contains_key(version@) && self@[version@] == f@,
                None => !self@.contains_key(version@),
            },
    {
        let k = version.to_owned();
        let entries = &self.entries;
        let mut i: usize = entries.len();
        assert(entries@.take(i as int) =~= entries@);
        while i > 0
            invariant
                i <= entries@.len(),
                k@ == version@,
                entries_map(entries@).contains_key(version@) == entries_map(entries@.take(i as int)).contains_key(
                    version@,
                ),
                entries_map(entries@).contains_key(version@) ==> entries_map(entries@)[version@]
                    == entries_map(entries@.take(i as int))[version@],
            decreases i,
        {
            let t = Ghost(entries@.take(i as int));
            assert(t@.drop_last() =~= entries@.take(i - 1));
            assert(t@.last() == entries@[i - 1]);
            i = i - 1;
            if entries[i].0 == k {
                return Some(&entries[i].1);
            }
        }
        None
    }

    /// Adds the entries of `incoming`, in order, each only when its version
    /// is not known yet.
    pub fn merge(&mut self, incoming: Vec<(String, ApkBuildFingerprint)>)
        ensures
            final(self)@ == or_insert_all(old(self)@, incoming@),
    {
        let ghost orig = incoming@;
        let ghost start = self@;
        let mut rest = incoming;
        let mut done: usize = 0;
        let n = rest.len();
        assert(orig.take(0) =~= Seq::<(String, ApkBuildFingerprint)>::empty());
        assert(orig.skip(0) =~= orig);
        while rest.len() > 0
            invariant
                done <= orig.len(),
                orig.len() == n,
                rest@ == orig.skip(done as int),
                self@ == or_insert_all(start, orig.take(done as int)),
            decreases rest.len(),
        {
            let (k, v) = rest.remove(0);
            proof {
                let t = orig.take(done + 1);
                assert(t.drop_last() =~= orig.take(done as int));
                assert(t.last() == orig[done as int]);
                assert(orig[done as int] == (k, v));
                assert(rest@ =~= orig.skip(done + 1));
            }
            let known = self.get(k.as_str()).is_some();
            if !known {
                let ghost e = self.entries@;
                self.entries.push((k, v));
                assert(self.entries@.drop_last() =~= e);
            }
            done = done + 1;
        }
        assert(orig.take(orig.len() as int) =~= orig);
    }

    /// Takes in a fetched catalogue: returns its entry for `version`, and
    /// adds its entries as [`VersionCache::merge`] does.
    pub fn absorb(&mut self, version: &str, fetched: Vec<(String, ApkBuildFingerprint)>) -> (res: Option<
        ApkBuildFingerprint,
    >)
        ensures
            final(self)@ == or_insert_all(old(self)@, fetched@),
            match res {
                Some(f) => fetched_entry(fetched@, version@) == Some(f@),
                None => fetched_entry(fetched@, version@) is None,
            },
    {
        let mut staged = VersionCache::new();
        let k = version.to_owned();
        let mut found: Option<ApkBuildFingerprint> = None;
        let mut i: usize = 0;
        while i < fetched.len()
            invariant
                i <= fetched@.len(),
                k@ == version@,
                staged@ == or_insert_all(Map::empty(), fetched@.take(i as int)),
                found is None ==> !staged@.contains_key(version@),
                found matches Some(f) ==> staged@.contains_key(version@) && staged@[version@] == f@,
            decreases fetched@.len() - i,
        {
            let t = Ghost(fetched@.take(i + 1));
            assert(t@.drop_last() =~= fetched@.take(i as int));
            assert(t@.last() == fetched@[i as int]);
            if staged.get(fetched[i].0.as_str()).is_none() {
                if found.is_none() && fetched[i].0 == k {
                    found = Some(fetched[i].1.copy());
                }
                let ghost e = staged.entries@;
                staged.entries.push((fetched[i].0.clone(), fetched[i].1.copy()));
                assert(staged.entries@.drop_last() =~= e);
            }
            i = i + 1;
        }
        assert(fetched@.take(fetched@.len() as int) =~= fetched@);
        self.merge(fetched);
        found
    }
}

/// The sources of builds, in the order they are consulted: the local file,
/// the project's published catalogue, then its mirror.
#[derive(Debug, Clone, Copy, PartialEq, Eq, Structural)]
pub enum VersionSource {
    LocalFile,
    Published,
    Mirror,
}

/// The source consulted after `source`, if any.
pub open spec fn next_source(source: VersionSource) -> Option<VersionSource> {
    match source {
        VersionSource::LocalFile => Some(VersionSource::Published),
        VersionSource::Published => Some(VersionSource::Mirror),
        VersionSource::Mirror => None,
    }
}

/// Where a lookup of a build stands: found, to be fetched from a source, or
/// known by none of them.
#[derive(Debug)]
pub enum VersionLookup {
    Found(ApkBuildFingerprint),
    Fetch(VersionSource),
    NotFound,
}

/// What a lookup does once `source` gave nothing for the version.
pub open spec fn after_miss(res: VersionLookup, source: VersionSource) -> bool {
    match next_source(source) {
        Some(n) => res matches VersionLookup::Fetch(m) && m == n,
        None => res is NotFound,
    }
}

fn lookup_after(source: VersionSource) -> (res: VersionLookup)
    ensures
        after_miss(res, source),
{
    match source {
        VersionSource::LocalFile => VersionLookup::Fetch(VersionSource::Published),
        VersionSource::Published => VersionLookup::Fetch(VersionSource::Mirror),
        VersionSource::Mirror => VersionLookup::NotFound,
    }
}

impl VersionCache {
    /// The first step of looking up the build of `version`: the known build,
    /// or, when there is none, fetching the local file.
    pub fn lookup_start(&self, version: &str) -> (res: VersionLookup)
        ensures
            match res {
                VersionLookup::Found(f) => self@.contains_key(version@) && self@[version@] == f@,
                VersionLookup::Fetch(s) => !self@.contains_key(version@) && s == VersionSource::LocalFile,
                VersionLookup::NotFound => false,
            },
    {
        match self.get(version) {
            Some(f) => VersionLookup::Found(f.copy()),
            None => VersionLookup::Fetch(VersionSource::LocalFile),
        }
    }

    /// The next step of looking up the build of `version`, once `source`
    /// was fetched: `fetched` is the catalogue it gave, `None` when it could
    /// not be read or parsed. What it lists is merged into the catalogue;
    /// its entry of `version` is the answer, and when it has none the next
    /// source is fetched, or the lookup ends without a build after the last.
    /// When the version was not known before, the catalogue afterwards knows
    /// it exactly when the lookup found it, and as it was found.
    pub fn lookup_continue(
        &mut self,
        version: &str,
        source: VersionSource,
        fetched: Option<Vec<(String, ApkBuildFingerprint)>>,
    ) -> (res: VersionLookup)
        ensures
            final(self)@ == match fetched {
                Some(s) => or_insert_all(old(self)@, s@),
                None => old(self)@,
            },
            match fetched {
                Some(s) => match fetched_entry(s@, version@) {
                    Some(f) => res matches VersionLookup::Found(g) && g@ == f,
                    None => after_miss(res, source),
                },
                None => after_miss(res, source),
            },
            !old(self)@.contains_key(version@) ==> match res {
                VersionLookup::Found(f) => final(self)@.contains_key(version@) && final(self)@[version@] == f@,
                _ => !final(self)@.contains_key(version@),
            },
    {
        let ghost before = self@;
        match fetched {
            Some(entries) => {
                let ghost s = entries@;
                let found = self.absorb(version, entries);
                proof {
                    if !before.contains_key(version@) {
                        lemma_merge_adds_fetched(before, s, version@);
                    }
                }
                match found {
                    Some(f) => VersionLookup::Found(f),
                    None => lookup_after(source),
                }
            },
            None => lookup_after(source),
        }
    }
}

/// A build, once known, stays as it was whatever is merged later, and after a
/// merge every version of the merged entries is known.
pub proof fn lemma_merge_keeps_known(
    m: Map<Seq<char>, ApkBuildFingerprintView>,
    s: Seq<(String, ApkBuildFingerprint)>,
)
    ensures
        forall|k: Seq<char>| #[trigger] m.contains_key(k) ==> or_insert_all(m, s).contains_key(k)
            && or_insert_all(m, s)[k] == m[k],
        forall|i: int| 0 <= i < s.len() ==> or_insert_all(m, s).contains_key(#[trigger] s[i].0@),
    decreases s.len(),
{
    if s.len() > 0 {
        lemma_merge_keeps_known(m, s.drop_last());
        assert forall|i: int| 0 <= i < s.len() implies or_insert_all(m, s).contains_key(#[trigger] s[i].0@) by {
            if i < s.len() - 1 {
                assert(s.drop_last()[i] == s[i]);
            }
        }
    }
}

/// An entry that a merge adds is the fetched catalogue's entry of that
/// version: when a version was not known, after the merge it is known as the
/// fetched catalogue has it.
pub proof fn lemma_merge_adds_fetched(
    m: Map<Seq<char>, ApkBuildFingerprintView>,
    s: Seq<(String, ApkBuildFingerprint)>,
    version: Seq<char>,
)
    requires
        !m.contains_key(version),
    ensures
        or_insert_all(m, s).contains_key(version) <==> fetched_entry(s, version) is Some,
        fetched_entry(s, version) matches Some(f) ==> or_insert_all(m, s)[version] == f,
    decreases s.len(),
{
    if s.len() > 0 {
        lemma_merge_adds_fetched(m, s.drop_last(), version);
        lemma_merge_keys(m, s.drop_last(), version);
    }
}

proof fn lemma_merge_keys(
    m: Map<Seq<char>, ApkBuildFingerprintView>,
    s: Seq<(String, ApkBuildFingerprint)>,
    version: Seq<char>,
)
    requires
        !m.contains_key(version),
    ensures
        or_insert_all(m, s).contains_key(version) == or_insert_all(Map::empty(), s).contains_key(version),
        or_insert_all(m, s).contains_key(version) ==> or_insert_all(m, s)[version] == or_insert_all(
            Map::empty(),
            s,
        )[version],
    decreases s.len(),
{
    if s.len() > 0 {
        lemma_merge_keys(m, s.drop_last(), version);
    }
}

/// The catalogue after merging the fetched catalogues `srcs` into `m`, one
/// after the other.
pub open spec fn absorb_sources(
    m: Map<Seq<char>, ApkBuildFingerprintView>,
    srcs: Seq<Seq<(String, ApkBuildFingerprint)>>,
) -> Map<Seq<char>, ApkBuildFingerprintView>
    decreases srcs.len(),
{
    if srcs.len() == 0 {
        m
    } else {
        or_insert_all(absorb_sources(m, srcs.drop_last()), srcs.last())
    }
}

/// A lookup of `version` that the catalogue `m` did not know, over the
/// sources `srcs` consulted in order up to the first that lists it: the
/// catalogue afterwards is `m` with every entry of those sources added
/// unless already present, an earlier source winning over a later one;
/// what was known stays as it was; and the catalogue knows `version`
/// exactly when the last source consulted lists it, as that source has it.
/// So after a lookup that found a build, a second lookup of the same
/// version finds that build in the catalogue.
pub proof fn lemma_lookup_run(
    m: Map<Seq<char>, ApkBuildFingerprintView>,
    srcs: Seq<Seq<(String, ApkBuildFingerprint)>>,
    version: Seq<char>,
)
    requires
        !m.contains_key(version),
        forall|i: int| 0 <= i < srcs.len() - 1 ==> (#[trigger] fetched_entry(srcs[i], version)) is None,
    ensures
        absorb_sources(m, srcs) == or_insert_all(m, srcs.flatten()),
        forall|k: Seq<char>| #[trigger] m.contains_key(k) ==> absorb_sources(m, srcs).contains_key(k)
            && absorb_sources(m, srcs)[k] == m[k],
        absorb_sources(m, srcs).contains_key(version) <==> srcs.len() > 0 && fetched_entry(srcs.last(), version)
            is Some,
        srcs.len() > 0 ==> (fetched_entry(srcs.last(), version) matches Some(f) ==> absorb_sources(m, srcs)[version]
            == f),
    decreases srcs.len(),
{
    if srcs.len() > 0 {
        let pre = srcs.drop_last();
        assert forall|i: int| 0 <= i < pre.len() - 1 implies (#[trigger] fetched_entry(pre[i], version)) is None by {
            assert(pre[i] == srcs[i]);
            assert(fetched_entry(srcs[i], version) is None);
        }
        lemma_lookup_run(m, pre, version);
        let before = absorb_sources(m, pre);
        if pre.len() > 0 {
            assert(pre.last() == srcs[srcs.len() - 2]);
            assert(fetched_entry(srcs[srcs.len() - 2], version) is None);
        }
        assert(!before.contains_key(version));
        lemma_merge_adds_fetched(before, srcs.last(), version);
        lemma_merge_keeps_known(before, srcs.last());
        srcs.lemma_flatten_and_flatten_alt_are_equivalent();
        pre.lemma_flatten_and_flatten_alt_are_equivalent();
        assert(srcs.flatten_alt() == pre.flatten_alt() + srcs.last());
        lemma_or_insert_all_concat(m, pre.flatten(), srcs.last());
    } else {
        assert(srcs.flatten() =~= Seq::<(String, ApkBuildFingerprint)>::empty());
    }
}

/// Merging `a` then `b` is merging their concatenation.
proof fn lemma_or_insert_all_concat(
    m: Map<Seq<char>, ApkBuildFingerprintView>,
    a: Seq<(String, ApkBuildFingerprint)>,
    b: Seq<(String, ApkBuildFingerprint)>,
)
    ensures
        or_insert_all(m, a + b) == or_insert_all(or_insert_all(m, a), b),
    decreases b.len(),
{
    if b.len() == 0 {
        assert(a + b =~= a);
    } else {
        lemma_or_insert_all_concat(m, a, b.drop_last());
        assert((a + b).drop_last() =~= a + b.drop_last());
        assert((a + b).last() == b.last());
    }
}

} // verus!
