use crate::registry_types::{
    layers_total, platform_entries, single_platform_parts, sum_layer_sizes, ImageConfigResponse,
    Manifest, OCIImageManifestV1Short, RegistryAnswer, RegistryErrors, RegistryResponse,
};
use crate::types::{ImageManifest, ImageSummary};
use vstd::prelude::*;

verus! {

/// The dedup table of a resolution: configuration digest to the digest of
/// the manifest that referenced it and that manifest's total layer size.
pub type ConfigTable = Map<Seq<char>, (Seq<char>, u64)>;

/// Whether a platform entry stands for a non-image object (an attestation).
pub open spec fn is_unknown_platform(e: OCIImageManifestV1Short) -> bool {
    e.platform.os@ == "unknown"@
}

/// Digests of the entries of a manifest list that are fetched as images, in
/// list order.
pub open spec fn sibling_targets(entries: Seq<OCIImageManifestV1Short>) -> Seq<Seq<char>>
    decreases entries.len(),
{
    if entries.len() == 0 {
        Seq::empty()
    } else {
        let prev = sibling_targets(entries.drop_last());
        if is_unknown_platform(entries.last()) {
            prev
        } else {
            prev.push(entries.last().digest@)
        }
    }
}

/// The identity of a fetched manifest: the digest the registry sent, or the
/// reference it was requested by when the registry sent none.
pub open spec fn answer_digest<T>(requested: Seq<char>, a: RegistryAnswer<T>) -> Seq<char> {
    match a.digest {
        Some(d) => d@,
        None => requested,
    }
}

/// What one fetched manifest adds to the table: a single-platform manifest
/// whose layer sizes sum within a `u64` maps its configuration digest to
/// itself, replacing an earlier entry; anything else adds nothing.
pub open spec fn record(table: ConfigTable, manifest_digest: Seq<char>, m: Manifest) -> ConfigTable {
    match single_platform_parts(m) {
        Some(parts) => match layers_total(parts.1) {
            Some(total) => table.insert(parts.0.digest@, (manifest_digest, total)),
            None => table,
        },
        None => table,
    }
}

/// The table built from sibling manifest answers in arrival order; failed
/// fetches are dropped.
pub open spec fn collected(answers: Seq<(String, RegistryResponse<Manifest>)>) -> ConfigTable
    decreases answers.len(),
{
    if answers.len() == 0 {
        Map::empty()
    } else {
        let prev = collected(answers.drop_last());
        match answers.last().1 {
            Ok(a) => record(prev, answer_digest(answers.last().0@, a), a.content),
            Err(_) => prev,
        }
    }
}

pub open spec fn author_text(author: Option<String>) -> Seq<char> {
    match author {
        Some(a) => a@,
        None => Seq::empty(),
    }
}

/// The summary assembled from a table value and the configuration blob.
pub open spec fn summary_of(origin: (Seq<char>, u64), c: ImageConfigResponse) -> ImageSummary {
    ImageSummary {
        digest: origin.0,
        author: author_text(c.author),
        os: c.os@,
        architecture: c.architecture@,
        total_size: origin.1,
    }
}

/// Summaries for the configuration answers in order: each successful answer
/// for a digest of the table gives one; failed ones are dropped.
pub open spec fn assembled(
    table: ConfigTable,
    answers: Seq<(String, RegistryResponse<ImageConfigResponse>)>,
) -> Seq<ImageSummary>
    decreases answers.len(),
{
    if answers.len() == 0 {
        Seq::empty()
    } else {
        let prev = assembled(table, answers.drop_last());
        let digest = answers.last().0@;
        match answers.last().1 {
            Ok(a) => if table.contains_key(digest) {
                prev.push(summary_of(table[digest], a.content))
            } else {
                prev
            },
            Err(_) => prev,
        }
    }
}

/// One row of the dedup table.
#[derive(Clone, Debug)]
pub struct ConfigEntry {
    pub config_digest: String,
    pub manifest_digest: String,
    pub total_size: u64,
}

/// The dedup table of a resolution, keyed by configuration digest, with its
/// keys kept in the order they were first inserted.
pub struct ConfigMap {
    entries: Vec<ConfigEntry>,
    table: Ghost<ConfigTable>,
}

impl View for ConfigMap {
    type V = ConfigTable;

    closed spec fn view(&self) -> ConfigTable {
        self.table@
    }
}

impl ConfigMap {
    /// The keys in the order of their first insertion.
    pub closed spec fn key_order(&self) -> Seq<Seq<char>> {
        self.entries@.map_values(|e: ConfigEntry| e.config_digest@)
    }

    pub closed spec fn wf(&self) -> bool {
        &&& forall|i: int, j: int|
            0 <= i < j < self.entries@.len() ==> #[trigger] self.entries@[i].config_digest@
                != #[trigger] self.entries@[j].config_digest@
        &&& forall|i: int|
            0 <= i < self.entries@.len() ==> #[trigger] self.table@.contains_key(
                self.entries@[i].config_digest@,
            ) && self.table@[self.entries@[i].config_digest@] == (
                self.entries@[i].manifest_digest@,
                self.entries@[i].total_size,
            )
        &&& forall|k: Seq<char>|
            #[trigger] self.table@.contains_key(k) ==> exists|i: int|
                0 <= i < self.entries@.len() && #[trigger] self.entries@[i].config_digest@ == k
    }

    /// An empty table.
    pub fn new() -> (r: Self)
        ensures
            r.wf(),
            r@ == ConfigTable::empty(),
            r.key_order() == Seq::<Seq<char>>::empty(),
    {
        ConfigMap { entries: Vec::new(), table: Ghost(Map::empty()) }
    }

    pub proof fn lemma_keys(&self)
        requires
            self.wf(),
        ensures
            self.key_order().no_duplicates(),
            self.key_order().to_set() == self@.dom(),
            self.key_order().len() == self@.dom().len(),
    {
        let ks = self.key_order();
        assert forall|i: int, j: int| 0 <= i < ks.len() && 0 <= j < ks.len() && i != j implies ks[i]
            != ks[j] by {
            if i < j {
                assert(self.entries@[i].config_digest@ != self.entries@[j].config_digest@);
            } else {
                assert(self.entries@[j].config_digest@ != self.entries@[i].config_digest@);
            }
        }
        assert forall|k: Seq<char>| ks.to_set().contains(k) <==> self@.dom().contains(k) by {
            if self@.dom().contains(k) {
                assert(self.table@.contains_key(k));
                let i = choose|i: int|
                    0 <= i < self.entries@.len() && #[trigger] self.entries@[i].config_digest@ == k;
                assert(ks[i] == k);
            }
            if ks.to_set().contains(k) {
                let i = choose|i: int| 0 <= i < ks.len() && ks[i] == k;
                assert(self.table@.contains_key(self.entries@[i].config_digest@));
            }
        }
        assert(ks.to_set() =~= self@.dom());
        ks.unique_seq_to_set();
    }

    /// Number of distinct configuration digests.
    pub fn len(&self) -> (r: usize)
        requires
            self.wf(),
        ensures
            r == self@.dom().len(),
    {
        proof {
            self.lemma_keys();
        }
        self.entries.len()
    }

    /// Maps `config_digest` to `(manifest_digest, total_size)`, replacing the
    /// value an equal digest had.
    pub fn insert(&mut self, config_digest: String, manifest_digest: String, total_size: u64)
        requires
            old(self).wf(),
        ensures
            final(self).wf(),
            final(self)@ == old(self)@.insert(config_digest@, (manifest_digest@, total_size)),
    {
        let ghost key = config_digest@;
        let ghost old_table = self.table@;
        let ghost new_table = old_table.insert(key, (manifest_digest@, total_size));
        let mut i: usize = 0;
        while i < self.entries.len()
            invariant
                i <= self.entries@.len(),
                self.wf(),
                self.table@ == old(self).table@,
                self.entries@ == old(self).entries@,
                old_table == old(self).table@,
                key == config_digest@,
                new_table == old_table.insert(key, (manifest_digest@, total_size)),
                forall|j: int| 0 <= j < i ==> self.entries@[j].config_digest@ != key,
            decreases self.entries@.len() - i,
        {
            if self.entries[i].config_digest == config_digest {
                let entry = ConfigEntry { config_digest, manifest_digest, total_size };
                self.entries.set(i, entry);
                self.table = Ghost(new_table);
                assert forall|k: Seq<char>| #[trigger] self.table@.contains_key(k) implies exists|
                    j: int,
                |
                    0 <= j < self.entries@.len() && #[trigger] self.entries@[j].config_digest@ == k by {
                    if k != key {
                        assert(new_table.contains_key(k));
                        assert(old_table.contains_key(k));
                        let j = choose|j: int|
                            0 <= j < old(self).entries@.len()
                                && #[trigger] old(self).entries@[j].config_digest@ == k;
                        assert(self.entries@[j].config_digest@ == k);
                    } else {
                        assert(self.entries@[i as int].config_digest@ == k);
                    }
                }
                return;
            }
            i = i + 1;
        }
        let entry = ConfigEntry { config_digest, manifest_digest, total_size };
        self.entries.push(entry);
        self.table = Ghost(new_table);
        assert forall|k: Seq<char>| #[trigger] self.table@.contains_key(k) implies exists|j: int|
            0 <= j < self.entries@.len() && #[trigger] self.entries@[j].config_digest@ == k by {
            if k != key {
                assert(new_table.contains_key(k));
                assert(old_table.contains_key(k));
                let j = choose|j: int|
                    0 <= j < old(self).entries@.len()
                        && #[trigger] old(self).entries@[j].config_digest@ == k;
                assert(self.entries@[j].config_digest@ == k);
            } else {
                assert(self.entries@[old(self).entries@.len() as int].config_digest@ == k);
            }
        }
    }
    /// The value of `config_digest`, if the table holds it.
    pub fn get(&self, config_digest: &String) -> (r: Option<(String, u64)>)
        requires
            self.wf(),
        ensures
            self@.contains_key(config_digest@) <==> r is Some,
            r matches Some(v) ==> self@[config_digest@] == (v.0@, v.1),
    {
        let mut i: usize = 0;
        while i < self.entries.len()
            invariant
                i <= self.entries@.len(),
                self.wf(),
                forall|j: int| 0 <= j < i ==> self.entries@[j].config_digest@ != config_digest@,
            decreases self.entries@.len() - i,
        {
            if self.entries[i].config_digest == *config_digest {
                assert(self.table@.contains_key(self.entries@[i as int].config_digest@));
                return Some((self.entries[i].manifest_digest.clone(), self.entries[i].total_size));
            }
            i = i + 1;
        }
        proof {
            if self@.contains_key(config_digest@) {
                assert(self.table@.contains_key(config_digest@));
                let j = choose|j: int|
                    0 <= j < self.entries@.len() && #[trigger] self.entries@[j].config_digest@
                        == config_digest@;
                assert(false);
            }
        }
        None
    }

    /// The configuration digests to fetch, each once, in the order of their
    /// first insertion.
    pub fn config_digests(&self) -> (r: Vec<String>)
        requires
            self.wf(),
        ensures
            r.deep_view() == self.key_order(),
            r.deep_view().no_duplicates(),
            r.deep_view().to_set() == self@.dom(),
    {
        proof {
            self.lemma_keys();
        }
        let mut out: Vec<String> = Vec::new();
        let mut i: usize = 0;
        while i < self.entries.len()
            invariant
                i <= self.entries@.len(),
                out@.len() == i,
                out.deep_view() == self.key_order().subrange(0, i as int),
            decreases self.entries@.len() - i,
        {
            let key = self.entries[i].config_digest.clone();
            let ghost before = out@;
            out.push(key);
            assert(self.key_order()[i as int] == self.entries@[i as int].config_digest@);
            assert(out.deep_view() =~= self.key_order().subrange(0, i as int + 1));
            i = i + 1;
        }
        assert(self.key_order().subrange(0, i as int) =~= self.key_order());
        out
    }
}

/// Digests of the platform entries to fetch as images: every entry but those
/// whose platform os is `unknown`, in list order.
pub fn sibling_digests(entries: &Vec<OCIImageManifestV1Short>) -> (r: Vec<String>)
    ensures
        r.deep_view() == sibling_targets(entries@),
{
    let unknown = String::from_str("unknown");
    let mut out: Vec<String> = Vec::new();
    let mut i: usize = 0;
    while i < entries.len()
        invariant
            i <= entries@.len(),
            unknown@ == "unknown"@,
            out.deep_view() == sibling_targets(entries@.subrange(0, i as int)),
        decreases entries@.len() - i,
    {
        assert(entries@.subrange(0, i as int + 1).drop_last() =~= entries@.subrange(0, i as int));
        if entries[i].platform.os != unknown {
            out.push(entries[i].digest.clone());
            assert(out.deep_view() =~= sibling_targets(entries@.subrange(0, i as int + 1)));
        }
        i = i + 1;
    }
    assert(entries@.subrange(0, i as int) =~= entries@);
    out
}

/// Records a fetched manifest in the table: see [`record`].
pub fn record_manifest(configs: &mut ConfigMap, manifest_digest: String, manifest: &Manifest)
    requires
        old(configs).wf(),
    ensures
        final(configs).wf(),
        final(configs)@ == record(old(configs)@, manifest_digest@, *manifest),
{
    match manifest {
        Manifest::OCIImageManifestV1(c) => {
            if let Some(total) = sum_layer_sizes(&c.layers) {
                configs.insert(c.config.digest.clone(), manifest_digest, total);
            }
        },
        Manifest::DockerDistributionManifestV2(c) => {
            if let Some(total) = sum_layer_sizes(&c.layers) {
                configs.insert(c.config.digest.clone(), manifest_digest, total);
            }
        },
        _ => {},
    }
}

/// The identity of a fetched manifest: see [`answer_digest`].
fn identity_of<T>(requested: &String, answer: &RegistryAnswer<T>) -> (r: String)
    ensures
        r@ == answer_digest(requested@, *answer),
{
    match &answer.digest {
        Some(d) => d.clone(),
        None => requested.clone(),
    }
}

/// Builds the dedup table from the answers of the sibling manifest fetches,
/// each paired with the digest it was requested by, in arrival order. Failed
/// fetches and manifests that are not single-platform are dropped; of two
/// manifests with one configuration digest the later one stays.
pub fn get_manifests_from_list(answers: &Vec<(String, RegistryResponse<Manifest>)>) -> (r: ConfigMap)
    ensures
        r.wf(),
        r@ == collected(answers@),
{
    let mut configs = ConfigMap::new();
    let mut i: usize = 0;
    while i < answers.len()
        invariant
            i <= answers@.len(),
            configs.wf(),
            configs@ == collected(answers@.subrange(0, i as int)),
        decreases answers@.len() - i,
    {
        assert(answers@.subrange(0, i as int + 1).drop_last() =~= answers@.subrange(0, i as int));
        let (requested, response) = &answers[i];
        if let Ok(answer) = response {
            let digest = identity_of(requested, answer);
            record_manifest(&mut configs, digest, &answer.content);
        }
        i = i + 1;
    }
    assert(answers@.subrange(0, i as int) =~= answers@);
    configs
}

/// One summary from its table value and configuration blob; the author is
/// empty when the blob names none.
pub fn summarize(manifest_digest: String, total_size: u64, config: &ImageConfigResponse) -> (r:
    ImageManifest)
    ensures
        r@ == summary_of((manifest_digest@, total_size), *config),
{
    let author = match &config.author {
        Some(a) => a.clone(),
        None => String::new(),
    };
    ImageManifest {
        digest: manifest_digest,
        author,
        total_size,
        os: config.os.clone(),
        architecture: config.architecture.clone(),
    }
}

/// Assembles the summaries from the configuration answers, each paired with
/// the configuration digest it was fetched by. Failed fetches are dropped.
pub fn get_manifests(
    configs: &ConfigMap,
    answers: &Vec<(String, RegistryResponse<ImageConfigResponse>)>,
) -> (r: Vec<ImageManifest>)
    requires
        configs.wf(),
    ensures
        r@.map_values(|m: ImageManifest| m@) == assembled(configs@, answers@),
{
    let mut out: Vec<ImageManifest> = Vec::new();
    let mut i: usize = 0;
    while i < answers.len()
        invariant
            i <= answers@.len(),
            configs.wf(),
            out@.map_values(|m: ImageManifest| m@) == assembled(configs@, answers@.subrange(0, i as int)),
        decreases answers@.len() - i,
    {
        assert(answers@.subrange(0, i as int + 1).drop_last() =~= answers@.subrange(0, i as int));
        let (digest, response) = &answers[i];
        if let Ok(answer) = response {
            if let Some(origin) = configs.get(digest) {
                let summary = summarize(origin.0, origin.1, &answer.content);
                out.push(summary);
                assert(out@.map_values(|m: ImageManifest| m@) =~= assembled(
                    configs@,
                    answers@.subrange(0, i as int + 1),
                ));
            }
        }
        i = i + 1;
    }
    assert(answers@.subrange(0, i as int) =~= answers@);
    out
}

/// What a resolution does after the top-level manifest has been fetched.
pub enum ResolvePlan {
    /// The manifest is an index or a manifest list: fetch these sibling
    /// manifests, then build the table with [`get_manifests_from_list`].
    FetchSiblings(Vec<String>),
    /// The manifest is a single-platform one: fetch the configuration blobs of
    /// this table, then assemble with [`get_manifests`].
    FetchConfigs(ConfigMap),
}

/// Starts resolving the top-level manifest answer for `reference`. A failed
/// fetch is the resolution's error. An index or a manifest list leads to its
/// sibling fetches; a single-platform manifest seeds the table with itself.
pub fn start_resolution(reference: &String, top: RegistryResponse<Manifest>) -> (r: Result<
    ResolvePlan,
    RegistryErrors,
>)
    ensures
        match top {
            Err(e) => r == Err::<ResolvePlan, RegistryErrors>(e),
            Ok(a) => match platform_entries(a.content) {
                Some(es) => r matches Ok(ResolvePlan::FetchSiblings(v)) && v.deep_view()
                    == sibling_targets(es),
                None => r matches Ok(ResolvePlan::FetchConfigs(m)) && m.wf() && m@ == record(
                    ConfigTable::empty(),
                    answer_digest(reference@, a),
                    a.content,
                ),
            },
        },
{
    match top {
        Err(e) => Err(e),
        Ok(answer) => match &answer.content {
            Manifest::OCIImageIndexV1(l) => Ok(ResolvePlan::FetchSiblings(sibling_digests(&l.manifests))),
            Manifest::DockerDistributionManifestListV2(l) => Ok(
                ResolvePlan::FetchSiblings(sibling_digests(&l.manifests)),
            ),
            _ => {
                let mut configs = ConfigMap::new();
                let digest = identity_of(reference, &answer);
                record_manifest(&mut configs, digest, &answer.content);
                Ok(ResolvePlan::FetchConfigs(configs))
            },
        },
    }
}

/// A successful fetch of a single-platform manifest whose layer sizes sum
/// within a `u64` and whose configuration digest is `config_digest`.
pub open spec fn fetched_platform_image(
    a: (String, RegistryResponse<Manifest>),
    config_digest: Seq<char>,
) -> bool {
    &&& a.1 is Ok
    &&& single_platform_parts(a.1->Ok_0.content) matches Some(parts) && parts.0.digest@
        == config_digest && layers_total(parts.1) is Some
}

/// The table value a fetched single-platform manifest records.
pub open spec fn origin_of(a: (String, RegistryResponse<Manifest>)) -> (Seq<char>, u64) {
    (
        answer_digest(a.0@, a.1->Ok_0),
        layers_total(single_platform_parts(a.1->Ok_0.content)->Some_0.1)->Some_0,
    )
}

/// Two sibling manifests that reference one configuration blob leave one
/// table entry, so one configuration fetch and one summary; its digest is
/// that of the sibling that arrived last, never both and never neither.
pub proof fn lemma_shared_config_one_summary(
    first: (String, RegistryResponse<Manifest>),
    second: (String, RegistryResponse<Manifest>),
    config_digest: String,
    config: RegistryResponse<ImageConfigResponse>,
)
    requires
        fetched_platform_image(first, config_digest@),
        fetched_platform_image(second, config_digest@),
        config is Ok,
    ensures
        collected(seq![first, second]).dom() == set![config_digest@],
        assembled(collected(seq![first, second]), seq![(config_digest, config)]) == seq![
            summary_of(origin_of(second), config->Ok_0.content),
        ],
        origin_of(second).0 == answer_digest(second.0@, second.1->Ok_0),
{
    reveal_with_fuel(collected, 3);
    reveal_with_fuel(assembled, 2);
    let answers = seq![first, second];
    assert(answers.drop_last() =~= seq![first]);
    assert(seq![first].drop_last() =~= Seq::<(String, RegistryResponse<Manifest>)>::empty());
    let one = collected(seq![first]);
    assert(one == ConfigTable::empty().insert(config_digest@, origin_of(first)));
    assert(collected(answers) == one.insert(config_digest@, origin_of(second)));
    assert(collected(answers) =~= map![config_digest@ => origin_of(second)]);
    assert(collected(answers).dom() =~= set![config_digest@]);
    let cs = seq![(config_digest, config)];
    assert(cs.drop_last() =~= Seq::<(String, RegistryResponse<ImageConfigResponse>)>::empty());
    assert(assembled(collected(answers), cs) =~= seq![
        summary_of(origin_of(second), config->Ok_0.content),
    ]);
}

/// When one of two sibling fetches fails, the other alone is resolved: the
/// table holds its configuration digest only, and a successful configuration
/// fetch gives exactly one summary, for the surviving sibling.
pub proof fn lemma_failed_sibling_dropped(
    fetched: (String, RegistryResponse<Manifest>),
    failed: (String, RegistryResponse<Manifest>),
    config_digest: String,
    config: RegistryResponse<ImageConfigResponse>,
)
    requires
        fetched_platform_image(fetched, config_digest@),
        failed.1 is Err,
        config is Ok,
    ensures
        collected(seq![fetched, failed]) == map![config_digest@ => origin_of(fetched)],
        collected(seq![failed, fetched]) == map![config_digest@ => origin_of(fetched)],
        assembled(map![config_digest@ => origin_of(fetched)], seq![(config_digest, config)])
            == seq![summary_of(origin_of(fetched), config->Ok_0.content)],
{
    reveal_with_fuel(collected, 3);
    reveal_with_fuel(assembled, 2);
    let a = seq![fetched, failed];
    let b = seq![failed, fetched];
    assert(a.drop_last() =~= seq![fetched]);
    assert(b.drop_last() =~= seq![failed]);
    assert(seq![fetched].drop_last() =~= Seq::<(String, RegistryResponse<Manifest>)>::empty());
    assert(seq![failed].drop_last() =~= Seq::<(String, RegistryResponse<Manifest>)>::empty());
    assert(collected(seq![fetched]) == ConfigTable::empty().insert(config_digest@, origin_of(fetched)));
    assert(collected(seq![failed]) == ConfigTable::empty());
    assert(collected(a) == collected(seq![fetched]));
    assert(collected(b) == ConfigTable::empty().insert(config_digest@, origin_of(fetched)));
    assert(collected(a) =~= map![config_digest@ => origin_of(fetched)]);
    assert(collected(b) =~= map![config_digest@ => origin_of(fetched)]);
    let cs = seq![(config_digest, config)];
    assert(cs.drop_last() =~= Seq::<(String, RegistryResponse<ImageConfigResponse>)>::empty());
    assert(assembled(map![config_digest@ => origin_of(fetched)], cs) =~= seq![
        summary_of(origin_of(fetched), config->Ok_0.content),
    ]);
}

proof fn lemma_collected_size(answers: Seq<(String, RegistryResponse<Manifest>)>)
    ensures
        collected(answers).dom().finite(),
        collected(answers).dom().len() <= answers.len(),
    decreases answers.len(),
{
    if answers.len() > 0 {
        lemma_collected_size(answers.drop_last());
    }
}

proof fn lemma_assembled_size(
    table: ConfigTable,
    answers: Seq<(String, RegistryResponse<ImageConfigResponse>)>,
)
    ensures
        assembled(table, answers).len() <= answers.len(),
    decreases answers.len(),
{
    if answers.len() > 0 {
        lemma_assembled_size(table, answers.drop_last());
    }
}

/// A manifest list never resolves to more summaries than sibling manifests
/// were fetched, when one configuration fetch is made per table entry.
pub proof fn lemma_summaries_bounded_by_siblings(
    answers: Seq<(String, RegistryResponse<Manifest>)>,
    config_answers: Seq<(String, RegistryResponse<ImageConfigResponse>)>,
)
    requires
        config_answers.len() == collected(answers).dom().len(),
    ensures
        assembled(collected(answers), config_answers).len() <= answers.len(),
{
    lemma_collected_size(answers);
    lemma_assembled_size(collected(answers), config_answers);
}

} // verus!
