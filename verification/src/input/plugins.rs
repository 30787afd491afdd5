//! Plugins configuration metadata

use crate::data::PluginTag;
use crate::input::layout::{RunPlugin, RunPluginLocation};
use crate::input::plugin::law_config_equals_itself;
pub use crate::input::plugin::{PluginConfig, PluginType};
use crate::order::{
    is_before, law_order_is_asymmetric, law_order_is_total, law_order_is_transitive, text_before,
};
use crate::outside::{path_bytes, path_debug, path_debug_text, url_chars, url_text};
use std::path::PathBuf;
use vstd::prelude::*;
use vstd::string::*;

verus! {

/// The configurations by tag, where later entries override earlier ones with the same tag.
pub open spec fn by_tag(entries: Seq<(PluginTag, PluginConfig)>) -> Map<Seq<char>, PluginConfig>
    decreases entries.len(),
{
    if entries.len() == 0 {
        Map::empty()
    } else {
        by_tag(entries.drop_last()).insert(entries.last().0@, entries.last().1)
    }
}

/// Whether no two entries have the same tag.
pub open spec fn distinct_tags(entries: Seq<(PluginTag, PluginConfig)>) -> bool {
    forall|i: int, j: int|
        0 <= i < j < entries.len() ==> (#[trigger] entries[i]).0@ != (#[trigger] entries[j]).0@
}

/// Where no two entries have the same tag, the map holds exactly the entries.
proof fn lemma_by_tag(entries: Seq<(PluginTag, PluginConfig)>)
    requires
        distinct_tags(entries),
    ensures
        forall|i: int|
            0 <= i < entries.len() ==> by_tag(entries).contains_key(
                (#[trigger] entries[i]).0@,
            ) && by_tag(entries)[entries[i].0@] == entries[i].1,
        forall|tag: Seq<char>| #[trigger]
            by_tag(entries).contains_key(tag) ==> exists|i: int|
                0 <= i < entries.len() && (#[trigger] entries[i]).0@ == tag,
    decreases entries.len(),
{
    if entries.len() > 0 {
        let earlier = entries.drop_last();
        lemma_by_tag(earlier);
        assert forall|i: int| 0 <= i < entries.len() implies by_tag(entries).contains_key(
            (#[trigger] entries[i]).0@,
        ) && by_tag(entries)[entries[i].0@] == entries[i].1 by {
            if i < entries.len() - 1 {
                assert(earlier[i] == entries[i]);
                assert(entries[i].0@ != entries[entries.len() - 1].0@);
            }
        }
        assert forall|tag: Seq<char>| #[trigger]
            by_tag(entries).contains_key(tag) implies exists|i: int|
            0 <= i < entries.len() && (#[trigger] entries[i]).0@ == tag by {
            if tag == entries.last().0@ {
                assert(entries[entries.len() - 1].0@ == tag);
            } else {
                assert(by_tag(earlier).contains_key(tag));
                let i = choose|i: int| 0 <= i < earlier.len() && (#[trigger] earlier[i]).0@ == tag;
                assert(entries[i].0@ == tag);
            }
        }
    }
}

/// Returns the index of the entry with a tag.
fn find(entries: &Vec<(PluginTag, PluginConfig)>, tag: &PluginTag) -> (found: Option<usize>)
    requires
        distinct_tags(entries@),
    ensures
        found is Some <==> by_tag(entries@).contains_key(tag@),
        found matches Some(i) ==> i < entries@.len() && entries@[i as int].0@ == tag@
            && entries@[i as int].1 == by_tag(entries@)[tag@],
{
    proof {
        lemma_by_tag(entries@);
    }
    let mut i: usize = 0;
    while i < entries.len()
        invariant
            i <= entries@.len(),
            distinct_tags(entries@),
            forall|j: int| 0 <= j < i ==> (#[trigger] entries@[j]).0@ != tag@,
        decreases entries@.len() - i,
    {
        if entries[i].0 == *tag {
            proof {
                lemma_by_tag(entries@);
            }
            return Some(i);
        }
        i = i + 1;
    }
    None
}

/// Gives a tag a configuration, which overrides the one that it has.
fn put(entries: &mut Vec<(PluginTag, PluginConfig)>, tag: PluginTag, config: PluginConfig)
    requires
        distinct_tags(old(entries)@),
    ensures
        distinct_tags(final(entries)@),
        by_tag(final(entries)@) == by_tag(old(entries)@).insert(tag@, config),
{
    match find(entries, &tag) {
        Some(i) => {
            entries[i] = (tag, config);
            proof {
                let before = old(entries)@;
                let after = entries@;
                lemma_by_tag(before);
                assert(distinct_tags(after));
                lemma_by_tag(after);
                let target = by_tag(before).insert(tag@, config);
                assert(after[i as int] == (tag, config));
                assert forall|key: Seq<char>|
                    by_tag(after).contains_key(key) implies #[trigger] target.contains_key(key)
                    && by_tag(after)[key] == target[key] by {
                    let j = choose|j: int| 0 <= j < after.len() && (#[trigger] after[j]).0@ == key;
                    assert(after[j].0@ == key);
                    assert(before[j].0@ == key);
                }
                assert forall|key: Seq<char>| target.contains_key(key) implies #[trigger] by_tag(
                    after,
                ).contains_key(key) by {
                    if key != tag@ {
                        let j = choose|j: int|
                            0 <= j < before.len() && (#[trigger] before[j]).0@ == key;
                        assert(before[j].0@ == key);
                        assert(after[j].0@ == key);
                    }
                }
                assert(by_tag(after).dom() =~= target.dom());
                assert(by_tag(after) =~= target);
            }
        },
        None => {
            entries.push((tag, config));
            proof {
                lemma_by_tag(old(entries)@);
                assert(entries@.drop_last() =~= old(entries)@);
            }
        },
    }
}

/// Clones entries one by one.
fn clone_entries(entries: &Vec<(PluginTag, PluginConfig)>) -> (same: Vec<
    (PluginTag, PluginConfig),
>)
    ensures
        same@ == entries@,
{
    let mut same: Vec<(PluginTag, PluginConfig)> = Vec::new();
    let mut i: usize = 0;
    while i < entries.len()
        invariant
            i <= entries@.len(),
            same@ == entries@.take(i as int),
        decreases entries@.len() - i,
    {
        same.push((entries[i].0.clone(), entries[i].1.clone()));
        i = i + 1;
        proof {
            assert(entries@.take(i as int) =~= entries@.take(i - 1).push(entries@[i - 1]));
        }
    }
    proof {
        assert(entries@.take(i as int) =~= entries@);
    }
    same
}

/// Used in the config struct for plugin metadata
pub struct PluginsConfig {
    entries: Vec<(PluginTag, PluginConfig)>,
}

impl View for PluginsConfig {
    type V = Map<Seq<char>, PluginConfig>;

    closed spec fn view(&self) -> Map<Seq<char>, PluginConfig> {
        by_tag(self.entries@)
    }
}

/// The configuration of the plugin that `run` asks for: one made for its file, or the one that
/// its name has. Whether it may execute commands is up to `run` in both cases.
pub open spec fn plugin_for(
    configs: Map<Seq<char>, PluginConfig>,
    run: RunPlugin,
) -> Option<PluginConfig> {
    match run.location {
        RunPluginLocation::File(path) => Some(
            PluginConfig {
                path,
                run: PluginType::Pane(None),
                _allow_exec_host_cmd: run._allow_exec_host_cmd,
                location: run.location,
            },
        ),
        RunPluginLocation::Zellij(tag) => if configs.contains_key(tag@) {
            Some(
                PluginConfig {
                    _allow_exec_host_cmd: run._allow_exec_host_cmd,
                    ..configs[tag@]
                },
            )
        } else {
            None
        },
    }
}

impl PluginsConfig {
    #[verifier::type_invariant]
    spec fn inv(self) -> bool {
        distinct_tags(self.entries@)
    }

    /// Makes a configuration without plugins.
    pub fn new() -> (configs: Self)
        ensures
            configs@ == Map::<Seq<char>, PluginConfig>::empty(),
    {
        PluginsConfig { entries: Vec::new() }
    }

    /// Makes a configuration of the given entries.
    pub fn from_data(data: Vec<(PluginTag, PluginConfig)>) -> (configs: Self)
        ensures
            configs@ == by_tag(data@),
    {
        let mut entries: Vec<(PluginTag, PluginConfig)> = Vec::new();
        let mut i: usize = 0;
        while i < data.len()
            invariant
                i <= data@.len(),
                distinct_tags(entries@),
                by_tag(entries@) == by_tag(data@.take(i as int)),
            decreases data@.len() - i,
        {
            put(&mut entries, data[i].0.clone(), data[i].1.clone());
            i = i + 1;
            proof {
                assert(data@.take(i as int).drop_last() =~= data@.take(i - 1));
            }
        }
        proof {
            assert(data@.take(i as int) =~= data@);
        }
        PluginsConfig { entries }
    }

    /// Get plugin config from run configuration specified in layout files.
    pub fn get(&self, run: &RunPlugin) -> (config: Option<PluginConfig>)
        ensures
            config == plugin_for(self@, *run),
    {
        proof {
            use_type_invariant(self);
        }
        match &run.location {
            RunPluginLocation::File(path) => Some(
                PluginConfig {
                    path: path.clone(),
                    run: PluginType::Pane(None),
                    _allow_exec_host_cmd: run._allow_exec_host_cmd,
                    location: run.location.clone(),
                },
            ),
            RunPluginLocation::Zellij(tag) => match find(&self.entries, tag) {
                Some(i) => {
                    let plugin = self.entries[i].1.clone();
                    Some(
                        PluginConfig { _allow_exec_host_cmd: run._allow_exec_host_cmd, ..plugin },
                    )
                },
                None => None,
            },
        }
    }

    /// Merges two PluginConfig structs into one PluginConfig struct
    /// `other` overrides the PluginConfig of `self`.
    pub fn merge(&self, other: Self) -> (merged: Self)
        ensures
            merged@ == self@.union_prefer_right(other@),
    {
        proof {
            use_type_invariant(self);
            use_type_invariant(&other);
            assert(self@.union_prefer_right(by_tag(other.entries@.take(0))) =~= self@);
        }
        let mut entries = clone_entries(&self.entries);
        let mut i: usize = 0;
        while i < other.entries.len()
            invariant
                i <= other.entries@.len(),
                distinct_tags(entries@),
                by_tag(entries@) == self@.union_prefer_right(by_tag(other.entries@.take(i as int))),
            decreases other.entries@.len() - i,
        {
            put(&mut entries, other.entries[i].0.clone(), other.entries[i].1.clone());
            i = i + 1;
            proof {
                let done = other.entries@.take(i as int);
                assert(done.drop_last() =~= other.entries@.take(i - 1));
                assert(by_tag(entries@) =~= self@.union_prefer_right(by_tag(done)));
            }
        }
        proof {
            assert(other.entries@.take(i as int) =~= other.entries@);
        }
        PluginsConfig { entries }
    }
}

/// Whether `values` are the configurations of `configs`, each once: those of `tags`, which are
/// the tags of `configs`, each once.
pub open spec fn lists(
    configs: Map<Seq<char>, PluginConfig>,
    tags: Seq<Seq<char>>,
    values: Seq<PluginConfig>,
) -> bool {
    &&& tags.no_duplicates()
    &&& tags.len() == values.len()
    &&& forall|tag: Seq<char>| tags.contains(tag) <==> configs.contains_key(tag)
    &&& forall|i: int| 0 <= i < values.len() ==> #[trigger] values[i] == configs[tags[i]]
}

/// Whether tags stand in their order.
pub open spec fn ascending(tags: Seq<Seq<char>>) -> bool {
    forall|i: int, j: int|
        0 <= i < j < tags.len() ==> text_before(#[trigger] tags[i], #[trigger] tags[j])
}

/// A tag that is put behind all the tags that come before it, and before all others, leaves the
/// tags in their order.
proof fn lemma_insert_in_order(tags: Seq<Seq<char>>, at: int, tag: Seq<char>)
    requires
        ascending(tags),
        0 <= at <= tags.len(),
        forall|k: int| 0 <= k < at ==> text_before(#[trigger] tags[k], tag),
        at < tags.len() ==> !text_before(tags[at], tag),
        forall|k: int| 0 <= k < tags.len() ==> #[trigger] tags[k] != tag,
    ensures
        ascending(tags.insert(at, tag)),
        forall|other: Seq<char>|
            tags.contains(other) || other == tag ==> #[trigger] tags.insert(at, tag).contains(
                other,
            ),
{
    let after = tags.insert(at, tag);
    assert(after[at] == tag);
    assert forall|k: int| at <= k < tags.len() implies text_before(tag, #[trigger] tags[k]) by {
        law_order_is_total(tags[at], tag);
        if k > at {
            assert(text_before(tags[at], tags[k]));
            law_order_is_transitive(tag, tags[at], tags[k]);
        }
    }
    assert forall|i: int, j: int| 0 <= i < j < after.len() implies text_before(
        #[trigger] after[i],
        #[trigger] after[j],
    ) by {
        let old_i = if i < at { i } else { i - 1 };
        let old_j = if j < at { j } else { j - 1 };
        if i != at {
            assert(after[i] == tags[old_i]);
        }
        if j != at {
            assert(after[j] == tags[old_j]);
        }
    }
    assert forall|other: Seq<char>|
        tags.contains(other) || other == tag implies #[trigger] after.contains(other) by {
        if other != tag {
            let k = choose|k: int| 0 <= k < tags.len() && tags[k] == other;
            assert(after[if k < at { k } else { k + 1 }] == other);
        }
    }
}

/// The configurations that a list refers to.
pub open spec fn configs_of(values: Seq<&PluginConfig>) -> Seq<PluginConfig> {
    values.map_values(|value: &PluginConfig| *value)
}

/// The tags of entries.
pub open spec fn tags_of(entries: Seq<(&PluginTag, &PluginConfig)>) -> Seq<Seq<char>> {
    entries.map_values(|entry: (&PluginTag, &PluginConfig)| entry.0@)
}

/// The configurations of entries.
pub open spec fn values_of(entries: Seq<(&PluginTag, &PluginConfig)>) -> Seq<PluginConfig> {
    entries.map_values(|entry: (&PluginTag, &PluginConfig)| *entry.1)
}

impl PluginsConfig {
    /// Returns the configurations, in no particular order.
    pub fn iter(&self) -> (values: Vec<&PluginConfig>)
        ensures
            exists|tags: Seq<Seq<char>>| #[trigger]
                lists(self@, tags, configs_of(values@)),
    {
        proof {
            use_type_invariant(self);
        }
        let mut values: Vec<&PluginConfig> = Vec::new();
        let mut i: usize = 0;
        while i < self.entries.len()
            invariant
                i <= self.entries@.len(),
                values@.len() == i,
                forall|j: int| 0 <= j < i ==> *(#[trigger] values@[j]) == self.entries@[j].1,
            decreases self.entries@.len() - i,
        {
            values.push(&self.entries[i].1);
            i = i + 1;
        }
        proof {
            use_type_invariant(self);
            lemma_by_tag(self.entries@);
            let tags = self.entries@.map_values(|entry: (PluginTag, PluginConfig)| entry.0@);
            assert forall|tag: Seq<char>| tags.contains(tag) <==> self@.contains_key(tag) by {
                if tags.contains(tag) {
                    let j = choose|j: int| 0 <= j < tags.len() && tags[j] == tag;
                    assert(self.entries@[j].0@ == tag);
                }
                if self@.contains_key(tag) {
                    let j = choose|j: int|
                        0 <= j < self.entries@.len() && (#[trigger] self.entries@[j]).0@ == tag;
                    assert(tags[j] == tag);
                }
            }
            assert(lists(self@, tags, configs_of(values@)));
        }
        values
    }

    /// Returns the tags and their configurations, by tag.
    pub fn stable_sorted(&self) -> (sorted: Vec<(&PluginTag, &PluginConfig)>)
        ensures
            ascending(tags_of(sorted@)),
            lists(self@, tags_of(sorted@), values_of(sorted@)),
    {
        let mut sorted: Vec<(&PluginTag, &PluginConfig)> = Vec::new();
        let mut i: usize = 0;
        proof {
            use_type_invariant(self);
        }
        while i < self.entries.len()
            invariant
                i <= self.entries@.len(),
                distinct_tags(self.entries@),
                ascending(tags_of(sorted@)),
                forall|j: int|
                    0 <= j < i ==> tags_of(sorted@).contains((#[trigger] self.entries@[j]).0@),
                forall|k: int|
                    0 <= k < sorted@.len() ==> exists|j: int|
                        0 <= j < i && (#[trigger] self.entries@[j]).0@ == (
                        #[trigger] sorted@[k]).0@ && self.entries@[j].1 == *sorted@[k].1,
            decreases self.entries@.len() - i,
        {
            let tag = &self.entries[i].0;
            let config = &self.entries[i].1;
            let mut at: usize = 0;
            while at < sorted.len() && is_before(&sorted[at].0.0, &tag.0)
                invariant
                    at <= sorted@.len(),
                    forall|k: int| 0 <= k < at ==> text_before((#[trigger] sorted@[k]).0@, tag@),
                decreases sorted@.len() - at,
            {
                at = at + 1;
            }
            let ghost before = sorted@;
            sorted.insert(at, (tag, config));
            proof {
                let tags = tags_of(before);
                assert forall|k: int| 0 <= k < before.len() implies #[trigger] tags[k] != tag@ by {
                    let j = choose|j: int|
                        0 <= j < i && (#[trigger] self.entries@[j]).0@ == before[k].0@
                            && self.entries@[j].1 == *before[k].1;
                    assert(self.entries@[j].0@ != self.entries@[i as int].0@);
                }
                lemma_insert_in_order(tags, at as int, tag@);
                assert(tags_of(sorted@) =~= tags.insert(at as int, tag@));
                assert forall|j: int| 0 <= j < i + 1 implies tags_of(sorted@).contains(
                    (#[trigger] self.entries@[j]).0@,
                ) by {
                    if j < i {
                        assert(tags.contains(self.entries@[j].0@));
                    }
                }
                assert forall|k: int| 0 <= k < sorted@.len() implies exists|j: int|
                    0 <= j < i + 1 && (#[trigger] self.entries@[j]).0@ == (
                    #[trigger] sorted@[k]).0@ && self.entries@[j].1 == *sorted@[k].1 by {
                    if k == at {
                        assert(self.entries@[i as int].0@ == sorted@[k].0@);
                    } else {
                        let old_k = if k < at { k } else { k - 1 };
                        assert(sorted@[k] == before[old_k]);
                        let j = choose|j: int|
                            0 <= j < i && (#[trigger] self.entries@[j]).0@ == before[old_k].0@
                                && self.entries@[j].1 == *before[old_k].1;
                        assert(self.entries@[j].0@ == sorted@[k].0@);
                    }
                }
            }
            i = i + 1;
        }
        proof {
            lemma_by_tag(self.entries@);
            let tags = tags_of(sorted@);
            assert forall|a: int, b: int| 0 <= a < tags.len() && 0 <= b < tags.len() && a
                != b implies tags[a] != tags[b] by {
                law_order_is_asymmetric(tags[a], tags[b]);
                if a < b {
                    assert(text_before(tags[a], tags[b]));
                } else {
                    assert(text_before(tags[b], tags[a]));
                }
            }
            assert forall|tag: Seq<char>| tags.contains(tag) <==> self@.contains_key(tag) by {
                if tags.contains(tag) {
                    let k = choose|k: int| 0 <= k < tags.len() && tags[k] == tag;
                    assert(sorted@[k].0@ == tag);
                }
                if self@.contains_key(tag) {
                    let j = choose|j: int|
                        0 <= j < self.entries@.len() && (#[trigger] self.entries@[j]).0@ == tag;
                    assert(tags.contains(self.entries@[j].0@));
                }
            }
            assert forall|k: int| 0 <= k < sorted@.len() implies #[trigger] values_of(sorted@)[k]
                == self@[tags[k]] by {
                assert(tags[k] == sorted@[k].0@);
            }
        }
        sorted
    }
}

impl Default for PluginsConfig {
    fn default() -> (configs: Self)
        ensures
            configs@ == Map::<Seq<char>, PluginConfig>::empty(),
    {
        PluginsConfig::new()
    }
}

impl Clone for PluginsConfig {
    fn clone(&self) -> (same: Self)
        ensures
            same@ == self@,
    {
        proof {
            use_type_invariant(self);
        }
        PluginsConfig { entries: clone_entries(&self.entries) }
    }
}

/// Whether two configurations have the same tags, and say the same of each.
pub open spec fn same_configs(
    left: Map<Seq<char>, PluginConfig>,
    right: Map<Seq<char>, PluginConfig>,
) -> bool {
    forall|tag: Seq<char>|
        #![trigger left.contains_key(tag)]
        #![trigger right.contains_key(tag)]
        left.contains_key(tag) == right.contains_key(tag) && (left.contains_key(tag)
            ==> left[tag].same_as(right[tag]))
}

/// Returns whether each of the entries `part` is found among the entries `whole`, and says the
/// same there.
fn all_found(
    part: &Vec<(PluginTag, PluginConfig)>,
    whole: &Vec<(PluginTag, PluginConfig)>,
) -> (found: bool)
    requires
        distinct_tags(part@),
        distinct_tags(whole@),
    ensures
        found == (forall|tag: Seq<char>| #[trigger]
            by_tag(part@).contains_key(tag) ==> by_tag(whole@).contains_key(tag) && by_tag(
                part@,
            )[tag].same_as(by_tag(whole@)[tag])),
{
    let mut i: usize = 0;
    proof {
        lemma_by_tag(part@);
    }
    while i < part.len()
        invariant
            i <= part@.len(),
            distinct_tags(part@),
            distinct_tags(whole@),
            forall|j: int|
                0 <= j < i ==> by_tag(whole@).contains_key((#[trigger] part@[j]).0@)
                    && part@[j].1.same_as(by_tag(whole@)[part@[j].0@]),
        decreases part@.len() - i,
    {
        let same = match find(whole, &part[i].0) {
            Some(k) => part[i].1 == whole[k].1,
            None => false,
        };
        if !same {
            proof {
                lemma_by_tag(part@);
                assert(by_tag(part@).contains_key(part@[i as int].0@));
            }
            return false;
        }
        i = i + 1;
    }
    true
}

/// Returns whether each of the tags of `part` is found among the entries `whole`.
fn all_tags_found(
    part: &Vec<(PluginTag, PluginConfig)>,
    whole: &Vec<(PluginTag, PluginConfig)>,
) -> (found: bool)
    requires
        distinct_tags(part@),
        distinct_tags(whole@),
    ensures
        found == (forall|tag: Seq<char>| #[trigger]
            by_tag(part@).contains_key(tag) ==> by_tag(whole@).contains_key(tag)),
{
    let mut i: usize = 0;
    proof {
        lemma_by_tag(part@);
    }
    while i < part.len()
        invariant
            i <= part@.len(),
            distinct_tags(part@),
            distinct_tags(whole@),
            forall|j: int|
                0 <= j < i ==> by_tag(whole@).contains_key((#[trigger] part@[j]).0@),
        decreases part@.len() - i,
    {
        if find(whole, &part[i].0).is_none() {
            proof {
                lemma_by_tag(part@);
                assert(by_tag(part@).contains_key(part@[i as int].0@));
            }
            return false;
        }
        i = i + 1;
    }
    true
}

impl PartialEq for PluginsConfig {
    fn eq(&self, other: &Self) -> (same: bool) {
        proof {
            use_type_invariant(self);
            use_type_invariant(other);
        }
        all_found(&self.entries, &other.entries) && all_tags_found(&other.entries, &self.entries)
    }
}

impl vstd::std_specs::cmp::PartialEqSpecImpl for PluginsConfig {
    open spec fn obeys_eq_spec() -> bool {
        true
    }

    open spec fn eq_spec(&self, other: &Self) -> bool {
        same_configs(self@, other@)
    }
}

/// What is wrong with a plugins configuration.
#[derive(Debug, PartialEq)]
pub enum PluginsConfigError {
    /// A tag that is given twice.
    DuplicatePlugins(PluginTag),
    /// A URL whose scheme is not supported.
    InvalidUrl(url::Url),
    /// A path at which there is no plugin.
    InvalidPluginLocation(PathBuf),
}

impl PluginsConfigError {
    /// What is said of the error.
    pub open spec fn text(self) -> Seq<char> {
        match self {
            PluginsConfigError::DuplicatePlugins(tag) =>
                "Duplication in plugin tag names is not allowed: '"@ + tag@ + "'"@,
            PluginsConfigError::InvalidUrl(url) =>
                "Only 'file:' and 'zellij:' url schemes are supported for plugin lookup. '"@
                    + url_chars(url) + "' does not match either."@,
            PluginsConfigError::InvalidPluginLocation(path) =>
                "Could not find plugin at the path: '"@ + path_debug_text(path_bytes(path))
                    + "'"@,
        }
    }

    /// Says what is wrong.
    pub fn to_string(&self) -> (text: String)
        ensures
            text@ == self.text(),
    {
        match self {
            PluginsConfigError::DuplicatePlugins(tag) => {
                let name = String::from(tag.clone());
                let mut text = "Duplication in plugin tag names is not allowed: '".to_owned();
                text.append(&name);
                text.append("'");
                text
            },
            PluginsConfigError::InvalidUrl(url) => {
                let mut text =
                    "Only 'file:' and 'zellij:' url schemes are supported for plugin lookup. '".to_owned();
                text.append(&url_text(url));
                text.append("' does not match either.");
                text
            },
            PluginsConfigError::InvalidPluginLocation(path) => {
                let mut text = "Could not find plugin at the path: '".to_owned();
                text.append(&path_debug(path));
                text.append("'");
                text
            },
        }
    }
}

/// A merged configuration gives what the overriding one gives, where that has the plugin, and
/// what the overridden one gives where it has not.
pub proof fn law_merge_overrides(
    base: Map<Seq<char>, PluginConfig>,
    other: Map<Seq<char>, PluginConfig>,
    run: RunPlugin,
)
    ensures
        plugin_for(base.union_prefer_right(other), run) == (if plugin_for(other, run) is Some {
            plugin_for(other, run)
        } else {
            plugin_for(base, run)
        }),
{
}

/// Merging with a configuration without plugins changes nothing, on either side.
pub proof fn law_merge_with_nothing(configs: Map<Seq<char>, PluginConfig>)
    ensures
        configs.union_prefer_right(Map::empty()) == configs,
        Map::<Seq<char>, PluginConfig>::empty().union_prefer_right(configs) == configs,
{
    assert(configs.union_prefer_right(Map::empty()) =~= configs);
    assert(Map::<Seq<char>, PluginConfig>::empty().union_prefer_right(configs) =~= configs);
}

/// It does not matter in which grouping three configurations are merged.
pub proof fn law_merge_is_associative(
    first: Map<Seq<char>, PluginConfig>,
    second: Map<Seq<char>, PluginConfig>,
    third: Map<Seq<char>, PluginConfig>,
)
    ensures
        first.union_prefer_right(second).union_prefer_right(third) == first.union_prefer_right(
            second.union_prefer_right(third),
        ),
{
    assert(first.union_prefer_right(second).union_prefer_right(third)
        =~= first.union_prefer_right(second.union_prefer_right(third)));
}

/// Whether a plugin may execute commands is up to the layout that runs it, not to its
/// configuration.
pub proof fn law_layout_decides_on_commands(
    configs: Map<Seq<char>, PluginConfig>,
    run: RunPlugin,
)
    ensures
        plugin_for(configs, run) matches Some(config) ==> config._allow_exec_host_cmd
            == run._allow_exec_host_cmd,
{
}

/// A plugin is found exactly where it is asked for by its file or by a tag that is configured.
pub proof fn law_found_where_configured(
    configs: Map<Seq<char>, PluginConfig>,
    run: RunPlugin,
)
    ensures
        plugin_for(configs, run) is Some <==> (run.location matches RunPluginLocation::Zellij(tag)
            ==> configs.contains_key(tag@)),
{
}

/// A plugins configuration is equal to itself, and so to a clone of it.
pub proof fn law_configs_equal_themselves(configs: Map<Seq<char>, PluginConfig>)
    ensures
        same_configs(configs, configs),
{
    assert forall|tag: Seq<char>| #[trigger] configs.contains_key(tag) implies configs[tag].same_as(
        configs[tag],
    ) by {
        law_config_equals_itself(configs[tag]);
    }
}

/// Tags in their order are determined by which tags they are.
proof fn lemma_ascending_is_unique(left: Seq<Seq<char>>, right: Seq<Seq<char>>)
    requires
        ascending(left),
        ascending(right),
        forall|tag: Seq<char>| left.contains(tag) <==> right.contains(tag),
    ensures
        left == right,
    decreases left.len(),
{
    if left.len() == 0 {
        if right.len() > 0 {
            assert(right.contains(right[0]));
            assert(left.contains(right[0]));
        }
        assert(left =~= right);
    } else {
        assert(left.contains(left.last()));
        assert(right.contains(left.last()));
        let k = choose|k: int| 0 <= k < right.len() && right[k] == left.last();
        assert(right.contains(right.last()));
        assert(left.contains(right.last()));
        let j = choose|j: int| 0 <= j < left.len() && left[j] == right.last();
        law_order_is_asymmetric(left.last(), right.last());
        assert(left.last() == right.last()) by {
            if k < right.len() - 1 && j < left.len() - 1 {
                assert(text_before(right[k], right[right.len() - 1]));
                assert(text_before(left[j], left[left.len() - 1]));
            }
        }
        let shorter_left = left.drop_last();
        let shorter_right = right.drop_last();
        assert(ascending(shorter_left)) by {
            assert forall|a: int, b: int| 0 <= a < b < shorter_left.len() implies text_before(
                #[trigger] shorter_left[a],
                #[trigger] shorter_left[b],
            ) by {
                assert(text_before(left[a], left[b]));
            }
        }
        assert(ascending(shorter_right)) by {
            assert forall|a: int, b: int| 0 <= a < b < shorter_right.len() implies text_before(
                #[trigger] shorter_right[a],
                #[trigger] shorter_right[b],
            ) by {
                assert(text_before(right[a], right[b]));
            }
        }
        assert forall|tag: Seq<char>|
            shorter_left.contains(tag) <==> shorter_right.contains(tag) by {
            lemma_drop_last_contains(left, tag);
            lemma_drop_last_contains(right, tag);
        }
        lemma_ascending_is_unique(shorter_left, shorter_right);
        assert(left =~= shorter_left.push(left.last()));
        assert(right =~= shorter_right.push(right.last()));
    }
}

/// Without the last of tags in their order, the others are left.
proof fn lemma_drop_last_contains(tags: Seq<Seq<char>>, tag: Seq<char>)
    requires
        ascending(tags),
        tags.len() > 0,
    ensures
        tags.drop_last().contains(tag) <==> tags.contains(tag) && tag != tags.last(),
{
    if tags.drop_last().contains(tag) {
        let k = choose|k: int| 0 <= k < tags.len() - 1 && tags.drop_last()[k] == tag;
        assert(tags[k] == tag);
        assert(text_before(tags[k], tags[tags.len() - 1]));
        law_order_is_asymmetric(tag, tag);
    }
    if tags.contains(tag) && tag != tags.last() {
        let k = choose|k: int| 0 <= k < tags.len() && tags[k] == tag;
        assert(tags.drop_last()[k] == tag);
    }
}

/// A configuration has one sorted form, however it came about.
pub proof fn law_sorted_form_is_unique(
    configs: Map<Seq<char>, PluginConfig>,
    left_tags: Seq<Seq<char>>,
    left_values: Seq<PluginConfig>,
    right_tags: Seq<Seq<char>>,
    right_values: Seq<PluginConfig>,
)
    requires
        ascending(left_tags),
        lists(configs, left_tags, left_values),
        ascending(right_tags),
        lists(configs, right_tags, right_values),
    ensures
        left_tags == right_tags,
        left_values == right_values,
{
    lemma_ascending_is_unique(left_tags, right_tags);
    assert(left_values =~= right_values);
}

/// A plugin that is asked for by a tag that is configured has the path, the type and the location
/// that are configured under that tag. Only whether it may execute commands comes from the layout.
pub proof fn law_configured_plugin_is_given_as_configured(
    configs: PluginsConfig,
    run: RunPlugin,
    tag: PluginTag,
    found: Option<PluginConfig>,
)
    requires
        call_ensures(PluginsConfig::get, (&configs, &run), found),
        run.location == RunPluginLocation::Zellij(tag),
    ensures
        found is Some <==> configs@.contains_key(tag@),
        found is Some ==> {
            &&& found->0.path == configs@[tag@].path
            &&& found->0.run == configs@[tag@].run
            &&& found->0.location == configs@[tag@].location
            &&& found->0._allow_exec_host_cmd == run._allow_exec_host_cmd
        },
{
}

/// A plugin that is asked for by its file runs that file in a pane without a tab, whatever is
/// configured.
pub proof fn law_plugin_of_a_file_runs_in_a_pane(
    configs: PluginsConfig,
    run: RunPlugin,
    file: PathBuf,
    found: Option<PluginConfig>,
)
    requires
        call_ensures(PluginsConfig::get, (&configs, &run), found),
        run.location == RunPluginLocation::File(file),
    ensures
        found is Some,
        found->0.path == file,
        found->0.run == PluginType::Pane(None),
        found->0.location == run.location,
        found->0._allow_exec_host_cmd == run._allow_exec_host_cmd,
{
}

/// A tag is configured where an entry has it, and as the last such entry says.
pub proof fn law_last_entry_of_a_tag_counts(entries: Seq<(PluginTag, PluginConfig)>)
    ensures
        forall|tag: Seq<char>| #[trigger]
            by_tag(entries).contains_key(tag) <==> exists|i: int|
                0 <= i < entries.len() && (#[trigger] entries[i]).0@ == tag,
        forall|i: int|
            0 <= i < entries.len() && (forall|j: int|
                i < j < entries.len() ==> (#[trigger] entries[j]).0@ != entries[i].0@)
                ==> by_tag(entries)[(#[trigger] entries[i]).0@] == entries[i].1,
    decreases entries.len(),
{
    if entries.len() > 0 {
        let earlier = entries.drop_last();
        let last = entries.len() - 1;
        law_last_entry_of_a_tag_counts(earlier);
        assert forall|tag: Seq<char>| #[trigger]
            by_tag(entries).contains_key(tag) <==> exists|i: int|
            0 <= i < entries.len() && (#[trigger] entries[i]).0@ == tag by {
            if by_tag(entries).contains_key(tag) {
                if entries[last].0@ != tag {
                    assert(by_tag(earlier).contains_key(tag));
                    let i = choose|i: int|
                        0 <= i < earlier.len() && (#[trigger] earlier[i]).0@ == tag;
                    assert(entries[i].0@ == tag);
                }
            }
            if exists|i: int| 0 <= i < entries.len() && (#[trigger] entries[i]).0@ == tag {
                let i = choose|i: int| 0 <= i < entries.len() && (#[trigger] entries[i]).0@ == tag;
                if i < last {
                    assert(earlier[i].0@ == tag);
                    assert(by_tag(earlier).contains_key(tag));
                }
            }
        }
        assert forall|i: int|
            0 <= i < entries.len() && (forall|j: int|
                i < j < entries.len() ==> (#[trigger] entries[j]).0@
                    != entries[i].0@) implies by_tag(entries)[(#[trigger] entries[i]).0@]
            == entries[i].1 by {
            if i < last {
                assert(entries[last].0@ != entries[i].0@);
                assert forall|j: int| i < j < earlier.len() implies (#[trigger] earlier[j]).0@
                    != earlier[i].0@ by {
                    assert(entries[j].0@ != entries[i].0@);
                }
                assert(earlier[i] == entries[i]);
            }
        }
    }
}

/// What is configured is what the entries say: the last entry of each tag, and nothing else.
pub proof fn law_entries_are_configured(
    data: Vec<(PluginTag, PluginConfig)>,
    configs: PluginsConfig,
    i: int,
    tag: Seq<char>,
)
    requires
        call_ensures(PluginsConfig::from_data, (data,), configs),
        0 <= i < data@.len(),
        forall|j: int| i < j < data@.len() ==> (#[trigger] data@[j]).0@ != data@[i].0@,
    ensures
        configs@.contains_key(data@[i].0@),
        configs@[data@[i].0@] == data@[i].1,
        configs@.contains_key(tag) <==> exists|j: int|
            0 <= j < data@.len() && (#[trigger] data@[j]).0@ == tag,
{
    law_last_entry_of_a_tag_counts(data@);
}

/// No entries configure nothing.
pub proof fn law_no_entries_configure_nothing(
    data: Vec<(PluginTag, PluginConfig)>,
    configs: PluginsConfig,
    blank: PluginsConfig,
)
    requires
        call_ensures(PluginsConfig::from_data, (data,), configs),
        call_ensures(PluginsConfig::new, (), blank),
        data@.len() == 0,
    ensures
        forall|tag: Seq<char>| !(#[trigger] configs@.contains_key(tag)),
        forall|tag: Seq<char>| !(#[trigger] blank@.contains_key(tag)),
{
}

/// A plugin of a merged configuration is that of the overriding one, where that has it, and else
/// that of the overridden one.
pub proof fn law_merged_configs_are_looked_up_in_turn(
    base: PluginsConfig,
    other: PluginsConfig,
    merged: PluginsConfig,
    run: RunPlugin,
    of_base: Option<PluginConfig>,
    of_other: Option<PluginConfig>,
    of_merged: Option<PluginConfig>,
)
    requires
        call_ensures(PluginsConfig::merge, (&base, other), merged),
        call_ensures(PluginsConfig::get, (&base, &run), of_base),
        call_ensures(PluginsConfig::get, (&other, &run), of_other),
        call_ensures(PluginsConfig::get, (&merged, &run), of_merged),
    ensures
        of_merged == (if of_other is Some {
            of_other
        } else {
            of_base
        }),
{
    law_merge_overrides(base@, other@, run);
}

/// A merged configuration has the tags of both, each as the overriding one has it where it does.
pub proof fn law_merged_configs_have_all_tags(
    base: PluginsConfig,
    other: PluginsConfig,
    merged: PluginsConfig,
    tag: Seq<char>,
)
    requires
        call_ensures(PluginsConfig::merge, (&base, other), merged),
    ensures
        merged@.contains_key(tag) <==> base@.contains_key(tag) || other@.contains_key(tag),
        other@.contains_key(tag) ==> merged@[tag] == other@[tag],
        base@.contains_key(tag) && !other@.contains_key(tag) ==> merged@[tag] == base@[tag],
{
}

/// A listing of a configuration has each tag once, and with it what is configured under it.
pub proof fn law_listing_has_each_tag_once(
    configs: Map<Seq<char>, PluginConfig>,
    tags: Seq<Seq<char>>,
    values: Seq<PluginConfig>,
)
    requires
        lists(configs, tags, values),
    ensures
        tags.len() == values.len(),
        forall|i: int, j: int|
            0 <= i < j < tags.len() ==> #[trigger] tags[i] != #[trigger] tags[j],
        forall|i: int|
            0 <= i < tags.len() ==> configs.contains_key(#[trigger] tags[i]) && values[i]
                == configs[tags[i]],
        forall|tag: Seq<char>| #[trigger]
            configs.contains_key(tag) ==> exists|i: int|
                0 <= i < tags.len() && #[trigger] tags[i] == tag,
{
    assert forall|i: int| 0 <= i < tags.len() implies configs.contains_key(#[trigger] tags[i])
        && values[i] == configs[tags[i]] by {
        assert(tags.contains(tags[i]));
    }
    assert forall|tag: Seq<char>| #[trigger] configs.contains_key(tag) implies exists|i: int|
        0 <= i < tags.len() && #[trigger] tags[i] == tag by {
        assert(tags.contains(tag));
    }
}

/// Going through a configuration gives what is configured under each tag, once for each tag.
pub proof fn law_iter_gives_each_config(configs: PluginsConfig, values: Vec<&PluginConfig>)
    requires
        call_ensures(PluginsConfig::iter, (&configs,), values),
    ensures
        exists|tags: Seq<Seq<char>>|
            {
                &&& #[trigger] tags.len() == values@.len()
                &&& forall|i: int, j: int|
                    0 <= i < j < tags.len() ==> #[trigger] tags[i] != #[trigger] tags[j]
                &&& forall|i: int|
                    0 <= i < tags.len() ==> configs@.contains_key(#[trigger] tags[i])
                        && *values@[i] == configs@[tags[i]]
                &&& forall|tag: Seq<char>| #[trigger]
                    configs@.contains_key(tag) ==> exists|i: int|
                        0 <= i < tags.len() && #[trigger] tags[i] == tag
            },
{
    let tags = choose|tags: Seq<Seq<char>>| #[trigger]
        lists(configs@, tags, configs_of(values@));
    law_listing_has_each_tag_once(configs@, tags, configs_of(values@));
    assert(tags.len() == values@.len());
    assert forall|i: int| 0 <= i < tags.len() implies configs@.contains_key(#[trigger] tags[i])
        && *values@[i] == configs@[tags[i]] by {
        assert(configs_of(values@)[i] == *values@[i]);
    }
}

/// The sorted form of a configuration has each tag once, each before all that come after it in the
/// order of texts, and with it what is configured under it.
pub proof fn law_sorted_form_is_in_order(
    configs: PluginsConfig,
    sorted: Vec<(&PluginTag, &PluginConfig)>,
)
    requires
        call_ensures(PluginsConfig::stable_sorted, (&configs,), sorted),
    ensures
        forall|i: int, j: int|
            0 <= i < j < sorted@.len() ==> text_before(
                (#[trigger] sorted@[i]).0@,
                (#[trigger] sorted@[j]).0@,
            ),
        forall|i: int|
            0 <= i < sorted@.len() ==> configs@.contains_key((#[trigger] sorted@[i]).0@)
                && *sorted@[i].1 == configs@[sorted@[i].0@],
        forall|tag: Seq<char>| #[trigger]
            configs@.contains_key(tag) ==> exists|i: int|
                0 <= i < sorted@.len() && (#[trigger] sorted@[i]).0@ == tag,
{
    let tags = tags_of(sorted@);
    let values = values_of(sorted@);
    law_listing_has_each_tag_once(configs@, tags, values);
    assert forall|i: int, j: int| 0 <= i < j < sorted@.len() implies text_before(
        (#[trigger] sorted@[i]).0@,
        (#[trigger] sorted@[j]).0@,
    ) by {
        assert(text_before(tags[i], tags[j]));
    }
    assert forall|i: int| 0 <= i < sorted@.len() implies configs@.contains_key(
        (#[trigger] sorted@[i]).0@,
    ) && *sorted@[i].1 == configs@[sorted@[i].0@] by {
        assert(tags[i] == sorted@[i].0@);
        assert(values[i] == *sorted@[i].1);
    }
    assert forall|tag: Seq<char>| #[trigger] configs@.contains_key(tag) implies exists|i: int|
        0 <= i < sorted@.len() && (#[trigger] sorted@[i]).0@ == tag by {
        let i = choose|i: int| 0 <= i < tags.len() && #[trigger] tags[i] == tag;
        assert(sorted@[i].0@ == tag);
    }
}

/// Plugins configurations are equal only where they have the same tags, and equal configurations
/// under each.
pub proof fn law_equal_configs_have_the_same_tags(
    one: Map<Seq<char>, PluginConfig>,
    other: Map<Seq<char>, PluginConfig>,
)
    ensures
        same_configs(one, other) ==> one.dom() == other.dom(),
        same_configs(one, other) ==> forall|tag: Seq<char>| #[trigger]
            one.contains_key(tag) ==> one[tag].same_as(other[tag]),
        one.dom() == other.dom() && (forall|tag: Seq<char>| #[trigger]
            one.contains_key(tag) ==> one[tag].same_as(other[tag])) ==> same_configs(one, other),
{
    if same_configs(one, other) {
        assert forall|tag: Seq<char>| one.dom().contains(tag) == other.dom().contains(tag) by {
            assert(one.contains_key(tag) == other.contains_key(tag));
        }
        assert(one.dom() =~= other.dom());
    }
    if one.dom() == other.dom() {
        assert forall|tag: Seq<char>| #[trigger]
            one.contains_key(tag) == other.contains_key(tag) by {
            assert(one.dom().contains(tag) == other.dom().contains(tag));
        }
    }
}

/// What is said of a configuration error names the whole of what is wrong: the tag, the URL or the
/// path.
pub proof fn law_config_error_names_what_is_wrong(error: PluginsConfigError, text: String)
    requires
        call_ensures(PluginsConfigError::to_string, (&error,), text),
    ensures
        error is DuplicatePlugins ==> text@
            == "Duplication in plugin tag names is not allowed: '"@
            + error->DuplicatePlugins_0.0@ + "'"@,
        error is InvalidUrl ==> text@
            == "Only 'file:' and 'zellij:' url schemes are supported for plugin lookup. '"@
            + url_chars(error->InvalidUrl_0) + "' does not match either."@,
        error is InvalidPluginLocation ==> text@ == "Could not find plugin at the path: '"@
            + path_debug_text(path_bytes(error->InvalidPluginLocation_0)) + "'"@,
{
}

} // verus!
